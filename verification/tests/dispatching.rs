use compiler_interrupts::{
    deregister, disable, dispatch, dummy, enable, register, ActiveHook, Dispatcher, FnHandler,
    InterruptHandler,
};
use std::cell::{Cell, RefCell};

/// What a handler under test does with the dispatcher it is handed.
#[derive(Clone, Copy, PartialEq)]
enum Move {
    DispatchAgain,
    Disable,
    DisableThenEnable,
    Deregister,
    RegisterAgain,
}

/// A handler that records the counts it is handed, and then makes its move.
#[derive(Clone, Copy)]
struct Scripted<'a> {
    seen: &'a RefCell<Vec<i64>>,
    hook_on_entry: &'a Cell<Option<ActiveHook>>,
    what: Move,
}

impl<'a, K: Fn()> InterruptHandler<K> for Scripted<'a> {
    fn handle(self, dispatcher: &mut Dispatcher<Self, K>, count: i64) {
        self.seen.borrow_mut().push(count);
        self.hook_on_entry.set(Some(dispatcher.active_hook()));
        match self.what {
            Move::DispatchAgain => dispatch(dispatcher, count + 1),
            Move::Disable => disable(dispatcher),
            Move::DisableThenEnable => {
                disable(dispatcher);
                enable(dispatcher);
            }
            Move::Deregister => deregister(dispatcher),
            Move::RegisterAgain => register(dispatcher, 5, 5, self),
        }
    }
}

#[test]
fn dispatch_hands_the_count_to_the_handler() {
    let seen = RefCell::new(Vec::new());
    let record = |count: i64| seen.borrow_mut().push(count);
    let mut d: Dispatcher<_, fn()> = Dispatcher::new();
    register(&mut d, 1000, 1000, FnHandler::new(&record));
    dispatch(&mut d, 700);
    dispatch(&mut d, 1500);
    dispatch(&mut d, 1500);
    assert_eq!(*seen.borrow(), vec![700, 1500, 1500]);
    assert_eq!(d.active_hook(), ActiveHook::Dispatch);
}

#[test]
fn dispatch_passes_a_lower_count_on_unchanged() {
    let seen = RefCell::new(Vec::new());
    let record = |count: i64| seen.borrow_mut().push(count);
    let mut d: Dispatcher<_, fn()> = Dispatcher::new();
    register(&mut d, 1000, 1000, FnHandler::new(&record));
    dispatch(&mut d, 700);
    dispatch(&mut d, 300);
    dispatch(&mut d, -1);
    assert_eq!(*seen.borrow(), vec![700, 300, -1]);
}

#[test]
fn dispatch_on_a_new_dispatcher_does_nothing() {
    let mut d: Dispatcher<FnHandler<fn(i64)>, fn()> = Dispatcher::new();
    dispatch(&mut d, 100);
    assert_eq!(d.active_hook(), ActiveHook::NoOp);
    assert_eq!(d.disable_depth(), 0);
    assert_eq!(d.local_counter(), 0);
}

#[test]
fn dispatch_without_a_handler_changes_nothing() {
    let mut d: Dispatcher<FnHandler<fn(i64)>, fn()> = Dispatcher::new();
    enable(&mut d);
    dispatch(&mut d, 100);
    assert_eq!(d.active_hook(), ActiveHook::Dispatch);
    assert!(d.handler().is_none());
    assert_eq!(d.ir_interval(), 100000);
}

#[test]
fn dispatch_to_dummy_changes_nothing() {
    let mut d: Dispatcher<_, fn()> = Dispatcher::new();
    register(&mut d, 1000, 1000, FnHandler::new(dummy));
    dispatch(&mut d, 100);
    assert_eq!(d.active_hook(), ActiveHook::Dispatch);
    assert_eq!(d.ir_interval(), 1000);
    assert_eq!(d.disable_depth(), 0);
    assert_eq!(d.local_counter(), 100000);
}

#[test]
fn nested_disables_hold_delivery_back() {
    let seen = RefCell::new(Vec::new());
    let record = |count: i64| seen.borrow_mut().push(count);
    let mut d: Dispatcher<_, fn()> = Dispatcher::new();
    register(&mut d, 1000, 1000, FnHandler::new(&record));
    disable(&mut d);
    disable(&mut d);
    dispatch(&mut d, 500);
    assert!(seen.borrow().is_empty());
    enable(&mut d);
    assert_eq!(d.disable_depth(), 1);
    dispatch(&mut d, 600);
    assert!(seen.borrow().is_empty());
    enable(&mut d);
    assert_eq!(d.disable_depth(), 0);
    dispatch(&mut d, 700);
    assert_eq!(*seen.borrow(), vec![700]);
}

#[test]
fn no_handler_runs_after_deregister() {
    let seen = RefCell::new(Vec::new());
    let record = |count: i64| seen.borrow_mut().push(count);
    let mut d: Dispatcher<_, fn()> = Dispatcher::new();
    register(&mut d, 1000, 1000, FnHandler::new(&record));
    dispatch(&mut d, 100);
    deregister(&mut d);
    dispatch(&mut d, 200);
    enable(&mut d);
    assert_eq!(d.active_hook(), ActiveHook::Dispatch);
    dispatch(&mut d, 300);
    disable(&mut d);
    enable(&mut d);
    dispatch(&mut d, 400);
    assert_eq!(*seen.borrow(), vec![100]);
}

#[test]
fn a_handler_runs_again_after_a_new_register() {
    let seen = RefCell::new(Vec::new());
    let record = |count: i64| seen.borrow_mut().push(count);
    let mut d: Dispatcher<_, fn()> = Dispatcher::new();
    register(&mut d, 1000, 1000, FnHandler::new(&record));
    deregister(&mut d);
    dispatch(&mut d, 200);
    register(&mut d, 1000, 1000, FnHandler::new(&record));
    dispatch(&mut d, 300);
    assert_eq!(*seen.borrow(), vec![300]);
}

#[test]
fn a_dispatch_from_inside_the_handler_is_suppressed() {
    let seen = RefCell::new(Vec::new());
    let hook_on_entry = Cell::new(None);
    let handler = Scripted { seen: &seen, hook_on_entry: &hook_on_entry, what: Move::DispatchAgain };
    let mut d: Dispatcher<_, fn()> = Dispatcher::new();
    register(&mut d, 1000, 1000, handler);
    dispatch(&mut d, 100);
    assert_eq!(*seen.borrow(), vec![100]);
    assert!(hook_on_entry.get() == Some(ActiveHook::NoOp));
    assert_eq!(d.active_hook(), ActiveHook::Dispatch);
    dispatch(&mut d, 200);
    assert_eq!(*seen.borrow(), vec![100, 200]);
}

#[test]
fn delivery_is_armed_again_after_a_handler_that_disables() {
    let seen = RefCell::new(Vec::new());
    let hook_on_entry = Cell::new(None);
    let handler = Scripted { seen: &seen, hook_on_entry: &hook_on_entry, what: Move::Disable };
    let mut d: Dispatcher<_, fn()> = Dispatcher::new();
    register(&mut d, 1000, 1000, handler);
    dispatch(&mut d, 100);
    // The handler's `disable` is counted, but delivery is armed on its return.
    assert_eq!(d.disable_depth(), 1);
    assert_eq!(d.active_hook(), ActiveHook::Dispatch);
    dispatch(&mut d, 200);
    assert_eq!(*seen.borrow(), vec![100, 200]);
    assert_eq!(d.disable_depth(), 2);
}

#[test]
fn a_handler_may_disable_and_enable() {
    let seen = RefCell::new(Vec::new());
    let hook_on_entry = Cell::new(None);
    let handler =
        Scripted { seen: &seen, hook_on_entry: &hook_on_entry, what: Move::DisableThenEnable };
    let mut d: Dispatcher<_, fn()> = Dispatcher::new();
    register(&mut d, 1000, 1000, handler);
    dispatch(&mut d, 100);
    assert_eq!(d.disable_depth(), 0);
    assert_eq!(d.active_hook(), ActiveHook::Dispatch);
    assert_eq!(*seen.borrow(), vec![100]);
}

#[test]
fn a_handler_that_deregisters_runs_no_more() {
    let seen = RefCell::new(Vec::new());
    let hook_on_entry = Cell::new(None);
    let handler = Scripted { seen: &seen, hook_on_entry: &hook_on_entry, what: Move::Deregister };
    let mut d: Dispatcher<_, fn()> = Dispatcher::new();
    register(&mut d, 1000, 1000, handler);
    dispatch(&mut d, 100);
    assert!(d.handler().is_none());
    assert_eq!(d.ir_interval(), 100000);
    assert_eq!(d.active_hook(), ActiveHook::Dispatch);
    dispatch(&mut d, 200);
    assert_eq!(*seen.borrow(), vec![100]);
}

#[test]
fn a_handler_may_register_again() {
    let seen = RefCell::new(Vec::new());
    let hook_on_entry = Cell::new(None);
    let handler =
        Scripted { seen: &seen, hook_on_entry: &hook_on_entry, what: Move::RegisterAgain };
    let mut d: Dispatcher<_, fn()> = Dispatcher::new();
    register(&mut d, 1000, 1000, handler);
    dispatch(&mut d, 100);
    assert_eq!(d.ir_interval(), 5);
    assert_eq!(d.local_counter(), 101000);
    assert_eq!(d.active_hook(), ActiveHook::Dispatch);
    assert_eq!(*seen.borrow(), vec![100]);
}

#[test]
fn each_dispatcher_stands_alone() {
    let seen_a = RefCell::new(Vec::new());
    let seen_b = RefCell::new(Vec::new());
    let record_a = |count: i64| seen_a.borrow_mut().push(count);
    let record_b = |count: i64| seen_b.borrow_mut().push(count);
    let mut a: Dispatcher<_, fn()> = Dispatcher::new();
    let mut b: Dispatcher<_, fn()> = Dispatcher::new();
    register(&mut a, 1000, 1000, FnHandler::new(&record_a));
    register(&mut b, 2000, 2000, FnHandler::new(&record_b));
    disable(&mut a);
    dispatch(&mut a, 1);
    dispatch(&mut b, 2);
    assert!(seen_a.borrow().is_empty());
    assert_eq!(*seen_b.borrow(), vec![2]);
    assert_eq!(b.disable_depth(), 0);
    assert_eq!(a.ir_interval(), 1000);
}
