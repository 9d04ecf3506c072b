//! The per-thread interrupt dispatcher and its operations.

use vstd::prelude::*;
use crate::handler::InterruptHandler;
use crate::intervals::{advance_counter, half, nine_tenths, Intervals};
use crate::model::{ActiveHook, DispatcherView};

verus! {

/// The dispatcher of one thread. It is owned by that thread alone; `H` is the
/// type of its handler, `K` that of its enable and disable hooks.
pub struct Dispatcher<H, K: Fn()> {
    active_hook: ActiveHook,
    handler: Option<H>,
    enable_hook: Option<K>,
    disable_hook: Option<K>,
    intervals: Intervals,
    local_counter: i32,
    disable_depth: i32,
    next_interval: i32,
}

impl<H, K: Fn()> View for Dispatcher<H, K> {
    type V = DispatcherView<H, K>;

    closed spec fn view(&self) -> DispatcherView<H, K> {
        DispatcherView {
            active_hook: self.active_hook,
            handler: self.handler,
            enable_hook: self.enable_hook,
            disable_hook: self.disable_hook,
            ir_interval: self.intervals.ir(),
            cycles_interval: self.intervals.cycles(),
            local_counter: self.local_counter as int,
            disable_depth: self.disable_depth as nat,
            next_interval: self.next_interval as int,
        }
    }
}

impl<H, K: Fn()> Dispatcher<H, K> {
    #[verifier::type_invariant]
    spec fn well_formed(self) -> bool {
        &&& self.disable_depth >= 0
        &&& self.enable_hook matches Some(hook) ==> call_requires(hook, ())
        &&& self.disable_hook matches Some(hook) ==> call_requires(hook, ())
    }

    /// A dispatcher in the state in which a thread starts.
    pub fn new() -> (dispatcher: Self)
        ensures
            dispatcher@ == DispatcherView::<H, K>::idle(),
    {
        Dispatcher {
            active_hook: ActiveHook::NoOp,
            handler: None,
            enable_hook: None,
            disable_hook: None,
            intervals: Intervals::defaults(),
            local_counter: 0,
            disable_depth: 0,
            next_interval: 0,
        }
    }

    /// Which function the instrumentation reaches at present.
    pub fn active_hook(&self) -> (hook: ActiveHook)
        ensures
            hook == self@.active_hook,
    {
        self.active_hook
    }

    /// The registered handler, if there is one.
    pub fn handler(&self) -> (handler: Option<H>) where H: Copy
        ensures
            handler == self@.handler,
    {
        self.handler
    }

    /// The instruction-count interval.
    pub fn ir_interval(&self) -> (value: i64)
        ensures
            value == self@.ir_interval,
    {
        self.intervals.ir_interval()
    }

    /// The instruction count below which the instrumentation resets early.
    pub fn reset_ir_interval(&self) -> (value: i64)
        ensures
            value == self@.reset_ir_interval(),
    {
        self.intervals.reset_ir_interval()
    }

    /// The cycle-count interval.
    pub fn cycles_interval(&self) -> (value: i64)
        ensures
            value == self@.cycles_interval,
    {
        self.intervals.cycles_interval()
    }

    /// The cycle count below which the instrumentation resets early.
    pub fn cycles_threshold(&self) -> (value: i64)
        ensures
            value == self@.cycles_threshold(),
    {
        self.intervals.cycles_threshold()
    }

    /// The sum, wrapped to `i32`, of the instruction-count intervals that
    /// calls of `register` have replaced.
    pub fn local_counter(&self) -> (value: i32)
        ensures
            value == self@.local_counter,
    {
        self.local_counter
    }

    /// The number of calls of `disable` that no `enable` has taken back.
    pub fn disable_depth(&self) -> (value: i32)
        ensures
            value == self@.disable_depth,
            value >= 0,
    {
        proof {
            use_type_invariant(self);
        }
        self.disable_depth
    }

    /// The next interval, which only the instrumentation sets.
    pub fn next_interval(&self) -> (value: i32)
        ensures
            value == self@.next_interval,
    {
        self.next_interval
    }
}

/// Registers `handler` with the two intervals, which are taken as given, and
/// arms delivery.
///
/// The previous instruction-count interval is added to the local counter,
/// which wraps around at the limits of `i32`. The disable depth stays as it
/// is: delivery is armed even while calls of `disable` are outstanding.
pub fn register<H, K: Fn()>(
    dispatcher: &mut Dispatcher<H, K>,
    ir_interval: i64,
    cycles_interval: i64,
    handler: H,
)
    ensures
        final(dispatcher)@ == old(dispatcher)@.after_register(
            ir_interval as int,
            cycles_interval as int,
            handler,
        ),
        final(dispatcher)@.reset_ir_interval() == half(ir_interval as int),
        final(dispatcher)@.cycles_threshold() == nine_tenths(cycles_interval as int),
{
    proof {
        use_type_invariant(&*dispatcher);
    }
    dispatcher.local_counter = advance_counter(
        dispatcher.local_counter,
        dispatcher.intervals.ir_interval(),
    );
    dispatcher.intervals = Intervals::new(ir_interval, cycles_interval);
    dispatcher.handler = Some(handler);
    dispatcher.active_hook = ActiveHook::Dispatch;
}

/// Removes the handler, restores the default intervals and suppresses
/// delivery. Hooks, counters and the disable depth stay as they are.
pub fn deregister<H, K: Fn()>(dispatcher: &mut Dispatcher<H, K>)
    ensures
        final(dispatcher)@ == old(dispatcher)@.after_deregister(),
{
    proof {
        use_type_invariant(&*dispatcher);
    }
    dispatcher.intervals = Intervals::defaults();
    dispatcher.handler = None;
    dispatcher.active_hook = ActiveHook::NoOp;
}

/// Takes back one call of `disable`, runs the enable hook, and arms delivery
/// if no call of `disable` is outstanding any more.
///
/// The hook runs on every call, also when nothing was outstanding; it runs
/// before delivery is armed.
pub fn enable<H, K: Fn()>(dispatcher: &mut Dispatcher<H, K>)
    ensures
        final(dispatcher)@ == old(dispatcher)@.after_enable(),
        old(dispatcher)@.enable_hook matches Some(hook) ==> call_ensures(hook, (), ()),
{
    proof {
        use_type_invariant(&*dispatcher);
    }
    if dispatcher.disable_depth > 0 {
        dispatcher.disable_depth = dispatcher.disable_depth - 1;
    }
    match &dispatcher.enable_hook {
        Some(hook) => {
            hook();
        },
        None => {},
    }
    if dispatcher.disable_depth == 0 {
        dispatcher.active_hook = ActiveHook::Dispatch;
    }
}

/// Suppresses delivery, counts one more outstanding call, and runs the
/// disable hook.
///
/// The hook runs on every call, also when delivery was suppressed already.
pub fn disable<H, K: Fn()>(dispatcher: &mut Dispatcher<H, K>)
    requires
        old(dispatcher)@.disable_depth < i32::MAX,
    ensures
        final(dispatcher)@ == old(dispatcher)@.after_disable(),
        old(dispatcher)@.disable_hook matches Some(hook) ==> call_ensures(hook, (), ()),
{
    proof {
        use_type_invariant(&*dispatcher);
    }
    dispatcher.active_hook = ActiveHook::NoOp;
    dispatcher.disable_depth = dispatcher.disable_depth + 1;
    match &dispatcher.disable_hook {
        Some(hook) => {
            hook();
        },
        None => {},
    }
}

/// Sets the hook that every call of `enable` runs; an earlier one is
/// replaced.
pub fn register_enable_hook<H, K: Fn()>(dispatcher: &mut Dispatcher<H, K>, hook: K)
    requires
        call_requires(hook, ()),
    ensures
        final(dispatcher)@ == old(dispatcher)@.with_enable_hook(Some(hook)),
{
    proof {
        use_type_invariant(&*dispatcher);
    }
    dispatcher.enable_hook = Some(hook);
}

/// Removes the enable hook.
pub fn deregister_enable_hook<H, K: Fn()>(dispatcher: &mut Dispatcher<H, K>)
    ensures
        final(dispatcher)@ == old(dispatcher)@.with_enable_hook(None),
{
    proof {
        use_type_invariant(&*dispatcher);
    }
    dispatcher.enable_hook = None;
}

/// Sets the hook that every call of `disable` runs; an earlier one is
/// replaced.
pub fn register_disable_hook<H, K: Fn()>(dispatcher: &mut Dispatcher<H, K>, hook: K)
    requires
        call_requires(hook, ()),
    ensures
        final(dispatcher)@ == old(dispatcher)@.with_disable_hook(Some(hook)),
{
    proof {
        use_type_invariant(&*dispatcher);
    }
    dispatcher.disable_hook = Some(hook);
}

/// Removes the disable hook.
pub fn deregister_disable_hook<H, K: Fn()>(dispatcher: &mut Dispatcher<H, K>)
    ensures
        final(dispatcher)@ == old(dispatcher)@.with_disable_hook(None),
{
    proof {
        use_type_invariant(&*dispatcher);
    }
    dispatcher.disable_hook = None;
}

/// The entry point that the instrumentation calls with the instruction count
/// so far.
///
/// Where delivery is suppressed, or no handler is registered, nothing
/// changes. Otherwise delivery is suppressed, the handler runs on
/// `current_count`, and delivery is armed again, whatever the handler did to
/// the dispatcher.
pub fn dispatch<H: InterruptHandler<K>, K: Fn()>(
    dispatcher: &mut Dispatcher<H, K>,
    current_count: i64,
)
    ensures
        old(dispatcher)@.dispatch_target() is None ==> final(dispatcher)@ == old(dispatcher)@,
        old(dispatcher)@.dispatch_target() matches Some(handler) ==> exists|
            left: DispatcherView<H, K>,
        |
            #[trigger] handler.effect(old(dispatcher)@.suppressed(), current_count, left)
                && final(dispatcher)@ == left.rearmed(),
{
    proof {
        use_type_invariant(&*dispatcher);
    }
    match dispatcher.active_hook {
        ActiveHook::NoOp => {},
        ActiveHook::Dispatch => {
            dispatcher.active_hook = ActiveHook::NoOp;
            match dispatcher.handler {
                Some(handler) => {
                    handler.handle(dispatcher, current_count);
                },
                None => {},
            }
            proof {
                use_type_invariant(&*dispatcher);
            }
            dispatcher.active_hook = ActiveHook::Dispatch;
        },
    }
}

/// Switches the probe instrumentation on. Nothing is attached to it yet.
pub fn instr_enable() {
}

/// Switches the probe instrumentation off. Nothing is attached to it yet.
pub fn instr_disable() {
}

} // verus!
