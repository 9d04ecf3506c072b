//! What a dispatcher delivers to: the handler trait, and the adapter that makes
//! a handler out of a plain function of the instruction count.

use vstd::prelude::*;
use crate::dispatcher::Dispatcher;
use crate::model::DispatcherView;

verus! {

/// A handler that a dispatcher can deliver to.
///
/// The handler is handed the dispatcher that runs it, so it can call
/// `disable`, `enable`, `deregister`, or even `dispatch` again. It is entered
/// with delivery suppressed: a dispatch from inside the handler has no effect,
/// unless the handler has armed delivery itself.
pub trait InterruptHandler<K: Fn()>: Copy {
    /// What one run of the handler may do to the dispatcher: `before` is the
    /// state it is handed, `after` the state it leaves. A handler that says
    /// nothing of itself may do anything.
    open spec fn effect(
        self,
        before: DispatcherView<Self, K>,
        count: i64,
        after: DispatcherView<Self, K>,
    ) -> bool {
        true
    }

    /// Runs the handler on the instruction count `count`.
    fn handle(self, dispatcher: &mut Dispatcher<Self, K>, count: i64)
        requires
            old(dispatcher)@.active_hook is NoOp,
        ensures
            self.effect(old(dispatcher)@, count, final(dispatcher)@),
    ;
}

/// A function that does nothing with the count: the handler of a dispatcher
/// that has none of its own.
pub fn dummy(_count: i64) {
}

/// A handler made of a function of the instruction count alone, such as
/// `dummy`. It never touches the dispatcher.
pub struct FnHandler<F: Fn(i64)> {
    function: F,
}

impl<F: Fn(i64) + Copy> Clone for FnHandler<F> {
    fn clone(&self) -> (copy: Self)
        ensures
            copy == *self,
    {
        *self
    }
}

impl<F: Fn(i64) + Copy> Copy for FnHandler<F> {

}

impl<F: Fn(i64)> FnHandler<F> {
    #[verifier::type_invariant]
    spec fn accepts_every_count(self) -> bool {
        forall|count: i64| call_requires(self.function, (count,))
    }

    /// The function that the handler runs.
    pub closed spec fn function(self) -> F {
        self.function
    }

    /// The handler that runs `function`, which must take any count.
    pub fn new(function: F) -> (handler: Self)
        requires
            forall|count: i64| call_requires(function, (count,)),
        ensures
            handler.function() == function,
    {
        FnHandler { function }
    }
}

impl<F: Fn(i64) + Copy, K: Fn()> InterruptHandler<K> for FnHandler<F> {
    /// The function has run on `count`, and the dispatcher is as it was.
    open spec fn effect(
        self,
        before: DispatcherView<Self, K>,
        count: i64,
        after: DispatcherView<Self, K>,
    ) -> bool {
        &&& after == before
        &&& call_ensures(self.function(), (count,), ())
    }

    fn handle(self, dispatcher: &mut Dispatcher<Self, K>, count: i64) {
        proof {
            use_type_invariant(&self);
        }
        (self.function)(count);
    }
}

} // verus!
