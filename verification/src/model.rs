//! The mathematical model of a dispatcher: its state as plain values, and each
//! operation as a function from state to state.

use vstd::prelude::*;
use crate::intervals::{half, nine_tenths, wrap_i32, LARGE_INTERVAL, SMALL_INTERVAL};

verus! {

/// Which function the instrumentation reaches when it fires.
#[derive(Clone, Copy, Debug, PartialEq, Eq, Structural)]
pub enum ActiveHook {
    /// Delivery is suppressed: firing has no effect.
    NoOp,
    /// Delivery is armed: firing runs the registered handler.
    Dispatch,
}

/// The state of one thread's dispatcher. `H` is the type of the handler, `K`
/// that of the enable and disable hooks.
pub ghost struct DispatcherView<H, K> {
    pub active_hook: ActiveHook,
    pub handler: Option<H>,
    pub enable_hook: Option<K>,
    pub disable_hook: Option<K>,
    pub ir_interval: int,
    pub cycles_interval: int,
    pub local_counter: int,
    pub disable_depth: nat,
    pub next_interval: int,
}

/// An operation by which user code controls a dispatcher.
pub ghost enum Control<H, K> {
    Register { ir_interval: int, cycles_interval: int, handler: H },
    Deregister,
    Enable,
    Disable,
    RegisterEnableHook { hook: K },
    DeregisterEnableHook,
    RegisterDisableHook { hook: K },
    DeregisterDisableHook,
}

impl<H, K> DispatcherView<H, K> {
    /// The state in which a thread starts: nothing registered, default
    /// intervals, all counters zero, delivery not armed.
    pub open spec fn idle() -> Self {
        DispatcherView {
            active_hook: ActiveHook::NoOp,
            handler: None,
            enable_hook: None,
            disable_hook: None,
            ir_interval: LARGE_INTERVAL as int,
            cycles_interval: SMALL_INTERVAL as int,
            local_counter: 0,
            disable_depth: 0,
            next_interval: 0,
        }
    }

    /// The instruction count below which the instrumentation resets early:
    /// always half the instruction-count interval.
    pub open spec fn reset_ir_interval(self) -> int {
        half(self.ir_interval)
    }

    /// The cycle count below which the instrumentation resets early: always
    /// nine tenths of the cycle-count interval.
    pub open spec fn cycles_threshold(self) -> int {
        nine_tenths(self.cycles_interval)
    }

    /// Delivery is armed.
    pub open spec fn armed(self) -> bool {
        self.active_hook is Dispatch
    }

    /// No outstanding `disable` goes together with armed delivery.
    pub open spec fn consistent(self) -> bool {
        self.disable_depth > 0 ==> self.active_hook is NoOp
    }

    /// The state after `register`: the previous instruction-count interval is
    /// added to the local counter, both intervals and the handler are
    /// replaced, and delivery is armed whatever the disable depth is.
    pub open spec fn after_register(self, ir_interval: int, cycles_interval: int, handler: H) -> Self {
        DispatcherView {
            active_hook: ActiveHook::Dispatch,
            handler: Some(handler),
            ir_interval,
            cycles_interval,
            local_counter: wrap_i32(self.local_counter + self.ir_interval),
            ..self
        }
    }

    /// The state after `deregister`: default intervals, no handler, delivery
    /// not armed. Hooks, counters and the disable depth stay.
    pub open spec fn after_deregister(self) -> Self {
        DispatcherView {
            active_hook: ActiveHook::NoOp,
            handler: None,
            ir_interval: LARGE_INTERVAL as int,
            cycles_interval: SMALL_INTERVAL as int,
            ..self
        }
    }

    /// The state after `disable`: delivery is suppressed and one more
    /// `enable` is owed.
    pub open spec fn after_disable(self) -> Self {
        DispatcherView { active_hook: ActiveHook::NoOp, disable_depth: self.disable_depth + 1, ..self }
    }

    /// The state after `enable`: one `disable` fewer is outstanding, and
    /// delivery is armed once none is.
    pub open spec fn after_enable(self) -> Self {
        let depth: nat = if self.disable_depth > 0 {
            (self.disable_depth - 1) as nat
        } else {
            0
        };
        DispatcherView {
            active_hook: if depth == 0 {
                ActiveHook::Dispatch
            } else {
                self.active_hook
            },
            disable_depth: depth,
            ..self
        }
    }

    /// The state with the enable hook replaced.
    pub open spec fn with_enable_hook(self, hook: Option<K>) -> Self {
        DispatcherView { enable_hook: hook, ..self }
    }

    /// The state with the disable hook replaced.
    pub open spec fn with_disable_hook(self, hook: Option<K>) -> Self {
        DispatcherView { disable_hook: hook, ..self }
    }

    /// The state that a handler is handed: as before the dispatch, with
    /// delivery suppressed.
    pub open spec fn suppressed(self) -> Self {
        DispatcherView { active_hook: ActiveHook::NoOp, ..self }
    }

    /// The state after a handler has returned: as the handler left it, with
    /// delivery armed.
    pub open spec fn rearmed(self) -> Self {
        DispatcherView { active_hook: ActiveHook::Dispatch, ..self }
    }

    /// The handler that a dispatch in this state runs: the registered one
    /// where delivery is armed, none where it is suppressed.
    pub open spec fn dispatch_target(self) -> Option<H> {
        if self.active_hook is Dispatch {
            self.handler
        } else {
            None
        }
    }

    /// The state after the operation `op`.
    pub open spec fn after(self, op: Control<H, K>) -> Self {
        match op {
            Control::Register { ir_interval, cycles_interval, handler } => self.after_register(
                ir_interval,
                cycles_interval,
                handler,
            ),
            Control::Deregister => self.after_deregister(),
            Control::Enable => self.after_enable(),
            Control::Disable => self.after_disable(),
            Control::RegisterEnableHook { hook } => self.with_enable_hook(Some(hook)),
            Control::DeregisterEnableHook => self.with_enable_hook(None),
            Control::RegisterDisableHook { hook } => self.with_disable_hook(Some(hook)),
            Control::DeregisterDisableHook => self.with_disable_hook(None),
        }
    }

    /// The state after the operations `ops`, the first of them first.
    pub open spec fn after_all(self, ops: Seq<Control<H, K>>) -> Self
        decreases ops.len(),
    {
        if ops.len() == 0 {
            self
        } else {
            self.after_all(ops.drop_last()).after(ops.last())
        }
    }

    /// The state after `n` calls of `disable`.
    pub open spec fn after_disables(self, n: nat) -> Self
        decreases n,
    {
        if n == 0 {
            self
        } else {
            self.after_disables((n - 1) as nat).after_disable()
        }
    }

    /// The state after `n` calls of `enable`.
    pub open spec fn after_enables(self, n: nat) -> Self
        decreases n,
    {
        if n == 0 {
            self
        } else {
            self.after_enables((n - 1) as nat).after_enable()
        }
    }
}

} // verus!
