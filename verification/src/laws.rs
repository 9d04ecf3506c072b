//! What holds of every dispatcher, proved over the model.

use vstd::prelude::*;
use crate::handler::{FnHandler, InterruptHandler};
use crate::intervals::{half, lemma_wrap_i32, nine_tenths, LARGE_INTERVAL, SMALL_INTERVAL};
use crate::model::{ActiveHook, Control, DispatcherView};

verus! {

/// `n` calls of `disable` add `n` to the disable depth and, from the first
/// on, leave delivery suppressed. Nothing else changes.
pub proof fn lemma_disables<H, K>(s: DispatcherView<H, K>, n: nat)
    ensures
        s.after_disables(n) == (DispatcherView {
            active_hook: if n > 0 {
                ActiveHook::NoOp
            } else {
                s.active_hook
            },
            disable_depth: s.disable_depth + n,
            ..s
        }),
    decreases n,
{
    if n > 0 {
        lemma_disables(s, (n - 1) as nat);
    }
}

/// `n` calls of `enable` take `n` off the disable depth, but never below
/// zero, and arm delivery as soon as one of them finds the depth at one or at
/// zero. Nothing else changes.
pub proof fn lemma_enables<H, K>(s: DispatcherView<H, K>, n: nat)
    ensures
        s.after_enables(n) == (DispatcherView {
            active_hook: if n > 0 && s.disable_depth <= n {
                ActiveHook::Dispatch
            } else {
                s.active_hook
            },
            disable_depth: if s.disable_depth >= n {
                (s.disable_depth - n) as nat
            } else {
                0
            },
            ..s
        }),
    decreases n,
{
    if n > 0 {
        lemma_enables(s, (n - 1) as nat);
    }
}

/// Nesting: after `n` calls of `disable`, delivery stays suppressed through
/// the first `n - 1` calls of `enable`; the `n`-th brings the disable depth
/// back to where it started, and arms delivery if that is zero. Nothing else
/// has changed by then.
pub proof fn lemma_nested_disable_enable<H, K>(s: DispatcherView<H, K>, n: nat, k: nat)
    requires
        1 <= k <= n,
    ensures
        s.after_disables(k).active_hook is NoOp,
        s.after_disables(k).disable_depth == s.disable_depth + k,
        k < n ==> s.after_disables(n).after_enables(k).active_hook is NoOp,
        s.after_disables(n).after_enables(k).disable_depth == s.disable_depth + n - k,
        s.disable_depth == 0 ==> s.after_disables(n).after_enables(n) == s.rearmed(),
        s.disable_depth > 0 ==> s.after_disables(n).after_enables(n) == s.suppressed(),
{
    lemma_disables(s, k);
    lemma_disables(s, n);
    lemma_enables(s.after_disables(n), k);
    lemma_enables(s.after_disables(n), n);
}

/// The disable depth cannot go below zero: `enable` at depth zero leaves it
/// at zero, and only arms delivery.
pub proof fn lemma_enable_at_zero_depth<H, K>(s: DispatcherView<H, K>)
    requires
        s.disable_depth == 0,
    ensures
        s.after_enable().disable_depth == 0,
        s.after_enable() == s.rearmed(),
{
}

/// After `register`, both thresholds agree with the intervals just given,
/// delivery is armed, and the disable depth is what it was, even if calls of
/// `disable` are outstanding. The local counter has grown by the interval
/// that was replaced, unless that sum is out of the range of `i32`.
pub proof fn lemma_register<H, K>(
    s: DispatcherView<H, K>,
    ir_interval: int,
    cycles_interval: int,
    handler: H,
)
    ensures
        ({
            let r = s.after_register(ir_interval, cycles_interval, handler);
            &&& r.ir_interval == ir_interval
            &&& r.reset_ir_interval() == half(ir_interval)
            &&& r.cycles_interval == cycles_interval
            &&& r.cycles_threshold() == nine_tenths(cycles_interval)
            &&& r.dispatch_target() == Some(handler)
            &&& r.disable_depth == s.disable_depth
            &&& i32::MIN <= r.local_counter <= i32::MAX
            &&& i32::MIN <= s.local_counter + s.ir_interval <= i32::MAX ==> r.local_counter
                == s.local_counter + s.ir_interval
        }),
{
    lemma_wrap_i32(s.local_counter + s.ir_interval);
}

/// `deregister` leads to the default intervals with their thresholds, and a
/// second call changes nothing more.
pub proof fn lemma_deregister<H, K>(s: DispatcherView<H, K>)
    ensures
        s.after_deregister().ir_interval == LARGE_INTERVAL,
        s.after_deregister().reset_ir_interval() == LARGE_INTERVAL / 2,
        s.after_deregister().cycles_interval == SMALL_INTERVAL,
        s.after_deregister().cycles_threshold() == 9 * SMALL_INTERVAL / 10,
        s.after_deregister().disable_depth == s.disable_depth,
        s.after_deregister().after_deregister() == s.after_deregister(),
{
}

/// After `deregister`, no dispatch runs a handler, whatever is called in
/// between, until the next `register`: a dispatch finds either delivery
/// suppressed or no handler to run.
pub proof fn lemma_deregistered_runs_nothing<H, K>(
    s: DispatcherView<H, K>,
    ops: Seq<Control<H, K>>,
)
    requires
        forall|i: int| 0 <= i < ops.len() ==> !(#[trigger] ops[i] is Register),
    ensures
        s.after_deregister().after_all(ops).handler is None,
        s.after_deregister().after_all(ops).dispatch_target() is None,
    decreases ops.len(),
{
    if ops.len() > 0 {
        let earlier = ops.drop_last();
        assert forall|i: int| 0 <= i < earlier.len() implies !(#[trigger] earlier[i] is Register) by {
            assert(earlier[i] == ops[i]);
        }
        lemma_deregistered_runs_nothing(s, earlier);
        assert(!(ops[ops.len() - 1] is Register));
    }
}

/// While a handler runs, delivery is suppressed, so a dispatch from inside it
/// runs no handler.
pub proof fn lemma_dispatch_does_not_nest<H, K>(s: DispatcherView<H, K>)
    ensures
        s.suppressed().dispatch_target() is None,
        s.dispatch_target() is Some ==> s.armed(),
{
}

/// A dispatch to a handler made of a plain function runs that function on the
/// count, and leaves the dispatcher exactly as it was.
pub proof fn lemma_dispatch_to_function<F: Fn(i64) + Copy, K: Fn()>(
    s: DispatcherView<FnHandler<F>, K>,
    handler: FnHandler<F>,
    count: i64,
    left: DispatcherView<FnHandler<F>, K>,
)
    requires
        s.dispatch_target() == Some(handler),
        handler.effect(s.suppressed(), count, left),
    ensures
        left.rearmed() == s,
        call_ensures(handler.function(), (count,), ()),
{
}

/// Delivery is armed again when a handler returns. The state is consistent
/// then if and only if the handler has left no call of `disable` outstanding.
pub proof fn lemma_rearmed_after_handler<H, K>(left: DispatcherView<H, K>)
    ensures
        left.rearmed().armed(),
        left.rearmed().consistent() <==> left.disable_depth == 0,
{
}

/// Outstanding calls of `disable` keep delivery suppressed: every operation
/// keeps a consistent state consistent, except `register` while the disable
/// depth is above zero.
pub proof fn lemma_consistency_kept<H, K>(s: DispatcherView<H, K>, op: Control<H, K>)
    requires
        s.consistent(),
        op is Register ==> s.disable_depth == 0,
    ensures
        s.after(op).consistent(),
        DispatcherView::<H, K>::idle().consistent(),
{
}

/// In a consistent state a dispatch runs a handler only at depth zero.
pub proof fn lemma_no_delivery_while_disabled<H, K>(s: DispatcherView<H, K>)
    requires
        s.consistent(),
        s.disable_depth > 0,
    ensures
        s.dispatch_target() is None,
{
}

} // verus!
