//! The runtime side of compiler-driven interrupts: a per-thread dispatcher
//! that decides, each time the instrumentation fires, whether the registered
//! handler runs, and that lets user code suspend delivery in nested regions.

pub mod dispatcher;
pub mod handler;
pub mod intervals;
pub mod laws;
pub mod model;
pub mod tracker;

pub use dispatcher::{
    deregister, deregister_disable_hook, deregister_enable_hook, disable, dispatch, enable,
    instr_disable, instr_enable, register, register_disable_hook, register_enable_hook, Dispatcher,
};
pub use handler::{dummy, FnHandler, InterruptHandler};
pub use intervals::{LARGE_INTERVAL, SMALL_INTERVAL};
pub use model::ActiveHook;
pub use tracker::{IntervalTracker, NegativeInterval};
