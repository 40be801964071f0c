//! The decisions of an iOS event loop.
//!
//! The library holds the state of the event loop and decides what is to be done with the main run
//! loop and the application; it does none of that itself. Whoever calls it performs what it returns
//! and hands the outcome back.

pub mod app_state;
pub mod channel;
pub mod control_flow;
pub mod display;
pub mod event;
pub mod event_loop;
pub mod handler;
pub mod launch;
pub mod proxy;
pub mod run_loop;
pub mod time;
pub mod window_target;
