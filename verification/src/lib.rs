//! Desktop-context sampling: the lifecycle of polling sessions, the worker
//! cadence, and the conversation with the windowing server that finds the
//! focused window's title and owning application.

pub mod channel;
pub mod clock;
pub mod config;
pub mod registry;
pub mod sampler;
pub mod text;
pub mod wm_class;
pub mod worker;
pub mod x11;

pub use config::{ConfigValue, SessionConfig, SessionError};
pub use registry::{attach_worker, poll_state, retire_session, start_session, stop_session, Registry};
pub use sampler::{OsContextState, Probe, StubSampler};
pub use worker::{Worker, WorkerAction, WorkerEvent};
pub use x11::X11Sampler;
