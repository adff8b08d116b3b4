//! The update dispatching core: filters decide, in registration order, which
//! handler receives an update.

pub mod backoff;
pub mod dispatch;
pub mod filter;
pub mod handler;
pub mod laws;
pub mod registry;
pub mod report;
pub mod update;
pub mod updater;

pub use backoff::BackoffPolicy;
pub use dispatch::{Dispatched, Dispatcher};
pub use filter::Filter;
pub use handler::{Handler, HandlerError};
pub use registry::{Binding, RegistrationClosed, Registry};
pub use report::{Event, RetrievalError, StopReason};
pub use update::Update;
pub use updater::{
    Action, Batch, Config, Notice, Phase, Round, StartError, State, Updater, UpdaterView,
};
