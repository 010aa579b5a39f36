//! A minimal plugin host: a handler contract, an embedded handler, a
//! one-shot ownership carrier for handlers built elsewhere, and a host that
//! drives a handler through init, work and teardown.

pub mod carrier;
pub mod error;
pub mod handler;
pub mod host;

pub use error::PluginError;
pub use carrier::{HandlerWrapper, create_handler};
pub use handler::{Handler, SomeHandler};
pub use host::{App, HandlerCall};
