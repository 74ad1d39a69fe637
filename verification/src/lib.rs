//! Control-plane bridge between a host application and a long-running proxy
//! engine: request construction and reply decoding for the engine's control
//! socket, derivation of the engine configuration from a host override, and
//! the decisions of the runtime bridge.
//!
//! The library performs no I/O. It says what to send and what an answer
//! means, and leaves the sending, the threads and the files to its caller.

pub mod cidr;
pub mod config;
pub mod controller;
pub mod error;
pub mod json;
pub mod log;
pub mod records;
pub mod runtime;
pub mod table;
pub mod text;
pub mod transport;
pub mod url;
pub mod util;

pub use config::ProfileOverride;
pub use controller::{ClashController, HttpError};
pub use error::FfiError;
pub use log::init_logger;
pub use runtime::{setup_tokio, SocketProtector};
pub use util::{download_config, DownloadResult};
