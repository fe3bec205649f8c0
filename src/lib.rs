//! Volume-button bridge: a uniform command surface over a desktop stub and a
//! mobile backend that talks to a native plugin and republishes its events.
pub mod backend;
pub mod commands;
pub mod desktop;
pub mod error;
pub mod mobile;
pub mod models;
pub mod native;

pub use backend::{Backend, Step};
pub use error::{Error, InvokeError, Result};
pub use models::{ButtonEvent, ButtonType, PingRequest, PingResponse};
