//! Result and error data model for container-network plugins.
//!
//! The library holds the error-code taxonomy, the structured plugin error,
//! the unified failure type, one result schema per supported protocol
//! version, and the version-dispatch and migration logic that ties the
//! schemas together.

pub mod api;
pub mod decimal;
pub mod error;
pub mod result031;
pub mod result040;
pub mod result100;
pub mod result110;
pub mod types;

pub use api::{dispatch_version, APIResult, CniVersion};
pub use error::{CNIError, PluginError, PluginErrorCode};
