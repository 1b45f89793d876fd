//! Lifecycle management for a versioned VSCode server backend.
//!
//! The library holds the rules of the lifecycle: which platform is served,
//! how a release is resolved into a download location, how a fetched archive
//! becomes an installed directory, and which transitions a managed server
//! process may take. Every rule is stated as a contract and proved.
//!
//! The library performs no input or output of its own. Each operation that
//! needs the network, the file system or a process is a function from what
//! the caller reports to what the caller is to do next: the caller begins
//! with the operation's `Begin` event, performs the step it is handed, and
//! reports the outcome as the next event, until the step is `Done`.

pub mod config;
pub mod download;
pub mod error;
pub mod json;
pub mod manager;
pub mod platform;
pub mod tauri;
pub mod text;
pub mod version;

pub use config::{ServerConfig, ServerInfo, TauriConfig};
pub use download::download_server;
pub use error::ServerError;
pub use manager::VscodeServerManager;
pub use platform::Platform;
pub use tauri::TauriVscodeServer;
pub use version::detect_version;
