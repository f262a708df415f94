//! Launcher for the Spectra language server inside the Zed editor: where to
//! find the server binary, how to start it, and what to send it at startup.

pub mod launch;

pub use launch::{command_for, language_server_command, SERVER_BINARY, STDIO_FLAG};
pub mod init_options;

pub use init_options::{
    language_server_initialization_options, DiagnosticsOptions, InitializationOptions,
    ValidationOptions,
};
