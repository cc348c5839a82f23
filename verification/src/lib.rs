//! Launch planning for the Miden language server and the Miden debug adapter
//! in the Zed editor: the language-server command, the debug configuration
//! that a user writes, and the command line of the stdio proxy that bridges
//! Zed and the TCP debug adapter.

pub mod decimal;
pub mod text;
pub mod ipv4;
pub mod proxy;
pub mod json;
pub mod config;
pub mod extension;
pub mod dap;
