//! Everyday helpers: string trimming, console input decisions, command-output
//! parsing for a VPN client, line batching, date parsing and small random text.

pub mod ai;
pub mod app;
pub mod date;
pub mod error;
pub mod file;
pub mod input;
pub mod io;
pub mod log;
pub mod path;
pub mod random;
pub mod string;
pub mod text;
pub mod threading;
pub mod vpn;
pub mod web;

pub use app::AppInfo;
pub use threading::CallbackHandler;
