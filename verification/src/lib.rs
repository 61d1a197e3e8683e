//! Decision and formatting logic of a macOS service that watches for newly
//! mounted volumes and scans them with ClamAV.

pub mod text;
pub mod audit;
pub mod timestamp;
pub mod history;
pub mod config;
pub mod scanner;
pub mod guard;
pub mod service;
pub mod notifications;
pub mod utils;
pub mod tray;
pub mod laws;
