//! Verified core of a keyboard-driven terminal dashboard for containers,
//! host metrics and network diagnostics.

pub mod view;
pub mod text;
pub mod number;
pub mod network;
pub mod textbuf;
pub mod container;
pub mod metrics;
pub mod config;
pub mod app;
pub mod app_laws;
pub mod ansi;
pub mod input;
pub mod ui;
