//! Wallpaper-rotation core: monitor discovery policy, compositor status
//! payload parsing, renderer process supervision, and the rotation
//! scheduler, as pure decision logic with verified contracts.
//!
//! All I/O (compositor IPC, process spawning, timers, signals) is performed
//! by the surrounding binary, which feeds results back into these state
//! machines as plain values.

pub mod config;
pub mod monitors;
pub mod payload;
pub mod render;
pub mod scheduler;
pub mod session;
pub mod supervise;
pub mod text;
pub mod wallpaper;
