//! Core logic of a lightweight system status monitor: configuration and its
//! sanitisation, network speed sampling, GPU readings, metric text and the
//! decisions behind the tray tooltip and the floating bar.

pub mod config;
pub mod float_bits;
pub mod floating_bar;
pub mod gpu;
pub mod identity;
pub mod logger;
pub mod network_speed;
pub mod platform;
pub mod schedule;
pub mod system_metrics;
pub mod text;
pub mod tray;
