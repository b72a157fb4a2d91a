//! Protocol and state logic for laptop matrix displays, keyboard lighting
//! and fan curves: pixel buffers and their USB packets, lighting effect
//! messages, animation scheduling decisions and per-policy fan curve storage.

pub mod anime;
pub mod anime_config;
pub mod aura;
pub mod aura_detection;
pub mod aura_power;
pub mod aura_text;
pub mod config;
pub mod error;
pub mod fan_attr;
pub mod fan_curve_set;
pub mod fan_text;
pub mod platform;
pub mod profiles;
pub mod scheduler;
pub mod sequence;
pub mod service;
pub mod text;
