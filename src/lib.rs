//! Process-driven power profile switching: configuration validation, rule
//! evaluation and the control loop's pause state machine.

pub mod config;
pub mod daemon;
pub mod power;
pub mod process;
pub mod profile;
pub mod rules;
pub mod state;
pub mod watcher;

pub use profile::validate_default_profile;
pub use config::{Config, ConfigSection, Rule};
pub use state::DaemonState;
