pub mod backup;
pub mod clock;
pub mod config;
pub mod device_config;
pub mod disk;
pub mod error;
pub mod file_sync;
pub mod laws;
mod machine;
pub mod model;
pub mod protocol;
pub mod registry;
pub mod runner;
pub mod stores;
pub mod task;
pub mod text;
pub mod twice;
pub mod util;

pub use config::Config;
