//! An HTTP endpoint that serves CPU and heap profiles of the running process
//! on demand, admitting a bounded number of connections and serving them one
//! at a time.
pub mod admission;
pub mod config;
pub mod cpu;
pub mod handler;
pub mod heap;
pub mod params;
pub mod routing;

pub use config::Config;
