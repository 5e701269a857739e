//! A single-slot job launcher for the `mkarchqemu` image builder.
//!
//! The crate holds the job engine: the build parameters, the lifecycle status
//! and the captured output of the latest run, together with the rules by which
//! they change. Starting the build process and waiting for it are left to the
//! caller, who reports back what happened.

pub mod config;
pub mod lifecycle;
pub mod mkarchqemu;
pub mod output;
pub mod params;
pub mod status;

pub use config::Config;
pub use mkarchqemu::{EngineView, Launch, LaunchView, MkArchQemu, PROGRAM};
pub use params::{MkArchQemuParams, ParamsView};
pub use status::{JobStatus, StatusView};
