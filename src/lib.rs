//! A minimal container runtime: image references, registry resolution,
//! cgroup confinement and the lifecycle of a confined command.
pub mod arch;
pub mod cgroup;
pub mod image;
pub mod pull;
pub mod registry;
pub mod run;
pub mod text;
