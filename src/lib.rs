//! Isolated execution environments for exercising a command-line program:
//! a fluent builder that collects arguments, a working-directory override and
//! stream flags, and a finalization step that roots everything in a sandbox
//! directory and wires two capture sinks.
pub mod builder;
pub mod capture;
pub mod environment;
mod external;
pub mod laws;
pub mod sandbox_path;

pub use builder::{BuildError, TestEnvBuilder};
pub use capture::{Capture, OutputStream};
pub use environment::{Env, TestEnv};
pub use sandbox_path::{join_onto, path_escapes, resolve_working_dir};
