//! The compiler driver.
//!
//! - [`args`]: the options of a build, and how they follow from the command
//!   line.
//! - [`banner`]: the banner and the usage text.
//! - [`env`]: the two directories that a build needs.
//! - [`io`]: what the file system is asked.
//! - [`process`]: the commands that a build runs.
//! - [`driver`]: the course of a build, from the first lookup to the exit.
//! - [`laws`]: what holds of every build.

pub mod args;
pub mod banner;
pub mod driver;
pub mod env;
pub mod io;
pub mod laws;
pub mod process;
