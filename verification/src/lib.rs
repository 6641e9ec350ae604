//! The decisions of the Rishka command-line tools, kept apart from the
//! terminal, the environment, the file system and the child processes they
//! work with.
//!
//! Nothing in this crate performs input or output. A caller reads the
//! environment, starts the processes and prints; the crate says what to ask
//! for next, what to print and how every answer is to be understood.
//!
//! - [`text`]: styled pieces of terminal text, which every message is made of.
//! - [`cc`]: the compiler driver, which builds a raw binary image from C++
//!   sources.
//! - [`arc`]: the application packager, of which there is only the usage text.

pub mod arc;
pub mod cc;
pub mod text;
