//! The application packager.

pub mod banner;
