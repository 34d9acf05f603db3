//! Platform-specific well-known directories, computed from the values
//! the caller reads from the environment.

pub mod macos;
pub mod windows;
