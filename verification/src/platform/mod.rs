pub mod laws;
pub mod macos;
pub mod tracker;
pub mod windows;
