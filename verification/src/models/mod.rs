pub mod clipboard;
pub mod preference;
pub mod application;
