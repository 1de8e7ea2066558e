pub mod clipboard_changed;
pub mod preference;
pub mod keyboard;
pub mod window;
pub mod history_laws;
