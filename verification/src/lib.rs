//! The verified core of a clipboard-history manager: the history list, its
//! active entry, the user's preference, and the view models the UI renders.
pub mod models;

pub mod actions;
pub mod views;
pub mod utils;
pub mod repositories;
pub mod libs;
pub mod result;
pub mod platform;
