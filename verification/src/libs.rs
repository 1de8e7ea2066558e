//! Services the platform layer provides.
use vstd::prelude::*;

verus! {

/// Sends the paste keystroke to the application that had the focus.
pub trait IClipboardPaster: Send + Sync + 'static {
    fn paste(&self);
}

/// Lets the application take the focus, or give it back.
pub trait IAppActivator: Send + Sync + 'static {
    fn enable_active(&self);

    fn disable_active(&self);
}

/// The system clipboard.
pub trait IClipboard: Send + Sync + 'static {
    fn text(&self) -> Option<String>;

    fn image(&self) -> Option<(usize, usize, Vec<u8>)>;

    fn write_text(&self, text: String);

    fn write_image(&self, width: usize, height: usize, bytes: &[u8]);
}

/// Marker for the platform's activator implementation.
#[derive(Debug, Clone, Copy)]
pub struct AppActivatorImpl;

/// A change of a registered resource the UI must apply: new contents, or removal when absent.
#[derive(Debug, Clone)]
pub struct ResourceChange {
    pub id: u64,
    pub buf: Option<Vec<u8>>,
}

} // verus!
