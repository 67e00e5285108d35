use vstd::prelude::*;

verus! {

/// The Wayland clipboard, written through `wl-copy`.
pub struct WlCopyClipboard;

impl WlCopyClipboard {
    /// The Wayland clipboard.
    pub fn new() -> Self {
        WlCopyClipboard
    }
}

} // verus!
