//! Plain input and view descriptors shared with the windowing layer.
//! The windowing layer itself (event loop, GL context) lives outside the
//! library and hands these values in.

use vstd::prelude::*;

verus! {

/// A pressed or released key, reduced to what the demo layer reacts to.
#[derive(Clone, Copy, Debug, PartialEq, Eq, Structural)]
pub enum Keycode {
    /// A letter or digit key, as its ASCII byte.
    Alphanumeric(u8),
    Escape,
    Tab,
}

/// Which eye a frame is rendered for: a single monoscopic view, or one
/// eye of a stereo pair.
#[derive(Clone, Copy, Debug, PartialEq, Eq, Structural)]
pub enum View {
    Mono,
    Stereo(u32),
}

} // verus!
