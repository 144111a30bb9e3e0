//! A small facade around an SVG rasterizer: a keyed cache of parsed
//! scenes, a viewport/target state machine, and the aspect-preserving
//! camera transform that centers a scene's view box in a viewport.

use vstd::prelude::*;

pub mod cache;
pub mod fit;
pub mod session;
pub mod svg;
pub mod window;

verus! {

/// Errors that loading, configuring, or drawing a scene can report.
#[derive(Debug, PartialEq, Eq)]
pub enum SvgError {
    /// The reserved scene key (zero) was passed to `load_svg` or
    /// `select_scene`.
    InvalidKey,
    /// The SVG bytes could not be parsed; the detail is the parser's
    /// own message, surfaced verbatim.
    ParseError(String),
    /// The scene's view box has a zero-sized dimension, so no fit
    /// transform exists.
    DegenerateViewBox,
    /// The viewport has a zero-sized dimension, so no fit transform
    /// exists.
    DegenerateViewport,
    /// `select_scene` named a key that no scene is loaded under.
    NotLoaded,
    /// `draw_once` was called before the target, the viewport size, and
    /// the active scene had all been resolved.
    NotReady,
    /// The external GPU device failed while a frame was being
    /// submitted; not recoverable here.
    RenderError,
}

} // verus!
