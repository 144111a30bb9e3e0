//! The render session: the facade that sequences target, viewport, and
//! scene configuration and plans each frame.
//!
//! A frame can be drawn once a render target is set and a loaded scene is
//! selected; the viewport size may be given explicitly or fall back to
//! the selected scene's natural size. `draw_once` checks those
//! prerequisites and hands back a [`FramePlan`]: the framebuffer, the
//! viewport rectangle to clear (and nothing outside it), the clear color,
//! and the exact fit transform. The GPU layer that executes the plan
//! lives outside the library.

use vstd::prelude::*;

use crate::cache::{SceneCache, SceneEntry, SceneModel, spec_load, spec_unload};
use crate::fit::{fit_ok, fit_transform, spec_fit, FitTransform};
use crate::SvgError;

verus! {

/// RGBA clear color; each channel is an 8-bit value mapping onto the
/// unit interval (0 is 0.0, 255 is 1.0).
#[derive(Clone, Copy, Debug, PartialEq, Eq, Structural)]
pub struct ClearColor {
    pub r: u8,
    pub g: u8,
    pub b: u8,
    pub a: u8,
}

/// Where pixels land: a framebuffer (0 is the default/window surface)
/// and its size in pixels.
#[derive(Clone, Copy, Debug, PartialEq, Eq, Structural)]
pub struct RenderTarget {
    pub fbo_id: u32,
    pub width: u32,
    pub height: u32,
}

/// Everything one frame needs from the session: bind `fbo_id`, clear
/// exactly the viewport rectangle to `clear_color`, then submit the
/// active scene under `transform`.
#[derive(Clone, Copy, Debug, PartialEq, Eq, Structural)]
pub struct FramePlan {
    pub fbo_id: u32,
    pub viewport_x: i32,
    pub viewport_y: i32,
    pub viewport_w: u32,
    pub viewport_h: u32,
    pub clear_color: ClearColor,
    pub transform: FitTransform,
}

/// The session's abstract state: the loaded scenes and the configuration
/// the next frame will be planned from.
pub struct SessionModel {
    pub scenes: Map<u64, SceneModel>,
    pub clear_color: ClearColor,
    pub target: Option<RenderTarget>,
    pub viewport_offset: (i32, i32),
    pub viewport_size: Option<(u32, u32)>,
    pub active: u64,
}

/// The scene the session would draw: the one filed under the selected
/// key, if any is.
pub open spec fn active_scene(s: SessionModel) -> Option<SceneModel> {
    if s.scenes.contains_key(s.active) {
        Some(s.scenes[s.active])
    } else {
        None
    }
}

/// The viewport size a frame would use: the explicitly set size if one
/// was given, else the active scene's natural size, else nothing.
pub open spec fn resolved_size(s: SessionModel) -> Option<(u32, u32)> {
    if s.viewport_size is Some {
        s.viewport_size
    } else {
        match active_scene(s) {
            Some(m) => Some((m.nat_width, m.nat_height)),
            None => None,
        }
    }
}

/// A frame can be planned: a target is set and a loaded scene is
/// selected (which also resolves the viewport size).
pub open spec fn session_ready(s: SessionModel) -> bool {
    s.target is Some && active_scene(s) is Some
}

/// The plan `draw_once` hands back when the session is ready and the
/// geometry is non-degenerate.
pub open spec fn spec_frame_plan(s: SessionModel) -> FramePlan {
    let vb = active_scene(s).unwrap().view_box;
    let size = resolved_size(s).unwrap();
    FramePlan {
        fbo_id: s.target.unwrap().fbo_id,
        viewport_x: s.viewport_offset.0,
        viewport_y: s.viewport_offset.1,
        viewport_w: size.0,
        viewport_h: size.1,
        clear_color: s.clear_color,
        transform: spec_fit(vb, size.0, size.1),
    }
}

/// Drives one scene at a time onto a render target: owns the scene
/// cache, the clear color, the target and viewport configuration, and
/// the selected scene key (zero while none is selected).
pub struct SvgRenderer {
    cache: SceneCache,
    clear_color: ClearColor,
    target: Option<RenderTarget>,
    viewport_offset: (i32, i32),
    viewport_size: Option<(u32, u32)>,
    active: u64,
}

impl View for SvgRenderer {
    type V = SessionModel;

    closed spec fn view(&self) -> SessionModel {
        SessionModel {
            scenes: self.cache@,
            clear_color: self.clear_color,
            target: self.target,
            viewport_offset: self.viewport_offset,
            viewport_size: self.viewport_size,
            active: self.active,
        }
    }
}

/// The state a fresh session starts in: nothing loaded, nothing
/// configured, a red clear color, and no scene selected.
pub open spec fn initial_session() -> SessionModel {
    SessionModel {
        scenes: Map::<u64, SceneModel>::empty(),
        clear_color: ClearColor { r: 255, g: 0, b: 0, a: 255 },
        target: None,
        viewport_offset: (0, 0),
        viewport_size: None,
        active: 0,
    }
}

impl SvgRenderer {
    /// A fresh session with the target and viewport already configured,
    /// as `set_target` and `set_viewport` would configure them; no scene
    /// is loaded or selected yet.
    pub fn new(
        fbo_id: u32,
        target_w: u32,
        target_h: u32,
        vp_offset: (i32, i32),
        vp_size: Option<(u32, u32)>,
    ) -> (r: Self)
        ensures
            r@ == (SessionModel {
                target: Some(RenderTarget { fbo_id, width: target_w, height: target_h }),
                viewport_offset: vp_offset,
                viewport_size: vp_size,
                ..initial_session()
            }),
    {
        let mut r = SvgRenderer::default();
        r.set_target(fbo_id, target_w, target_h);
        r.set_viewport(vp_offset.0, vp_offset.1, vp_size);
        r
    }

    /// Sets the clear color; each channel maps onto the unit interval.
    pub fn set_clear_color(&mut self, r: u8, g: u8, b: u8, a: u8)
        ensures
            final(self)@ == (SessionModel { clear_color: ClearColor { r, g, b, a }, ..old(self)@ }),
    {
        self.clear_color = ClearColor { r, g, b, a };
    }

    /// Points the session at a render target: the framebuffer pixels
    /// land in (zero is the default/window surface) and its size. May be
    /// called again at any time to redirect output.
    pub fn set_target(&mut self, fbo_id: u32, target_w: u32, target_h: u32)
        ensures
            final(self)@ == (SessionModel {
                target: Some(RenderTarget { fbo_id, width: target_w, height: target_h }),
                ..old(self)@
            }),
    {
        self.target = Some(RenderTarget { fbo_id, width: target_w, height: target_h });
    }

    /// Sets the viewport: the offset is always stored; the size only if
    /// one is given, otherwise the previously known size (or the active
    /// scene's natural size, at draw time) continues to stand in.
    pub fn set_viewport(&mut self, x: i32, y: i32, size: Option<(u32, u32)>)
        ensures
            final(self)@ == spec_set_viewport(old(self)@, x, y, size),
    {
        self.viewport_offset = (x, y);
        if let Some(s) = size {
            self.viewport_size = Some(s);
        }
    }

    /// Loads the scene `data` holds under `key`; see `SceneCache::load`
    /// for the exact cases. Nothing else about the session changes.
    pub fn load_svg(&mut self, key: u64, data: &[u8]) -> (r: Result<(), SvgError>)
        ensures
            final(self)@ == (SessionModel {
                scenes: spec_load(old(self)@.scenes, key, data@),
                ..old(self)@
            }),
            key == 0 ==> r == Err::<(), SvgError>(SvgError::InvalidKey),
            key != 0 && (old(self)@.scenes.contains_key(key)
                || crate::svg::svg_parse_ok(data@)) ==> r == Ok::<(), SvgError>(()),
            key != 0 && !old(self)@.scenes.contains_key(key) && !crate::svg::svg_parse_ok(data@)
                ==> (r matches Err(e) && e matches SvgError::ParseError(msg) && msg@
                == crate::svg::svg_parse_err(data@)),
    {
        self.cache.load(key, data)
    }

    /// Drops the scene under `key`, if any; a no-op on absent keys. The
    /// selected key is left alone, so dropping the selected scene makes
    /// the session not ready until another is selected or it is
    /// reloaded.
    pub fn unload(&mut self, key: u64)
        ensures
            final(self)@ == (SessionModel {
                scenes: spec_unload(old(self)@.scenes, key),
                ..old(self)@
            }),
    {
        self.cache.unload(key);
    }

    /// Looks the scene under `key` up without changing anything.
    pub fn get(&self, key: u64) -> (r: Option<&SceneEntry>)
        ensures
            self@.scenes.contains_key(key) ==> (r matches Some(e) && e.model()
                == self@.scenes[key]),
            !self@.scenes.contains_key(key) ==> r is None,
    {
        self.cache.get(key)
    }

    /// Selects the scene subsequent frames draw: rejects the reserved
    /// key zero, fails with `NotLoaded` on a key no scene is filed
    /// under, and otherwise records `key` as the active scene.
    pub fn select_scene(&mut self, key: u64) -> (r: Result<(), SvgError>)
        ensures
            key == 0 ==> r == Err::<(), SvgError>(SvgError::InvalidKey)
                && final(self)@ == old(self)@,
            key != 0 && !old(self)@.scenes.contains_key(key) ==> r == Err::<(), SvgError>(
                SvgError::NotLoaded,
            ) && final(self)@ == old(self)@,
            key != 0 && old(self)@.scenes.contains_key(key) ==> r == Ok::<(), SvgError>(())
                && final(self)@ == (SessionModel { active: key, ..old(self)@ }),
    {
        if key == 0 {
            return Err(SvgError::InvalidKey);
        }
        if self.cache.get(key).is_none() {
            return Err(SvgError::NotLoaded);
        }
        self.active = key;
        Ok(())
    }

    /// The selected scene key; zero while none is selected.
    pub fn active_key(&self) -> (r: u64)
        ensures
            r == self@.active,
    {
        self.active
    }

    /// The viewport size the next frame would use: the explicitly set
    /// size, else the selected scene's natural size, else nothing.
    pub fn resolved_viewport_size(&self) -> (r: Option<(u32, u32)>)
        ensures
            r == resolved_size(self@),
    {
        if let Some(s) = self.viewport_size {
            return Some(s);
        }
        match self.cache.get(self.active) {
            Some(e) => Some((e.nat_width, e.nat_height)),
            None => None,
        }
    }

    /// Plans one frame for the selected scene. Fails with `NotReady`
    /// until a target is set and a loaded scene is selected; fails with
    /// `DegenerateViewBox` or `DegenerateViewport` when the scene's view
    /// box or the resolved viewport has a zero dimension; otherwise
    /// returns the exact frame plan, with the fit transform centering
    /// the view box in the viewport.
    pub fn draw_once(&self) -> (r: Result<FramePlan, SvgError>)
        ensures
            !session_ready(self@) ==> r == Err::<FramePlan, SvgError>(SvgError::NotReady),
            session_ready(self@) ==> {
                let vb = active_scene(self@).unwrap().view_box;
                let size = resolved_size(self@).unwrap();
                &&& (vb.width == 0 || vb.height == 0) ==> r == Err::<FramePlan, SvgError>(
                    SvgError::DegenerateViewBox,
                )
                &&& (vb.width > 0 && vb.height > 0 && (size.0 == 0 || size.1 == 0)) ==> r == Err::<
                    FramePlan,
                    SvgError,
                >(SvgError::DegenerateViewport)
                &&& fit_ok(vb, size.0, size.1) ==> r == Ok::<FramePlan, SvgError>(
                    spec_frame_plan(self@),
                )
            },
    {
        let target = match &self.target {
            Some(t) => t,
            None => {
                return Err(SvgError::NotReady);
            },
        };
        let entry = match self.cache.get(self.active) {
            Some(e) => e,
            None => {
                return Err(SvgError::NotReady);
            },
        };
        let (vp_w, vp_h) = match self.viewport_size {
            Some(s) => s,
            None => (entry.nat_width, entry.nat_height),
        };
        let transform = match fit_transform(&entry.view_box, vp_w, vp_h) {
            Ok(t) => t,
            Err(e) => {
                return Err(e);
            },
        };
        Ok(
            FramePlan {
                fbo_id: target.fbo_id,
                viewport_x: self.viewport_offset.0,
                viewport_y: self.viewport_offset.1,
                viewport_w: vp_w,
                viewport_h: vp_h,
                clear_color: self.clear_color,
                transform,
            },
        )
    }
}

impl Default for SvgRenderer {
    /// A fresh session with nothing loaded or configured.
    fn default() -> (r: Self)
        ensures
            r@ == initial_session(),
    {
        let r = SvgRenderer {
            cache: SceneCache::new(),
            clear_color: ClearColor { r: 255, g: 0, b: 0, a: 255 },
            target: None,
            viewport_offset: (0, 0),
            viewport_size: None,
            active: 0,
        };
        proof {
            assert(r@ == initial_session());
        }
        r
    }
}

/// How `set_viewport` moves the session's state: the offset is replaced,
/// the size only when one is given.
pub open spec fn spec_set_viewport(
    s: SessionModel,
    x: i32,
    y: i32,
    size: Option<(u32, u32)>,
) -> SessionModel {
    SessionModel {
        viewport_offset: (x, y),
        viewport_size: if size is Some {
            size
        } else {
            s.viewport_size
        },
        ..s
    }
}

/// Setting the viewport size and reading it back round-trips: after
/// `set_viewport(x, y, Some((w, h)))` the resolved viewport size is
/// exactly `(w, h)`, whatever the session held before.
pub proof fn lemma_viewport_round_trip(s: SessionModel, x: i32, y: i32, w: u32, h: u32)
    ensures
        resolved_size(spec_set_viewport(s, x, y, Some((w, h)))) == Some((w, h)),
{
}

} // verus!
