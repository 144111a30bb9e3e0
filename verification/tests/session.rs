use pi_svg::fit::FitTransform;
use pi_svg::session::{ClearColor, SvgRenderer};
use pi_svg::SvgError;

const SVG_200X100: &[u8] = b"<svg xmlns=\"http://www.w3.org/2000/svg\" width=\"200\" height=\"100\" viewBox=\"0 0 200 100\"><rect x=\"10\" y=\"10\" width=\"50\" height=\"30\" fill=\"red\"/></svg>";

#[test]
fn draw_before_any_configuration_is_not_ready() {
    let session = SvgRenderer::default();
    assert_eq!(session.draw_once().unwrap_err(), SvgError::NotReady);
}

#[test]
fn draw_without_a_scene_is_not_ready() {
    let mut session = SvgRenderer::default();
    session.set_target(0, 640, 480);
    session.set_viewport(0, 0, Some((640, 480)));
    assert_eq!(session.draw_once().unwrap_err(), SvgError::NotReady);
}

#[test]
fn draw_without_a_target_is_not_ready() {
    let mut session = SvgRenderer::default();
    assert_eq!(session.load_svg(1, SVG_200X100), Ok(()));
    assert_eq!(session.select_scene(1), Ok(()));
    assert_eq!(session.draw_once().unwrap_err(), SvgError::NotReady);
}

#[test]
fn select_before_load_is_not_loaded() {
    let mut session = SvgRenderer::default();
    assert_eq!(session.select_scene(1), Err(SvgError::NotLoaded));
    assert_eq!(session.load_svg(1, SVG_200X100), Ok(()));
    assert_eq!(session.select_scene(1), Ok(()));
}

#[test]
fn select_key_zero_is_invalid() {
    let mut session = SvgRenderer::default();
    assert_eq!(session.select_scene(0), Err(SvgError::InvalidKey));
}

#[test]
fn viewport_size_round_trips() {
    let mut session = SvgRenderer::default();
    session.set_viewport(5, -3, Some((210, 110)));
    assert_eq!(session.resolved_viewport_size(), Some((210, 110)));
}

#[test]
fn viewport_size_falls_back_to_the_scene_natural_size() {
    let mut session = SvgRenderer::default();
    assert_eq!(session.resolved_viewport_size(), None);
    assert_eq!(session.load_svg(1, SVG_200X100), Ok(()));
    assert_eq!(session.select_scene(1), Ok(()));
    assert_eq!(session.resolved_viewport_size(), Some((200, 100)));
    // An explicit size wins over the natural size.
    session.set_viewport(0, 0, Some((50, 50)));
    assert_eq!(session.resolved_viewport_size(), Some((50, 50)));
    // Setting only the offset keeps the size.
    session.set_viewport(9, 9, None);
    assert_eq!(session.resolved_viewport_size(), Some((50, 50)));
}

#[test]
fn a_full_frame_plan() {
    let mut session = SvgRenderer::default();
    session.set_target(4, 1024, 768);
    session.set_viewport(50, 300, Some((100, 100)));
    session.set_clear_color(255, 255, 0, 255);
    assert_eq!(session.load_svg(1, SVG_200X100), Ok(()));
    assert_eq!(session.select_scene(1), Ok(()));

    let plan = session.draw_once().unwrap();
    assert_eq!(plan.fbo_id, 4);
    assert_eq!((plan.viewport_x, plan.viewport_y), (50, 300));
    assert_eq!((plan.viewport_w, plan.viewport_h), (100, 100));
    assert_eq!(plan.clear_color, ClearColor { r: 255, g: 255, b: 0, a: 255 });
    // The 200x100 view box in a 100x100 viewport: scale 1/2, centered
    // at (0, 25).
    assert_eq!(
        plan.transform,
        FitTransform { scale_num: 100, scale_den: 200, tx_num: 0, ty_num: 10000, t_den: 400 }
    );
}

#[test]
fn the_natural_size_feeds_the_plan_when_no_viewport_size_is_set() {
    let mut session = SvgRenderer::default();
    session.set_target(0, 800, 600);
    assert_eq!(session.load_svg(1, SVG_200X100), Ok(()));
    assert_eq!(session.select_scene(1), Ok(()));
    let plan = session.draw_once().unwrap();
    assert_eq!((plan.viewport_w, plan.viewport_h), (200, 100));
    // At the natural size the fit is the identity scale.
    assert_eq!(plan.transform.scale_num as f64 / plan.transform.scale_den as f64, 1.0);
    assert_eq!(plan.transform.tx_num, 0);
    assert_eq!(plan.transform.ty_num, 0);
}

#[test]
fn unloading_the_active_scene_makes_draw_not_ready() {
    let mut session = SvgRenderer::default();
    session.set_target(0, 640, 480);
    assert_eq!(session.load_svg(1, SVG_200X100), Ok(()));
    assert_eq!(session.select_scene(1), Ok(()));
    session.unload(1);
    assert_eq!(session.draw_once().unwrap_err(), SvgError::NotReady);
}

#[test]
fn a_degenerate_explicit_viewport_fails_the_draw() {
    let mut session = SvgRenderer::default();
    session.set_target(0, 640, 480);
    session.set_viewport(0, 0, Some((0, 100)));
    assert_eq!(session.load_svg(1, SVG_200X100), Ok(()));
    assert_eq!(session.select_scene(1), Ok(()));
    assert_eq!(session.draw_once().unwrap_err(), SvgError::DegenerateViewport);
}

#[test]
fn a_subpixel_view_box_is_degenerate_at_draw_time() {
    // The parser accepts fractional sizes, but a view box under one
    // source unit truncates to a zero-sized box, which no fit exists for.
    let svg: &[u8] = b"<svg xmlns=\"http://www.w3.org/2000/svg\" width=\"0.4\" height=\"0.4\" viewBox=\"0 0 0.4 0.4\"><rect width=\"0.4\" height=\"0.4\"/></svg>";
    let mut session = SvgRenderer::default();
    session.set_target(0, 640, 480);
    session.set_viewport(0, 0, Some((100, 100)));
    assert_eq!(session.load_svg(1, svg), Ok(()));
    assert_eq!(session.select_scene(1), Ok(()));
    assert_eq!(session.draw_once().unwrap_err(), SvgError::DegenerateViewBox);
}

#[test]
fn the_default_session_is_fresh() {
    let session = SvgRenderer::default();
    assert_eq!(session.resolved_viewport_size(), None);
    assert_eq!(session.draw_once().unwrap_err(), SvgError::NotReady);
}

#[test]
fn new_configures_target_and_viewport_at_once() {
    let mut session = SvgRenderer::new(2, 1080, 720, (50, 300), Some((210, 110)));
    assert_eq!(session.resolved_viewport_size(), Some((210, 110)));
    assert_eq!(session.load_svg(1, SVG_200X100), Ok(()));
    assert_eq!(session.select_scene(1), Ok(()));
    let plan = session.draw_once().unwrap();
    assert_eq!(plan.fbo_id, 2);
    assert_eq!((plan.viewport_x, plan.viewport_y), (50, 300));
    assert_eq!((plan.viewport_w, plan.viewport_h), (210, 110));
}

#[test]
fn get_sees_what_load_filed() {
    let mut session = SvgRenderer::default();
    assert!(session.get(1).is_none());
    assert_eq!(session.load_svg(1, SVG_200X100), Ok(()));
    let entry = session.get(1).unwrap();
    assert_eq!(entry.key, 1);
    assert_eq!((entry.nat_width, entry.nat_height), (200, 100));
}
