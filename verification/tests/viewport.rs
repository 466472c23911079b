use num::BigInt;
use num::BigRational;
use playground::canvas::Canvas;
use playground::command::DrawCommand;
use playground::error::PlaygroundError;
use playground::point::UserPoint;
use playground::pointer::PointerTracker;
use playground::pointer::{
    absolute_mouse_position, get_mouse, mouse_position, set_mouse, upd_mouse, upd_touch,
    MouseInput, Touch, TouchInput,
};
use playground::rational::Rational;
use playground::transform::Transform;
use playground::viewport::{from_pixels, get_viewport, inv_canvas_position, set_viewport, Viewport};

fn ratio(n: i64, d: i64) -> BigRational {
    BigRational::new(BigInt::from(n), BigInt::from(d))
}

fn whole(n: i64) -> BigRational {
    BigRational::from_integer(BigInt::from(n))
}

fn big(r: &Rational) -> BigRational {
    r.clone().into_big()
}

fn canvas_with_viewport(width: u32, height: u32, dpr: i64, w: i64, h: i64) -> Canvas {
    let mut canvas = Canvas::new(width, height, Rational::from_int(dpr));
    let commands =
        set_viewport(&canvas.view, &Rational::from_int(w), &Rational::from_int(h)).unwrap();
    canvas.run(&commands);
    canvas
}

fn singular_view() -> Viewport {
    Viewport {
        width: 100,
        height: 100,
        pixel_ratio: Rational::from_int(1),
        transform: Transform {
            a: Rational::from_int(1),
            b: Rational::from_int(2),
            c: Rational::from_int(2),
            d: Rational::from_int(4),
            e: Rational::from_int(0),
            f: Rational::from_int(0),
        },
        line_width: Rational::from_int(1),
    }
}

#[test]
fn viewport_of_ten_on_wide_surface() {
    let canvas = canvas_with_viewport(800, 400, 1, 10, 10);
    assert_eq!(big(&canvas.view.transform.a), whole(40));
    assert_eq!(big(&canvas.view.transform.d), whole(-40));
    let (vw, vh) = get_viewport(&canvas.view).unwrap();
    assert_eq!(vw.into_big(), whole(20));
    assert_eq!(vh.into_big(), whole(10));
    let centre = inv_canvas_position(&canvas.view, 400, 200).unwrap();
    assert_eq!(centre.x.into_big(), whole(0));
    assert_eq!(centre.y.into_big(), whole(0));
    let corner = inv_canvas_position(&canvas.view, 0, 0).unwrap();
    assert_eq!(corner.x.into_big(), whole(-10));
    assert_eq!(corner.y.into_big(), whole(5));
}

#[test]
fn set_viewport_commands_in_order() {
    let canvas = Canvas::new(800, 400, Rational::from_int(2));
    let commands =
        set_viewport(&canvas.view, &Rational::from_int(10), &Rational::from_int(10)).unwrap();
    assert_eq!(commands.len(), 4);
    assert!(matches!(commands[0], DrawCommand::ResetTransform));
    match &commands[1] {
        DrawCommand::Scale(x, y) => {
            assert_eq!(big(x), whole(40));
            assert_eq!(big(y), whole(-40));
        }
        _ => panic!("expected a scale"),
    }
    match &commands[2] {
        DrawCommand::Translate(x, y) => {
            assert_eq!(big(x), whole(10));
            assert_eq!(big(y), whole(-5));
        }
        _ => panic!("expected a translate"),
    }
    match &commands[3] {
        DrawCommand::SetLineWidth(w) => assert_eq!(big(w), ratio(1, 10)),
        _ => panic!("expected a line width"),
    }
}

#[test]
fn viewport_fits_the_tighter_side() {
    let canvas = canvas_with_viewport(300, 600, 1, 3, 3);
    assert_eq!(big(&canvas.view.transform.a), whole(100));
    let (vw, vh) = get_viewport(&canvas.view).unwrap();
    assert_eq!(vw.into_big(), whole(3));
    assert_eq!(vh.into_big(), whole(6));
    assert_eq!(big(&canvas.view.transform.e), whole(150));
    assert_eq!(big(&canvas.view.transform.f), whole(300));
    assert_eq!(big(&canvas.view.line_width), ratio(2, 100));
}

#[test]
fn set_viewport_overrides_an_earlier_transform() {
    let mut canvas = canvas_with_viewport(800, 400, 1, 10, 10);
    let again =
        set_viewport(&canvas.view, &Rational::from_int(4), &Rational::from_int(1)).unwrap();
    canvas.run(&again);
    let (vw, vh) = get_viewport(&canvas.view).unwrap();
    assert_eq!(vw.into_big(), whole(4));
    assert_eq!(vh.into_big(), whole(2));
}

#[test]
fn set_viewport_refuses_zero_extent() {
    let canvas = Canvas::new(800, 400, Rational::from_int(1));
    let zero = Rational::from_int(0);
    let one = Rational::from_int(1);
    assert_eq!(set_viewport(&canvas.view, &zero, &one).err(), Some(PlaygroundError::ZeroExtent));
    assert_eq!(set_viewport(&canvas.view, &one, &zero).err(), Some(PlaygroundError::ZeroExtent));
}

#[test]
fn set_viewport_refuses_zero_scale() {
    let canvas = Canvas::new(0, 400, Rational::from_int(1));
    let one = Rational::from_int(1);
    assert_eq!(set_viewport(&canvas.view, &one, &one).err(), Some(PlaygroundError::ZeroScale));
}

#[test]
fn get_viewport_refuses_zero_scale() {
    let mut view = singular_view();
    view.transform.a = Rational::from_int(0);
    assert_eq!(get_viewport(&view).err(), Some(PlaygroundError::ZeroScale));
    assert_eq!(from_pixels(&view, 3).err(), Some(PlaygroundError::ZeroScale));
}

#[test]
fn from_pixels_refuses_an_empty_surface() {
    let mut view = singular_view();
    view.width = 0;
    assert_eq!(from_pixels(&view, 3).err(), Some(PlaygroundError::EmptySurface));
}

#[test]
fn inverse_refuses_a_singular_transform() {
    let view = singular_view();
    assert_eq!(
        inv_canvas_position(&view, 1, 1).err(),
        Some(PlaygroundError::SingularTransform)
    );
    let tracker = PointerTracker::new();
    assert_eq!(mouse_position(&tracker, &view).err(), Some(PlaygroundError::SingularTransform));
}

#[test]
fn centre_maps_to_origin_and_top_is_up() {
    let canvas = canvas_with_viewport(640, 480, 2, 7, 3);
    let centre = inv_canvas_position(&canvas.view, 160, 120).unwrap();
    assert_eq!(centre.x.into_big(), whole(0));
    assert_eq!(centre.y.into_big(), whole(0));
    let top = inv_canvas_position(&canvas.view, 160, 0).unwrap();
    assert!(Rational::from_int(0).less_than(&top.y));
    assert_eq!(top.x.into_big(), whole(0));
}

#[test]
fn position_round_trip() {
    let canvas = canvas_with_viewport(640, 480, 2, 7, 3);
    let user = inv_canvas_position(&canvas.view, 37, 411).unwrap();
    let back = canvas.view.transform.apply(&user);
    assert_eq!(back.x.into_big(), whole(74));
    assert_eq!(back.y.into_big(), whole(822));
}

#[test]
fn round_trip_under_a_sheared_transform() {
    let mut view = singular_view();
    view.transform.d = Rational::from_int(5);
    view.transform.e = Rational::from_int(3);
    let user = inv_canvas_position(&view, 10, 20).unwrap();
    assert_eq!(big(&user.x), whole(-5));
    assert_eq!(big(&user.y), whole(6));
    let back = view.transform.apply(&user);
    assert_eq!(back.x.into_big(), whole(10));
    assert_eq!(back.y.into_big(), whole(20));
    let p = UserPoint::from_ints(2, -1);
    let image = view.transform.apply(&p);
    let found = view.transform.unapply(&image.x, &image.y).unwrap();
    assert_eq!(found.x.into_big(), whole(2));
    assert_eq!(found.y.into_big(), whole(-1));
}

#[test]
fn from_pixels_is_pixels_over_scale() {
    let canvas = canvas_with_viewport(200, 200, 1, 2, 2);
    assert_eq!(from_pixels(&canvas.view, 0).unwrap().into_big(), whole(0));
    assert_eq!(from_pixels(&canvas.view, 15).unwrap().into_big(), ratio(15, 100));
    assert_eq!(from_pixels(&canvas.view, 1).unwrap().into_big(), ratio(1, 100));
}

#[test]
fn from_pixels_counts_the_pixel_ratio() {
    let canvas = canvas_with_viewport(800, 400, 2, 10, 10);
    assert_eq!(from_pixels(&canvas.view, 15).unwrap().into_big(), ratio(30, 40));
}

#[test]
fn from_pixels_grows_with_pixels() {
    let canvas = canvas_with_viewport(800, 400, 2, 10, 10);
    let mut last = from_pixels(&canvas.view, 0).unwrap();
    assert!(last.is_zero());
    for k in 1..20u32 {
        let next = from_pixels(&canvas.view, k).unwrap();
        assert!(last.less_than(&next));
        last = next;
    }
}

#[test]
fn canvas_save_and_restore() {
    let mut canvas = canvas_with_viewport(800, 400, 1, 10, 10);
    canvas.apply(&DrawCommand::Save);
    canvas.apply(&DrawCommand::ResetTransform);
    canvas.apply(&DrawCommand::SetLineWidth(Rational::from_int(9)));
    assert_eq!(big(&canvas.view.transform.a), whole(1));
    assert_eq!(big(&canvas.view.line_width), whole(9));
    canvas.apply(&DrawCommand::Restore);
    assert_eq!(big(&canvas.view.transform.a), whole(40));
    assert_eq!(big(&canvas.view.line_width), ratio(1, 20));
    canvas.apply(&DrawCommand::Restore);
    assert_eq!(big(&canvas.view.transform.a), whole(40));
    assert_eq!(canvas.saved.len(), 0);
}

#[test]
fn canvas_ignores_a_line_width_that_is_not_positive() {
    let mut canvas = Canvas::new(10, 10, Rational::from_int(1));
    canvas.apply(&DrawCommand::SetLineWidth(Rational::from_int(0)));
    assert_eq!(big(&canvas.view.line_width), whole(1));
    canvas.apply(&DrawCommand::SetLineWidth(Rational::from_int(-2)));
    assert_eq!(big(&canvas.view.line_width), whole(1));
}

#[test]
fn canvas_translate_then_scale() {
    let mut canvas = Canvas::new(10, 10, Rational::from_int(1));
    canvas.apply(&DrawCommand::Translate(Rational::from_int(3), Rational::from_int(4)));
    canvas.apply(&DrawCommand::Scale(Rational::from_int(2), Rational::from_int(5)));
    canvas.apply(&DrawCommand::Translate(Rational::from_int(1), Rational::from_int(1)));
    let image = canvas.view.transform.apply(&UserPoint::from_ints(0, 0));
    assert_eq!(image.x.into_big(), whole(5));
    assert_eq!(image.y.into_big(), whole(9));
    assert_eq!(canvas.view.transform.determinant().into_big(), whole(10));
}

#[test]
fn pointer_starts_in_the_corner() {
    let tracker = PointerTracker::new();
    assert_eq!(get_mouse(&tracker), (0, 0));
    assert_eq!(absolute_mouse_position(&tracker), (0, 0));
}

#[test]
fn pointer_set_and_get() {
    let mut tracker = PointerTracker::new();
    set_mouse(&mut tracker, 17, -4);
    assert_eq!(get_mouse(&tracker), (17, -4));
    assert_eq!(absolute_mouse_position(&tracker), (17, -4));
}

#[test]
fn mouse_uses_offset_and_touch_uses_first_client() {
    let mut tracker = PointerTracker::new();
    upd_mouse(&mut tracker, &MouseInput { offset_x: 12, offset_y: 34 });
    assert_eq!(absolute_mouse_position(&tracker), (12, 34));
    let touches = vec![Touch { client_x: 5, client_y: 6 }, Touch { client_x: 70, client_y: 80 }];
    upd_touch(&mut tracker, &TouchInput { touches });
    assert_eq!(absolute_mouse_position(&tracker), (5, 6));
    upd_mouse(&mut tracker, &MouseInput { offset_x: 1, offset_y: 2 });
    assert_eq!(absolute_mouse_position(&tracker), (1, 2));
}

#[test]
fn mouse_position_is_in_user_space() {
    let canvas = canvas_with_viewport(800, 400, 1, 10, 10);
    let mut tracker = PointerTracker::new();
    set_mouse(&mut tracker, 600, 100);
    let p = mouse_position(&tracker, &canvas.view).unwrap();
    assert_eq!(p.x.into_big(), whole(5));
    assert_eq!(p.y.into_big(), ratio(5, 2));
}
