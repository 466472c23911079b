use num::BigInt;
use num::BigRational;
use playground::canvas::Canvas;
use playground::command::{DrawCommand, Paint};
use playground::error::{PlaygroundError, PolygonError};
use playground::point::UserPoint;
use playground::pointer::{set_mouse, MouseInput, PointerTracker};
use playground::points::{handle_mousedown, with_points_from, PointSet};
use playground::polygon::{
    error_kind, has_duplicates, refresh_polygon, with_polygon, PolygonCache, SimplePolygon,
};
use playground::rational::Rational;
use playground::render::{
    at_point, clear_screen, fill_text, render_fixed_point, render_line, render_point,
    render_polygon, stroke_text,
};
use playground::viewport::{set_viewport, Viewport};
use rgeometry::data::Point;

fn part(n: i64, d: i64) -> BigRational {
    BigRational::new(BigInt::from(n), BigInt::from(d))
}

fn full(n: i64) -> BigRational {
    BigRational::from_integer(BigInt::from(n))
}

fn pair(p: &UserPoint) -> (BigRational, BigRational) {
    (p.x.clone().into_big(), p.y.clone().into_big())
}

fn at(x: i64, y: i64) -> UserPoint {
    UserPoint::from_ints(x, y)
}

fn bowtie() -> Vec<UserPoint> {
    vec![at(0, 0), at(2, 2), at(2, 0), at(0, 2)]
}

fn view_of(width: u32, height: u32, w: i64, h: i64) -> Viewport {
    let mut canvas = Canvas::new(width, height, Rational::from_int(1));
    let commands =
        set_viewport(&canvas.view, &Rational::from_int(w), &Rational::from_int(h)).unwrap();
    canvas.run(&commands);
    canvas.view
}

fn stored(polygon: &SimplePolygon) -> Vec<(BigRational, BigRational)> {
    let inner = polygon.clone().into_polygon();
    inner.iter().map(|p: &Point<BigRational, 2>| (p.array[0].clone(), p.array[1].clone())).collect()
}

fn sorted(mut points: Vec<(BigRational, BigRational)>) -> Vec<(BigRational, BigRational)> {
    points.sort();
    points
}

#[test]
fn polygon_over_crossing_points_is_untangled() {
    let mut cache = PolygonCache::new();
    let points = bowtie();
    let polygon = refresh_polygon(&mut cache, &points).unwrap();
    assert_eq!(polygon.vertex_count(), 4);
    assert_eq!(stored(&polygon), points.iter().map(pair).collect::<Vec<_>>());
    let boundary: Vec<_> = polygon.boundary_points().iter().map(pair).collect();
    assert_eq!(boundary.len(), 4);
    assert_eq!(sorted(boundary), sorted(points.iter().map(pair).collect()));
    assert!(polygon.into_polygon().validate().is_ok());
}

#[test]
fn polygon_is_kept_and_follows_the_points() {
    let mut cache = PolygonCache::new();
    let first = refresh_polygon(&mut cache, &bowtie()).unwrap();
    assert_eq!(first.vertex_count(), 4);
    let moved = vec![at(0, 0), at(5, 5), at(2, 0), at(0, 2)];
    let second = refresh_polygon(&mut cache, &moved).unwrap();
    assert_eq!(stored(&second), moved.iter().map(pair).collect::<Vec<_>>());
    assert!(second.into_polygon().validate().is_ok());
}

#[test]
fn polygon_keeps_its_boundary_while_no_point_moves() {
    let mut cache = PolygonCache::new();
    let first = refresh_polygon(&mut cache, &bowtie()).unwrap();
    let walk: Vec<_> = first.boundary_points().iter().map(pair).collect();
    for _ in 0..20 {
        let again = refresh_polygon(&mut cache, &bowtie()).unwrap();
        assert_eq!(stored(&again), stored(&first));
        assert_eq!(again.boundary_points().iter().map(pair).collect::<Vec<_>>(), walk);
    }
}

#[test]
fn interactive_polygon_is_the_same_while_idle() {
    let view = view_of(400, 400, 4, 4);
    let mut set = PointSet::new();
    let mut pointer = PointerTracker::new();
    let mut cache = PolygonCache::new();
    let first = with_polygon(&mut cache, &mut set, &pointer, &view, 12).unwrap();
    let walk: Vec<_> = first.boundary_points().iter().map(pair).collect();
    set_mouse(&mut pointer, 123, 45);
    for _ in 0..5 {
        let again = with_polygon(&mut cache, &mut set, &pointer, &view, 12).unwrap();
        assert_eq!(stored(&again), stored(&first));
        assert_eq!(again.boundary_points().iter().map(pair).collect::<Vec<_>>(), walk);
    }
}

#[test]
fn polygon_is_rebuilt_for_another_number_of_points() {
    let mut cache = PolygonCache::new();
    refresh_polygon(&mut cache, &bowtie()).unwrap();
    let three = vec![at(0, 0), at(1, 0), at(0, 1)];
    let rebuilt = refresh_polygon(&mut cache, &three).unwrap();
    assert_eq!(rebuilt.vertex_count(), 3);
    assert_eq!(stored(&rebuilt), three.iter().map(pair).collect::<Vec<_>>());
}

#[test]
fn polygon_refuses_duplicates() {
    let mut cache = PolygonCache::new();
    let twice = vec![at(0, 0), at(1, 0), at(0, 1), at(1, 0)];
    assert_eq!(refresh_polygon(&mut cache, &twice).err(), Some(PolygonError::DuplicatePoints));
    refresh_polygon(&mut cache, &bowtie()).unwrap();
    let same_value = vec![
        at(0, 0),
        UserPoint::new(Rational::new(4, 2), Rational::from_int(0)),
        at(2, 0),
        at(0, 2),
    ];
    assert_eq!(
        refresh_polygon(&mut cache, &same_value).err(),
        Some(PolygonError::DuplicatePoints)
    );
    let kept = refresh_polygon(&mut cache, &bowtie()).unwrap();
    assert_eq!(kept.vertex_count(), 4);
}

#[test]
fn polygon_refuses_too_few_points() {
    let mut cache = PolygonCache::new();
    let two = vec![at(0, 0), at(1, 0)];
    assert_eq!(refresh_polygon(&mut cache, &two).err(), Some(PolygonError::InsufficientVertices));
    let none: Vec<UserPoint> = vec![];
    assert_eq!(refresh_polygon(&mut cache, &none).err(), Some(PolygonError::InsufficientVertices));
}

#[test]
fn polygon_refuses_points_on_one_line() {
    let mut cache = PolygonCache::new();
    let line = vec![at(0, 0), at(1, 1), at(2, 2), at(3, 3)];
    assert_eq!(refresh_polygon(&mut cache, &line).err(), Some(PolygonError::CoLinearViolation));
    refresh_polygon(&mut cache, &bowtie()).unwrap();
    assert_eq!(refresh_polygon(&mut cache, &line).err(), Some(PolygonError::CoLinearViolation));
}

#[test]
fn has_duplicates_goes_by_value() {
    assert!(!has_duplicates(&bowtie()));
    assert!(!has_duplicates(&vec![]));
    assert!(has_duplicates(&vec![at(1, 1), at(2, 2), at(1, 1)]));
    let halves = vec![
        UserPoint::new(Rational::new(1, 2), Rational::from_int(0)),
        UserPoint::new(Rational::new(2, 4), Rational::from_int(0)),
    ];
    assert!(has_duplicates(&halves));
    assert!(!has_duplicates(&vec![at(1, 2), at(2, 1), at(1, 1)]));
}

#[test]
fn error_kinds_keep_their_names() {
    assert_eq!(
        error_kind(rgeometry::Error::InsufficientVertices),
        PolygonError::InsufficientVertices
    );
    assert_eq!(error_kind(rgeometry::Error::SelfIntersections), PolygonError::SelfIntersections);
    assert_eq!(error_kind(rgeometry::Error::DuplicatePoints), PolygonError::DuplicatePoints);
    assert_eq!(error_kind(rgeometry::Error::ConvexViolation), PolygonError::ConvexViolation);
    assert_eq!(error_kind(rgeometry::Error::ClockWiseViolation), PolygonError::ClockWiseViolation);
    assert_eq!(error_kind(rgeometry::Error::CoLinearViolation), PolygonError::CoLinearViolation);
}

#[test]
fn interactive_polygon_follows_a_drag() {
    let view = view_of(400, 400, 4, 4);
    let mut set = PointSet::new();
    let mut pointer = PointerTracker::new();
    let mut cache = PolygonCache::new();
    with_points_from(&mut set, &pointer, &view, 4, bowtie()).unwrap();
    let first = with_polygon(&mut cache, &mut set, &pointer, &view, 4).unwrap();
    assert_eq!(stored(&first), bowtie().iter().map(pair).collect::<Vec<_>>());
    handle_mousedown(&mut set, &mut pointer, &view, &MouseInput { offset_x: 400, offset_y: 0 });
    assert_eq!(set.selection().map(|s| s.index), Some(1));
    set_mouse(&mut pointer, 300, 50);
    let second = with_polygon(&mut cache, &mut set, &pointer, &view, 4).unwrap();
    let expected = vec![
        (full(0), full(0)),
        (full(1), part(3, 2)),
        (full(2), full(0)),
        (full(0), full(2)),
    ];
    assert_eq!(stored(&second), expected);
    assert!(second.into_polygon().validate().is_ok());
}

#[test]
fn interactive_polygon_passes_failures_on() {
    let view = view_of(400, 400, 4, 4);
    let mut set = PointSet::new();
    let pointer = PointerTracker::new();
    let mut cache = PolygonCache::new();
    let mut flat = view_of(400, 400, 4, 4);
    flat.transform.a = Rational::from_int(0);
    assert_eq!(
        with_polygon(&mut cache, &mut set, &pointer, &flat, 3).err(),
        Some(PlaygroundError::ZeroScale)
    );
    with_points_from(&mut set, &pointer, &view, 2, vec![at(0, 0), at(1, 1)]).unwrap();
    assert_eq!(
        with_polygon(&mut cache, &mut set, &pointer, &view, 2).err(),
        Some(PlaygroundError::Polygon(PolygonError::InsufficientVertices))
    );
}

#[test]
fn render_line_moves_then_draws() {
    let commands = render_line(&vec![at(0, 0), at(1, 2), at(3, 4)]);
    assert_eq!(commands.len(), 6);
    assert!(matches!(commands[0], DrawCommand::BeginPath));
    assert!(matches!(commands[1], DrawCommand::SetLineJoinRound));
    match &commands[2] {
        DrawCommand::MoveTo(p) => assert_eq!(pair(p), (full(0), full(0))),
        _ => panic!("expected a move"),
    }
    match &commands[3] {
        DrawCommand::LineTo(p) => assert_eq!(pair(p), (full(1), full(2))),
        _ => panic!("expected a line"),
    }
    match &commands[4] {
        DrawCommand::LineTo(p) => assert_eq!(pair(p), (full(3), full(4))),
        _ => panic!("expected a line"),
    }
    assert!(matches!(commands[5], DrawCommand::Stroke));
}

#[test]
fn render_line_of_nothing_is_nothing() {
    assert_eq!(render_line(&vec![]).len(), 0);
}

#[test]
fn render_line_of_one_point() {
    let commands = render_line(&vec![at(5, 6)]);
    assert_eq!(commands.len(), 4);
    assert!(matches!(commands[2], DrawCommand::MoveTo(_)));
    assert!(matches!(commands[3], DrawCommand::Stroke));
}

#[test]
fn render_polygon_walks_the_boundary_and_closes() {
    let mut cache = PolygonCache::new();
    let polygon = refresh_polygon(&mut cache, &bowtie()).unwrap();
    let boundary: Vec<_> = polygon.boundary_points().iter().map(pair).collect();
    let commands = render_polygon(&polygon);
    assert_eq!(commands.len(), 8);
    assert!(matches!(commands[0], DrawCommand::BeginPath));
    assert!(matches!(commands[1], DrawCommand::SetLineJoinRound));
    match &commands[2] {
        DrawCommand::MoveTo(p) => assert_eq!(pair(p), boundary[0]),
        _ => panic!("expected a move"),
    }
    for k in 1..4 {
        match &commands[2 + k] {
            DrawCommand::LineTo(p) => assert_eq!(pair(p), boundary[k]),
            _ => panic!("expected a line"),
        }
    }
    assert!(matches!(commands[6], DrawCommand::ClosePath));
    assert!(matches!(commands[7], DrawCommand::Stroke));
}

#[test]
fn render_point_fills_green_then_strokes() {
    let view = view_of(200, 200, 2, 2);
    let commands = render_point(&view, &at(1, -1)).unwrap();
    assert_eq!(commands.len(), 3);
    assert!(matches!(commands[0], DrawCommand::SetFillStyle(Paint::Green)));
    match &commands[1] {
        DrawCommand::FillDisc(disc) => {
            assert_eq!(pair(&disc.center), (full(1), full(-1)));
            assert_eq!(disc.radius.clone().into_big(), part(15, 100));
        }
        _ => panic!("expected a fill"),
    }
    match &commands[2] {
        DrawCommand::StrokeDisc(disc) => {
            assert_eq!(disc.radius.clone().into_big(), part(15, 100))
        }
        _ => panic!("expected a stroke"),
    }
}

#[test]
fn render_fixed_point_fills_grey_then_strokes_at_half_size() {
    let view = view_of(200, 200, 2, 2);
    let commands = render_fixed_point(&view, &at(1, -1)).unwrap();
    assert_eq!(commands.len(), 3);
    assert!(matches!(commands[0], DrawCommand::SetFillStyle(Paint::Grey)));
    match &commands[1] {
        DrawCommand::FillDisc(disc) => {
            assert_eq!(pair(&disc.center), (full(1), full(-1)));
            assert_eq!(disc.radius.clone().into_big(), part(15, 200));
        }
        _ => panic!("expected a fill"),
    }
    match &commands[2] {
        DrawCommand::StrokeDisc(disc) => {
            assert_eq!(pair(&disc.center), (full(1), full(-1)));
            assert_eq!(disc.radius.clone().into_big(), part(15, 200));
        }
        _ => panic!("expected a stroke"),
    }
}

#[test]
fn render_point_needs_a_measurable_view() {
    let mut view = view_of(200, 200, 2, 2);
    view.transform.a = Rational::from_int(0);
    assert_eq!(render_point(&view, &at(0, 0)).err(), Some(PlaygroundError::ZeroScale));
    assert_eq!(render_fixed_point(&view, &at(0, 0)).err(), Some(PlaygroundError::ZeroScale));
    assert_eq!(fill_text(&view, "a").err(), Some(PlaygroundError::ZeroScale));
    let mut empty = view_of(200, 200, 2, 2);
    empty.height = 0;
    assert_eq!(stroke_text(&empty, "a").err(), Some(PlaygroundError::EmptySurface));
}

#[test]
fn paint_names() {
    assert_eq!(Paint::Green.css_name(), "green");
    assert_eq!(Paint::Grey.css_name(), "grey");
}

#[test]
fn at_point_wraps_in_save_and_restore() {
    let inner = vec![DrawCommand::BeginPath, DrawCommand::Stroke];
    let commands = at_point(&UserPoint::new(Rational::new(1, 2), Rational::from_int(3)), inner);
    assert_eq!(commands.len(), 5);
    assert!(matches!(commands[0], DrawCommand::Save));
    match &commands[1] {
        DrawCommand::Translate(x, y) => {
            assert_eq!(x.clone().into_big(), part(1, 2));
            assert_eq!(y.clone().into_big(), full(3));
        }
        _ => panic!("expected a translate"),
    }
    assert!(matches!(commands[2], DrawCommand::BeginPath));
    assert!(matches!(commands[3], DrawCommand::Stroke));
    assert!(matches!(commands[4], DrawCommand::Restore));
}

#[test]
fn text_is_drawn_upright_at_pixel_scale() {
    let view = view_of(200, 200, 2, 2);
    let filled = fill_text(&view, "label").unwrap();
    assert_eq!(filled.len(), 4);
    assert!(matches!(filled[0], DrawCommand::Save));
    match &filled[1] {
        DrawCommand::Scale(x, y) => {
            assert_eq!(x.clone().into_big(), part(1, 100));
            assert_eq!(y.clone().into_big(), part(-1, 100));
        }
        _ => panic!("expected a scale"),
    }
    match &filled[2] {
        DrawCommand::FillText(text) => assert_eq!(text, "label"),
        _ => panic!("expected a filled text"),
    }
    assert!(matches!(filled[3], DrawCommand::Restore));
    let stroked = stroke_text(&view, "label").unwrap();
    match &stroked[2] {
        DrawCommand::StrokeText(text) => assert_eq!(text, "label"),
        _ => panic!("expected a stroked text"),
    }
}

#[test]
fn clear_screen_leaves_the_transform() {
    let mut canvas = Canvas::new(320, 240, Rational::from_int(1));
    let setup =
        set_viewport(&canvas.view, &Rational::from_int(4), &Rational::from_int(4)).unwrap();
    canvas.run(&setup);
    let commands = clear_screen(&canvas.view);
    assert_eq!(commands.len(), 4);
    assert!(matches!(commands[0], DrawCommand::Save));
    assert!(matches!(commands[1], DrawCommand::ResetTransform));
    assert!(matches!(commands[2], DrawCommand::ClearRect(320, 240)));
    assert!(matches!(commands[3], DrawCommand::Restore));
    canvas.run(&commands);
    assert_eq!(canvas.view.transform.a.clone().into_big(), full(60));
    assert_eq!(canvas.view.transform.e.clone().into_big(), full(160));
    assert_eq!(canvas.saved.len(), 0);
}
