use tessellate_shapes::{
    default_start_angle, side_tex_x, stroke_vertex, BezierBuilder, BezierSegment, Bounds, CircleBuilder, Circle,
    ControlPoint, Error, FreePolyBuilder, LineSegment, LineSegmentBuilder, Options, Outline, PathEvent, Point, Rect,
    RegularPolyBuilder, Ring, RingPoint, RoundRectBuilder, Scalar, Side, StarBuilder, StrokeOptions, Tessellation,
};

fn s(v: f32) -> Scalar {
    Scalar::from_bits(v.to_bits())
}

fn f(v: Scalar) -> f32 {
    f32::from_bits(v.to_bits())
}

fn pt(x: f32, y: f32) -> Point {
    Point::new(s(x), s(y))
}

fn ring_of(outline: &Outline) -> (Circle, Scalar, Scalar, Vec<RingPoint>) {
    match outline {
        Outline::Ring { circle, inner_radius_ratio, start_angle, points } => {
            (*circle, *inner_radius_ratio, *start_angle, points.clone())
        }
        other => panic!("expected a ring, got {:?}", other),
    }
}

/// Where a ring point lands, by plain float trigonometry.
fn resolve(circle: Circle, ratio: Scalar, start: Scalar, p: RingPoint) -> (f32, f32) {
    let radius = match p.ring {
        Ring::Outer => f(circle.radius),
        Ring::Inner => f(circle.radius) * f(ratio),
    };
    let angle = f(start) + std::f32::consts::TAU * p.step as f32 / p.steps as f32;
    (f(circle.center.x) + radius * angle.cos(), f(circle.center.y) - radius * angle.sin())
}

fn close(a: (f32, f32), b: (f32, f32)) -> bool {
    (a.0 - b.0).abs() < 1e-4 && (a.1 - b.1).abs() < 1e-4
}

#[test]
fn square_of_radius_ten_has_four_corners() {
    let plan = RegularPolyBuilder::new(4)
        .with_center_and_radius(pt(0.0, 0.0), s(10.0))
        .with_rotation(s(0.0))
        .with_fill()
        .plan()
        .unwrap();
    let (circle, ratio, start, points) = ring_of(&plan.outline);
    assert_eq!(points.len(), 4);
    let expected = [(10.0, 0.0), (0.0, -10.0), (-10.0, 0.0), (0.0, 10.0)];
    for (k, p) in points.iter().enumerate() {
        assert_eq!(p.ring, Ring::Outer);
        assert_eq!(p.step, k as u64);
        assert_eq!(p.steps, 4);
        assert!(close(resolve(circle, ratio, start, *p), expected[k]));
    }
    match plan.tessellation {
        Tessellation::Fill { params, bounds } => {
            assert_eq!(params.tolerance.to_bits(), 0.1f32.to_bits());
            assert_eq!(bounds, Bounds::CircleBox(circle));
        }
        other => panic!("expected a fill, got {:?}", other),
    }
}

#[test]
fn hexagon_corners_are_evenly_spaced_on_the_circle() {
    let builder = RegularPolyBuilder::hexagon().with_center_and_radius(pt(3.0, -2.0), s(7.5));
    let points = builder.points();
    assert_eq!(points.len(), 6);
    let (circle, ratio, start, _) = ring_of(&builder.plan().unwrap().outline);
    for (k, p) in points.iter().enumerate() {
        assert_eq!((p.ring, p.step, p.steps), (Ring::Outer, k as u64, 6));
        let (x, y) = resolve(circle, ratio, start, *p);
        let d = ((x - 3.0).powi(2) + (y + 2.0).powi(2)).sqrt();
        assert!((d - 7.5).abs() < 1e-4);
    }
}

#[test]
fn default_polygon_is_a_north_pointing_triangle() {
    let b = RegularPolyBuilder::default();
    assert_eq!(b.sides, 3);
    assert_eq!(f(b.circle.radius), 50.0);
    assert_eq!(b.start_angle, default_start_angle());
    assert_eq!(
        default_start_angle().to_bits(),
        gee::Direction::North.angle::<f32>().radians().to_bits()
    );
    assert_eq!(RegularPolyBuilder::decagon().sides, 10);
    assert_eq!(RegularPolyBuilder::octagon().sides, 8);
    assert_eq!(RegularPolyBuilder::pentagon().sides, 5);
    assert_eq!(RegularPolyBuilder::square().sides, 4);
    assert_eq!(RegularPolyBuilder::triangle().sides, 3);
}

#[test]
fn five_tip_star_alternates_radius_ten_and_five() {
    let plan = StarBuilder::new(5)
        .with_center_and_radius(pt(0.0, 0.0), s(10.0))
        .with_inner_radius_ratio(s(0.5))
        .plan()
        .unwrap();
    let (circle, ratio, start, points) = ring_of(&plan.outline);
    assert_eq!(points.len(), 10);
    for (j, p) in points.iter().enumerate() {
        assert_eq!(p.step, j as u64);
        assert_eq!(p.steps, 10);
        let want = if j % 2 == 0 { 10.0 } else { 5.0 };
        assert_eq!(p.ring, if j % 2 == 0 { Ring::Outer } else { Ring::Inner });
        let (x, y) = resolve(circle, ratio, start, *p);
        assert!(((x * x + y * y).sqrt() - want).abs() < 1e-4);
    }
    // Each inner corner sits π/5 after the tip before it.
    let a0 = f(start) + std::f32::consts::TAU * points[0].step as f32 / 10.0;
    let a1 = f(start) + std::f32::consts::TAU * points[1].step as f32 / 10.0;
    assert!((a1 - a0 - std::f32::consts::PI / 5.0).abs() < 1e-5);
}

#[test]
fn hexagram_has_twelve_corners() {
    let b = StarBuilder::hexagram();
    assert_eq!(b.tips, 6);
    assert_eq!(b.points().len(), 12);
    assert_eq!(StarBuilder::pentagram().tips, 5);
    assert_eq!(f(StarBuilder::default().inner_radius_over_radius), 0.5);
}

#[test]
fn filling_a_line_segment_is_refused() {
    let line = LineSegment::new(pt(0.0, 0.0), pt(10.0, 0.0));
    let r = LineSegmentBuilder::new(line).with_fill().plan();
    assert_eq!(r.unwrap_err(), Error::FillNotSupported);
}

#[test]
fn stroking_a_line_segment_plans_the_segment() {
    let line = LineSegment::new(pt(0.0, 0.0), pt(10.0, 0.0));
    let plan = LineSegmentBuilder::new(line).with_stroke(s(2.0)).plan().unwrap();
    match plan.outline {
        Outline::Segment(l) => assert_eq!(l, line),
        other => panic!("expected a segment, got {:?}", other),
    }
    match plan.tessellation {
        Tessellation::Stroke { params, texture_aspect_ratio } => {
            assert_eq!(f(params.line_width), 2.0);
            assert_eq!(f(texture_aspect_ratio), 1.0);
        }
        other => panic!("expected a stroke, got {:?}", other),
    }
}

#[test]
fn default_line_segment_is_stroked() {
    let b = LineSegmentBuilder::default();
    assert_eq!(f(b.line.to.x), 100.0);
    let so = b.options.stroke_options.unwrap();
    assert_eq!((f(so.stroke_width), f(so.texture_aspect_ratio)), (1.0, 1.0));
    match b.plan().unwrap().tessellation {
        Tessellation::Stroke { params, .. } => assert_eq!(f(params.line_width), 1.0),
        other => panic!("expected a stroke, got {:?}", other),
    }
}

#[test]
fn filling_a_bezier_path_is_refused() {
    let r = BezierBuilder::from_quadratic_segment(pt(0.0, 0.0), pt(10.0, 0.0), pt(5.0, 5.0)).plan();
    assert_eq!(r.unwrap_err(), Error::FillNotSupported);
}

#[test]
fn bezier_path_emits_one_command_per_segment() {
    let b = BezierBuilder::new(pt(0.0, 0.0))
        .with_quadratic_segment(pt(10.0, 0.0), pt(5.0, 5.0))
        .with_cubic_segment(pt(20.0, 0.0), pt(12.0, -4.0), pt(18.0, 4.0))
        .with_stroke_open(s(1.5));
    let plan = b.plan().unwrap();
    let events = match plan.outline {
        Outline::Path(events) => events,
        other => panic!("expected a path, got {:?}", other),
    };
    assert_eq!(
        events,
        vec![
            PathEvent::Begin { at: pt(0.0, 0.0) },
            PathEvent::QuadraticTo { ctrl: pt(5.0, 5.0), to: pt(10.0, 0.0) },
            PathEvent::CubicTo { ctrl1: pt(12.0, -4.0), ctrl2: pt(18.0, 4.0), to: pt(20.0, 0.0) },
            PathEvent::End { close: false },
        ]
    );
}

#[test]
fn bezier_segments_keep_their_order() {
    let segs = vec![
        BezierSegment::cubic(pt(1.0, 1.0), pt(0.0, 1.0), pt(1.0, 0.0)),
        BezierSegment::new(pt(2.0, 0.0), ControlPoint::Quadratic(pt(1.5, 2.0))),
    ];
    let b = BezierBuilder::from_bezier_segments(pt(0.0, 0.0), segs.clone()).with_stroke_closed(s(1.0));
    assert_eq!(b.segments, segs);
    assert_eq!(b.events().last(), Some(&PathEvent::End { close: true }));
}

#[test]
fn round_rect_with_zero_radii_keeps_the_plain_rectangle() {
    let rect = Rect::from_top_right_bottom_left(s(0.0), s(20.0), s(10.0), s(0.0));
    let plan = RoundRectBuilder::new(rect).with_uniform_radius(s(0.0)).plan().unwrap();
    match plan.outline {
        Outline::RoundedRect { rect: r, radii } => {
            assert_eq!(r, rect);
            for v in [radii.top_left, radii.top_right, radii.bottom_right, radii.bottom_left] {
                assert_eq!(f(v), 0.0);
            }
        }
        other => panic!("expected a rounded rectangle, got {:?}", other),
    }
    assert_eq!(plan.tessellation, Tessellation::Fill {
        params: Options::new().fill_options(),
        bounds: Bounds::Rect(rect),
    });
}

#[test]
fn round_rect_sets_each_corner() {
    let b = RoundRectBuilder::default()
        .with_top_radius(s(1.0))
        .with_bottom_radius(s(2.0))
        .with_left_radius(s(3.0));
    assert_eq!(
        [f(b.top_left_radius), f(b.top_right_radius), f(b.bottom_right_radius), f(b.bottom_left_radius)],
        [3.0, 1.0, 2.0, 3.0]
    );
    let b = b.with_right_radius(s(4.0)).with_clockwise_radii(s(5.0), s(6.0), s(7.0), s(8.0));
    let r = b.radii();
    assert_eq!([f(r.top_left), f(r.top_right), f(r.bottom_right), f(r.bottom_left)], [5.0, 6.0, 7.0, 8.0]);
    assert_eq!(f(RoundRectBuilder::default().bounding_rect().right), 90.0);
}

#[test]
fn free_poly_grows_its_bounding_rect_point_by_point() {
    let b = FreePolyBuilder::new().with_point(pt(0.0, 0.0));
    assert_eq!(b.bounding_rect, None);
    assert_eq!(b.bounding_rect(), Rect::zero());
    let b = b.with_point(pt(10.0, 5.0));
    assert_eq!(b.bounding_rect, Some(Rect::from_top_right_bottom_left(s(0.0), s(10.0), s(5.0), s(0.0))));
    let b = b.with_point(pt(-3.0, 2.0)).with_point(pt(4.0, -1.0));
    assert_eq!(b.bounding_rect, Some(Rect::from_top_right_bottom_left(s(-1.0), s(10.0), s(5.0), s(-3.0))));
    match b.plan().unwrap().tessellation {
        Tessellation::Fill { bounds, .. } => {
            assert_eq!(bounds, Bounds::Rect(Rect::from_top_right_bottom_left(s(-1.0), s(10.0), s(5.0), s(-3.0))))
        }
        other => panic!("expected a fill, got {:?}", other),
    }
}

#[test]
fn free_poly_from_line_segments_takes_both_endpoints() {
    let lines = vec![
        LineSegment::new(pt(0.0, 0.0), pt(1.0, 0.0)),
        LineSegment::new(pt(1.0, 1.0), pt(0.0, 1.0)),
    ];
    let b = FreePolyBuilder::from_line_segments(lines).with_stroke_open(s(1.0));
    assert_eq!(b.points, vec![pt(0.0, 0.0), pt(1.0, 0.0), pt(1.0, 1.0), pt(0.0, 1.0)]);
    match b.plan().unwrap().outline {
        Outline::Polygon { points, closed } => {
            assert_eq!(points.len(), 4);
            assert!(!closed);
        }
        other => panic!("expected a polygon, got {:?}", other),
    }
}

#[test]
fn free_poly_closed_stroke_closes_the_outline() {
    let b = FreePolyBuilder::from_points(vec![pt(0.0, 0.0), pt(2.0, 0.0), pt(1.0, 1.0)])
        .with_stroke_opts_closed(StrokeOptions::new(s(3.0)).with_texture_aspect_ratio(s(2.0)));
    match b.plan().unwrap().outline {
        Outline::Polygon { closed, .. } => assert!(closed),
        other => panic!("expected a polygon, got {:?}", other),
    }
}

#[test]
fn circle_plans_fill_against_its_box() {
    let c = Circle::new(pt(1.0, 2.0), s(3.0));
    let plan = CircleBuilder::new(c).with_tolerance(s(0.5)).plan().unwrap();
    match plan.outline {
        Outline::Circle(got) => assert_eq!(got, c),
        other => panic!("expected a circle, got {:?}", other),
    }
    match plan.tessellation {
        Tessellation::Fill { params, bounds } => {
            assert_eq!(f(params.tolerance), 0.5);
            assert_eq!(bounds, Bounds::CircleBox(c));
        }
        other => panic!("expected a fill, got {:?}", other),
    }
}

#[test]
fn options_switch_between_fill_and_stroke() {
    let o = Options::new();
    assert_eq!(o.stroke_options, None);
    assert_eq!(o.tolerance.to_bits(), lyon_tessellation::FillOptions::DEFAULT_TOLERANCE.to_bits());
    let o = o.with_stroke_opts(StrokeOptions::default().with_texture_aspect_ratio(s(4.0))).with_stroke(s(2.0));
    let so = o.stroke_options.unwrap();
    assert_eq!((f(so.stroke_width), f(so.texture_aspect_ratio)), (2.0, 4.0));
    assert_eq!(f(o.stroke_options().line_width), 2.0);
    let o = o.with_fill();
    assert_eq!(o.stroke_options, None);
    let o = o.with_stroke(s(3.0));
    assert_eq!(f(o.stroke_options.unwrap().texture_aspect_ratio), 1.0);
    assert_eq!(f(o.with_tolerance(s(0.25)).tolerance), 0.25);
}

#[test]
fn stroke_tex_x_is_one_on_the_left_and_zero_on_the_right() {
    assert_eq!(f(side_tex_x(Side::Left)), 1.0);
    assert_eq!(f(side_tex_x(Side::Right)), 0.0);
    let v = stroke_vertex(pt(1.0, 2.0), Side::Left, s(0.75));
    assert_eq!(v.pos, pt(1.0, 2.0));
    assert_eq!((f(v.tex_coord.x), f(v.tex_coord.y)), (1.0, 0.75));
}

#[test]
fn building_twice_gives_the_same_plan() {
    let make = || StarBuilder::new(7).with_stroke(s(2.0)).with_center_and_radius(pt(1.0, 1.0), s(4.0));
    assert_eq!(format!("{:?}", make().plan()), format!("{:?}", make().plan()));
    let poly = || FreePolyBuilder::from_points(vec![pt(0.0, 0.0), pt(3.0, 1.0), pt(1.0, 4.0)]);
    assert_eq!(format!("{:?}", poly().plan()), format!("{:?}", poly().plan()));
}

#[test]
fn scalar_min_and_max_follow_f32() {
    let pairs = [(1.0f32, 2.0f32), (-1.0, -3.0), (-0.5, 0.5), (f32::INFINITY, 3.0), (f32::NAN, 2.0), (2.0, f32::NAN)];
    for (a, b) in pairs {
        assert_eq!(f(s(a).min(s(b))).to_bits(), a.min(b).to_bits());
        assert_eq!(f(s(a).max(s(b))).to_bits(), a.max(b).to_bits());
    }
    assert!(s(0.5).unit_ratio() && s(1.0).unit_ratio() && !s(0.0).unit_ratio() && !s(1.5).unit_ratio());
    assert!(s(0.1).positive_finite() && !s(-0.1).positive_finite() && !s(f32::INFINITY).positive_finite());
    assert!(s(f32::NAN).is_nan_value() && !s(f32::INFINITY).is_nan_value());
}
