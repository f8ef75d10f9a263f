use loctui::fixed::{div_rounded, isqrt, narrow, COORD_LIMIT, TENTH, UNIT};
use loctui::model::geometry::{LineCustom, Point, Polygon};

fn units(v: f64) -> i64 {
    (v * UNIT as f64).round() as i64
}

#[test]
fn rounded_division_goes_to_the_nearest() {
    assert_eq!(div_rounded(7, 2), 4);
    assert_eq!(div_rounded(-7, 2), -3);
    assert_eq!(div_rounded(10, 4), 3);
    assert_eq!(div_rounded(9, 10), 1);
    assert_eq!(div_rounded(4, 10), 0);
    assert_eq!(div_rounded(-5, 10), 0);
    assert_eq!(div_rounded(-6, 10), -1);
    assert_eq!(div_rounded(0, 3), 0);
    assert_eq!(div_rounded(12, 3), 4);
    assert_eq!(div_rounded(-12, 3), -4);
}

#[test]
fn rounded_division_at_the_ends_of_the_range() {
    assert_eq!(div_rounded(i128::MAX, 1), i128::MAX);
    assert_eq!(div_rounded(i128::MIN + 1, 1), i128::MIN + 1);
    assert_eq!(div_rounded(i128::MAX, i128::MAX), 1);
    assert_eq!(div_rounded(1, i128::MAX), 0);
}

#[test]
fn integer_root_is_rounded_down() {
    assert_eq!(isqrt(0), 0);
    assert_eq!(isqrt(1), 1);
    assert_eq!(isqrt(2), 1);
    assert_eq!(isqrt(24), 4);
    assert_eq!(isqrt(25), 5);
    assert_eq!(isqrt(26), 5);
    assert_eq!(isqrt(u128::MAX), u64::MAX);
}

#[test]
fn narrowing_keeps_what_fits() {
    assert_eq!(narrow(0), Some(0));
    assert_eq!(narrow(i64::MAX as i128), Some(i64::MAX));
    assert_eq!(narrow(i64::MIN as i128), Some(i64::MIN));
    assert_eq!(narrow(i64::MAX as i128 + 1), None);
    assert_eq!(narrow(i64::MIN as i128 - 1), None);
}

#[test]
fn a_tenth_is_a_tenth_of_a_unit() {
    assert_eq!(TENTH * 10, UNIT);
}

#[test]
fn point_keeps_its_coordinates() {
    let p = Point::new(3, -4);
    assert_eq!(p.x(), 3);
    assert_eq!(p.y(), -4);
    assert_eq!(p, Point { x: 3, y: -4 });
}

#[test]
fn centroid_of_a_square_is_its_middle() {
    let square = Polygon {
        exterior: vec![
            Point::new(0, 0),
            Point::new(units(10.0), 0),
            Point::new(units(10.0), units(10.0)),
            Point::new(0, units(10.0)),
        ],
    };
    assert_eq!(square.centroid(), Some(Point::new(units(5.0), units(5.0))));
}

#[test]
fn centroid_is_rounded_to_the_nearest_count() {
    let triangle = Polygon {
        exterior: vec![Point::new(0, 0), Point::new(1, 0), Point::new(1, -2)],
    };
    // the means are 2/3 and -2/3
    assert_eq!(triangle.centroid(), Some(Point::new(1, -1)));
    let pair = Polygon { exterior: vec![Point::new(0, 0), Point::new(1, -1)] };
    // the means are 1/2 and -1/2: a tie goes up
    assert_eq!(pair.centroid(), Some(Point::new(1, 0)));
}

#[test]
fn centroid_of_far_vertices_does_not_overflow() {
    let far = Polygon {
        exterior: vec![Point::new(i64::MAX, i64::MIN), Point::new(i64::MAX, i64::MIN)],
    };
    assert_eq!(far.centroid(), Some(Point::new(i64::MAX, i64::MIN)));
}

#[test]
fn ring_without_vertices_has_no_centroid() {
    let empty = Polygon { exterior: vec![] };
    assert_eq!(empty.centroid(), None);
}

#[test]
fn clone_of_a_polygon_has_the_same_vertices() {
    let ring = Polygon { exterior: vec![Point::new(1, 2), Point::new(3, 4)] };
    let copy = ring.clone();
    assert_eq!(copy.exterior, ring.exterior);
}

#[test]
fn edges_close_the_ring() {
    let ring = Polygon {
        exterior: vec![Point::new(0, 0), Point::new(10, 0), Point::new(10, 10)],
    };
    let edges = ring.edges(UNIT);
    assert_eq!(
        edges,
        vec![
            LineCustom::new(0, 0, 10, 0, UNIT),
            LineCustom::new(10, 0, 10, 10, UNIT),
            LineCustom::new(10, 10, 0, 0, UNIT),
        ]
    );
}

#[test]
fn ring_of_one_vertex_has_one_edge_of_length_zero() {
    let ring = Polygon { exterior: vec![Point::new(7, 8)] };
    let edges = ring.edges(UNIT);
    assert_eq!(edges, vec![LineCustom::new(7, 8, 7, 8, UNIT)]);
    assert_eq!(edges[0].n_points(), 1);
    let none = Polygon { exterior: vec![] };
    assert!(none.edges(UNIT).is_empty());
}

#[test]
fn edge_of_length_zero_has_one_sample() {
    let line = LineCustom::new(5, 5, 5, 5, UNIT);
    assert!(line.is_drawable());
    assert_eq!(line.edge_length(), 0);
    assert_eq!(line.n_points(), 1);
    assert_eq!(line.point(0), Point::new(5, 5));
}

#[test]
fn edge_length_is_the_euclidean_distance() {
    let line = LineCustom::new(0, 0, units(3.0), units(4.0), UNIT);
    assert_eq!(line.edge_length(), units(5.0) as u64);
    let back = LineCustom::new(units(3.0), units(4.0), 0, 0, UNIT);
    assert_eq!(back.edge_length(), units(5.0) as u64);
    // the root of 2 is 1.41421356...
    let diagonal = LineCustom::new(0, 0, units(1.0), units(1.0), UNIT);
    assert_eq!(diagonal.edge_length(), 1_414_213);
}

#[test]
fn sample_count_is_one_more_than_25_per_unit_of_apparent_length() {
    // length 10 at zoom 1: 1 + 250
    assert_eq!(LineCustom::new(0, 0, units(10.0), 0, UNIT).n_points(), 251);
    // length 10 at zoom 2: 1 + 125
    assert_eq!(LineCustom::new(0, 0, units(10.0), 0, 2 * UNIT).n_points(), 126);
    // length 10 at zoom 0.5: 1 + 500
    assert_eq!(LineCustom::new(0, 0, units(10.0), 0, UNIT / 2).n_points(), 501);
    // length 0.1 at zoom 1: 1 + round(2.5) = 4
    assert_eq!(LineCustom::new(0, 0, TENTH, 0, UNIT).n_points(), 4);
    // length 0.01 at zoom 1: 1 + round(0.25) = 1
    assert_eq!(LineCustom::new(0, 0, 10_000, 0, UNIT).n_points(), 1);
}

#[test]
fn zooming_in_never_takes_samples_away() {
    let mut last: u64 = 0;
    let mut scale: i64 = 4 * UNIT;
    while scale > 0 {
        let n = LineCustom::new(0, 0, units(3.0), units(4.0), scale).n_points();
        assert!(n >= last);
        assert!(n >= 1);
        last = n;
        scale -= TENTH;
    }
    assert_eq!(last, 1 + 25 * 5 * 10);
}

#[test]
fn samples_run_from_the_first_end_towards_the_second() {
    let line = LineCustom::new(0, units(1.0), units(10.0), units(-4.0), UNIT * 50);
    // length 11.18..., at zoom 50: 1 + round(5.59) = 7 samples
    assert_eq!(line.n_points(), 7);
    assert_eq!(line.point(0), Point::new(0, units(1.0)));
    // a seventh of the way: x = 10/7, y = 1 - 5/7
    assert_eq!(line.point(1), Point::new(1_428_571, 285_714));
    assert_eq!(line.point(6), Point::new(8_571_429, -3_285_714));
    for i in 0..7 {
        let p = line.point(i);
        assert!(0 <= p.x && p.x <= units(10.0));
        assert!(units(-4.0) <= p.y && p.y <= units(1.0));
    }
}

#[test]
fn edge_is_drawable_within_the_limits_only() {
    assert!(LineCustom::new(COORD_LIMIT, -COORD_LIMIT, -COORD_LIMIT, COORD_LIMIT, 1).is_drawable());
    assert!(!LineCustom::new(COORD_LIMIT + 1, 0, 0, 0, UNIT).is_drawable());
    assert!(!LineCustom::new(0, -COORD_LIMIT - 1, 0, 0, UNIT).is_drawable());
    assert!(!LineCustom::new(0, 0, COORD_LIMIT + 1, 0, UNIT).is_drawable());
    assert!(!LineCustom::new(0, 0, 0, -COORD_LIMIT - 1, UNIT).is_drawable());
    assert!(!LineCustom::new(0, 0, 1, 1, 0).is_drawable());
    assert!(!LineCustom::new(0, 0, 1, 1, -UNIT).is_drawable());
}

#[test]
fn longest_edge_at_the_closest_zoom_is_sampled_without_overflow() {
    let line = LineCustom::new(-COORD_LIMIT, -COORD_LIMIT, COORD_LIMIT, COORD_LIMIT, 1);
    let length = line.edge_length();
    assert_eq!(length, 2_828_427_124_746_190);
    let n = line.n_points();
    assert_eq!(n, 1 + 25 * length);
    assert_eq!(line.point(0), Point::new(-COORD_LIMIT, -COORD_LIMIT));
    let last = line.point(n - 1);
    assert!(last.x <= COORD_LIMIT && last.x >= COORD_LIMIT - 1);
    assert_eq!(last.x, last.y);
}
