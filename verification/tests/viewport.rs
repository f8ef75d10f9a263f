use loctui::fixed::UNIT;
use loctui::model::geometry::Point;
use loctui::model::inspect_screen::InspectScreen;
use loctui::model::main_screen::MainScreen;
use loctui::model::summary_screen::SummaryScreen;
use loctui::model::Screen;
use loctui::view::{
    compute_viewport, error_text, id_text, name_text, screen_viewport, MapKind, Viewport,
};

fn units(v: f64) -> i64 {
    (v * UNIT as f64).round() as i64
}

fn wide(v: f64) -> i128 {
    units(v) as i128
}

#[test]
fn world_fills_a_canvas_of_100_by_30() {
    let view = compute_viewport(MapKind::World, Point::new(0, 0), Point::new(0, 0), UNIT, 100, 30);
    assert_eq!(view.x_bounds, (wide(-180.0), wide(180.0)));
    assert_eq!(view.y_bounds, (wide(-90.0), wide(90.0)));
}

#[test]
fn world_viewport_follows_the_formula() {
    // centre (174.76 + 1, -36.85 - 2); half width 60/100 * 180 * 0.7 = 75.6;
    // half height 20/30 * 90 * 0.7 = 42
    let view = compute_viewport(
        MapKind::World,
        Point::new(units(174.76), units(-36.85)),
        Point::new(units(1.0), units(-2.0)),
        units(0.7),
        60,
        20,
    );
    assert_eq!(view.x_bounds, (wide(175.76 - 75.6), wide(175.76 + 75.6)));
    assert_eq!(view.y_bounds, (wide(-38.85 - 42.0), wide(-38.85 + 42.0)));
}

#[test]
fn outline_viewport_spans_one_unit_per_cell() {
    // half width 60 * 2 = 120, half height 20 * 2 = 40
    let view = compute_viewport(
        MapKind::Outline,
        Point::new(units(5.0), units(5.0)),
        Point::new(units(2.0), 0),
        units(2.0),
        60,
        20,
    );
    assert_eq!(view.x_bounds, (wide(7.0 - 120.0), wide(7.0 + 120.0)));
    assert_eq!(view.y_bounds, (wide(5.0 - 40.0), wide(5.0 + 40.0)));
}

#[test]
fn viewport_is_symmetric_around_its_centre() {
    let focals = [Point::new(0, 0), Point::new(units(174.76), units(-36.85)), Point::new(i64::MAX, i64::MIN)];
    let offsets = [Point::new(0, 0), Point::new(-7, 11), Point::new(i64::MAX, i64::MIN)];
    let scales = [UNIT, 1, 3, -UNIT, 0, i64::MAX, i64::MIN];
    let sizes = [(0u16, 0u16), (1, 1), (7, 3), (100, 30), (u16::MAX, u16::MAX)];
    for kind in [MapKind::World, MapKind::Outline] {
        for focal in focals {
            for offset in offsets {
                for scale in scales {
                    for (w, h) in sizes {
                        let view = compute_viewport(kind, focal, offset, scale, w, h);
                        let x = focal.x as i128 + offset.x as i128;
                        let y = focal.y as i128 + offset.y as i128;
                        assert_eq!(x - view.x_bounds.0, view.x_bounds.1 - x);
                        assert_eq!(y - view.y_bounds.0, view.y_bounds.1 - y);
                    }
                }
            }
        }
    }
}

#[test]
fn world_half_width_is_rounded_to_the_nearest_count() {
    // 1 cell at a scale of 3 counts: 1.8 * 3 = 5.4 -> 5; at 7 counts: 12.6 -> 13
    let view = compute_viewport(MapKind::World, Point::new(0, 0), Point::new(0, 0), 3, 1, 1);
    assert_eq!(view.x_bounds, (-5, 5));
    assert_eq!(view.y_bounds, (-9, 9));
    let view = compute_viewport(MapKind::World, Point::new(0, 0), Point::new(0, 0), 7, 1, 1);
    assert_eq!(view.x_bounds, (-13, 13));
}

#[test]
fn negative_zoom_turns_the_viewport_over() {
    let view = compute_viewport(MapKind::World, Point::new(0, 0), Point::new(0, 0), -UNIT, 100, 30);
    assert_eq!(view.x_bounds, (wide(180.0), wide(-180.0)));
    assert!(!view.contains(Point::new(0, 0)));
}

#[test]
fn viewport_shows_what_lies_within_its_bounds() {
    let view = Viewport { x_bounds: (-10, 10), y_bounds: (0, 5) };
    assert!(view.contains(Point::new(0, 0)));
    assert!(view.contains(Point::new(-10, 5)));
    assert!(view.contains(Point::new(10, 0)));
    assert!(!view.contains(Point::new(11, 0)));
    assert!(!view.contains(Point::new(-11, 0)));
    assert!(!view.contains(Point::new(0, -1)));
    assert!(!view.contains(Point::new(0, 6)));
}

#[test]
fn each_screen_has_its_own_viewport() {
    assert_eq!(screen_viewport(&Screen::Main(MainScreen::new(0, None)), 100, 30), None);

    let mut summary = SummaryScreen::new("a".to_string(), None, Some(Point::new(units(10.0), 0)));
    summary.map_offset = Point::new(0, units(1.0));
    let view = screen_viewport(&Screen::Summary(summary), 100, 30);
    assert_eq!(
        view,
        Some(Viewport {
            x_bounds: (wide(10.0 - 180.0), wide(10.0 + 180.0)),
            y_bounds: (wide(1.0 - 90.0), wide(1.0 + 90.0)),
        })
    );

    let bare = SummaryScreen::new("a".to_string(), None, None);
    let view = screen_viewport(&Screen::Summary(bare), 100, 30);
    assert_eq!(
        view,
        Some(Viewport { x_bounds: (wide(-180.0), wide(180.0)), y_bounds: (wide(-90.0), wide(90.0)) })
    );

    let mut inspect = InspectScreen::new("a".to_string(), None, Some(Point::new(units(5.0), units(5.0))));
    inspect.map_offset = Point::new(units(-1.0), 0);
    let view = screen_viewport(&Screen::Inspect(inspect), 60, 20);
    assert_eq!(
        view,
        Some(Viewport {
            x_bounds: (wide(4.0 - 60.0), wide(4.0 + 60.0)),
            y_bounds: (wide(5.0 - 20.0), wide(5.0 + 20.0)),
        })
    );
}

#[test]
fn texts_have_placeholders() {
    assert_eq!(id_text(&Some("001".to_string())), "001");
    assert_eq!(id_text(&None), "No matching id found");
    assert_eq!(name_text(&Some("Auckland".to_string())), "Auckland");
    assert_eq!(name_text(&None), "No Name Found");
    assert_eq!(error_text(&Some("No More IDs!".to_string())), "No More IDs!");
    assert_eq!(error_text(&None), "No errors");
}
