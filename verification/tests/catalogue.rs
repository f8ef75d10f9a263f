use loctui::db::dict_db::DictDb;
use loctui::db::DbConnection;
use loctui::fixed::UNIT;
use loctui::model::geometry::{Point, Polygon};

fn id(text: &str) -> String {
    text.to_string()
}

fn triangle() -> Vec<Polygon> {
    vec![Polygon { exterior: vec![Point::new(0, 0), Point::new(4, 0), Point::new(0, 4)] }]
}

fn rings(polygons: Option<Vec<Polygon>>) -> Option<Vec<Vec<Point>>> {
    polygons.map(|list| list.into_iter().map(|p| p.exterior).collect())
}

#[test]
fn empty_catalogue_finds_nothing() {
    let db = DictDb::empty();
    assert_eq!(db.get_id(&0), None);
    assert_eq!(db.get_name(&id("001")), None);
    assert_eq!(db.get_latlng(&id("001")), None);
    assert!(db.get_polygons(&id("001")).is_none());
}

#[test]
fn identifiers_are_found_by_position() {
    let mut db = DictDb::empty();
    db.push_id(id("a"));
    db.push_id(id("b"));
    db.push_id(id("a"));
    assert_eq!(db.get_id(&0), Some(id("a")));
    assert_eq!(db.get_id(&1), Some(id("b")));
    assert_eq!(db.get_id(&2), Some(id("a")));
    assert_eq!(db.get_id(&3), None);
    assert_eq!(db.get_id(&usize::MAX), None);
}

#[test]
fn latest_entry_under_an_identifier_counts() {
    let mut db = DictDb::empty();
    db.set_name(id("a"), id("first"));
    db.set_name(id("b"), id("other"));
    db.set_name(id("a"), id("second"));
    assert_eq!(db.get_name(&id("a")), Some(id("second")));
    assert_eq!(db.get_name(&id("b")), Some(id("other")));
    assert_eq!(db.get_name(&id("c")), None);

    db.set_latlng(id("a"), Point::new(1, 2));
    db.set_latlng(id("a"), Point::new(3, 4));
    assert_eq!(db.get_latlng(&id("a")), Some(Point::new(3, 4)));
    assert_eq!(db.get_latlng(&id("b")), None);

    db.set_polygons(id("a"), vec![]);
    db.set_polygons(id("a"), triangle());
    assert_eq!(rings(db.get_polygons(&id("a"))), rings(Some(triangle())));
    assert!(db.get_polygons(&id("b")).is_none());
}

#[test]
fn entries_of_one_kind_do_not_show_under_another() {
    let mut db = DictDb::empty();
    db.set_name(id("a"), id("name"));
    assert_eq!(db.get_id(&0), None);
    assert_eq!(db.get_latlng(&id("a")), None);
    assert!(db.get_polygons(&id("a")).is_none());
}

#[test]
fn starting_catalogue_has_two_locations() {
    let db = DictDb::new(triangle());
    assert_eq!(db.get_id(&0), Some(id("001")));
    assert_eq!(db.get_id(&1), Some(id("010")));
    assert_eq!(db.get_id(&2), None);
    assert_eq!(db.get_name(&id("001")), Some(id("Auckland")));
    assert_eq!(db.get_name(&id("010")), None);
    assert_eq!(db.get_latlng(&id("001")), Some(Point::new(174_763_336, -36_848_461)));
    assert_eq!(db.get_latlng(&id("010")), None);
    assert_eq!(rings(db.get_polygons(&id("001"))), rings(Some(triangle())));
    let side = 10 * UNIT;
    assert_eq!(
        rings(db.get_polygons(&id("010"))),
        Some(vec![
            vec![
                Point::new(0, 0),
                Point::new(side, 0),
                Point::new(side, side),
                Point::new(0, side)
            ],
            vec![
                Point::new(0, 0),
                Point::new(-side, 0),
                Point::new(-side, -side),
                Point::new(0, -side)
            ],
        ])
    );
    assert!(db.get_polygons(&id("011")).is_none());
}
