//! A catalogue held in memory.
//!
//! The identifiers form a list that is browsed by position. Names, positions
//! and outlines are each kept as a list of entries under an identifier; the
//! latest entry under an identifier is the one that counts.

use vstd::prelude::*;
use crate::db::DbConnection;
use crate::fixed::UNIT;
use crate::model::geometry::{Point, Polygon};
use crate::model::clone_polygons;

verus! {

/// The value of the latest entry of `entries` under `key`, if there is one.
pub open spec fn latest<V>(entries: Seq<(Seq<char>, V)>, key: Seq<char>) -> Option<V>
    decreases entries.len(),
{
    if entries.len() == 0 {
        None
    } else if entries.last().0 == key {
        Some(entries.last().1)
    } else {
        latest(entries.drop_last(), key)
    }
}

proof fn lemma_latest_found<V>(entries: Seq<(Seq<char>, V)>, key: Seq<char>, at: int)
    requires
        0 <= at < entries.len(),
        entries[at].0 == key,
        forall|j: int| at < j < entries.len() ==> (#[trigger] entries[j]).0 != key,
    ensures
        latest(entries, key) == Some(entries[at].1),
    decreases entries.len(),
{
    if at < entries.len() - 1 {
        lemma_latest_found(entries.drop_last(), key, at);
    }
}

proof fn lemma_latest_missing<V>(entries: Seq<(Seq<char>, V)>, key: Seq<char>)
    requires
        forall|j: int| 0 <= j < entries.len() ==> (#[trigger] entries[j]).0 != key,
    ensures
        latest(entries, key) is None,
    decreases entries.len(),
{
    if entries.len() > 0 {
        lemma_latest_missing(entries.drop_last(), key);
    }
}

/// Finds the place of the latest entry under `key`.
fn find_latest<V>(entries: &Vec<(String, V)>, key: &String) -> (found: Option<usize>)
    ensures
        match found {
            Some(at) => at < entries.len() && entries[at as int].0@ == key@ && forall|j: int|
                at < j < entries.len() ==> (#[trigger] entries[j]).0@ != key@,
            None => forall|j: int| 0 <= j < entries.len() ==> (#[trigger] entries[j]).0@ != key@,
        },
{
    let mut i: usize = entries.len();
    while i > 0
        invariant
            i <= entries.len(),
            forall|j: int| i <= j < entries.len() ==> (#[trigger] entries[j]).0@ != key@,
        decreases i,
    {
        i = i - 1;
        if entries[i].0 == *key {
            return Some(i);
        }
    }
    None
}

/// Where the starting catalogue places Auckland.
pub open spec fn auckland_position() -> Point {
    Point { x: 174_763_336, y: (-36_848_461) as i64 }
}

/// The outlines of the second location of the starting catalogue: two
/// squares with a side of ten units that meet at the origin.
pub open spec fn two_squares() -> Seq<Seq<Point>> {
    seq![
        seq![
            Point { x: 0, y: 0 },
            Point { x: 10_000_000, y: 0 },
            Point { x: 10_000_000, y: 10_000_000 },
            Point { x: 0, y: 10_000_000 },
        ],
        seq![
            Point { x: 0, y: 0 },
            Point { x: (-10_000_000) as i64, y: 0 },
            Point { x: (-10_000_000) as i64, y: (-10_000_000) as i64 },
            Point { x: 0, y: (-10_000_000) as i64 },
        ],
    ]
}

/// A catalogue held in memory.
pub struct DictDb {
    ids: Vec<String>,
    name_data: Vec<(String, String)>,
    loc_data: Vec<(String, Point)>,
    polygons: Vec<(String, Vec<Polygon>)>,
}

impl DictDb {
    /// The identifiers in the order in which they are browsed.
    pub closed spec fn ids(&self) -> Seq<Seq<char>> {
        self.ids@.map_values(|id: String| id@)
    }

    /// The entries that give a location its name.
    pub closed spec fn names(&self) -> Seq<(Seq<char>, Seq<char>)> {
        self.name_data@.map_values(|entry: (String, String)| (entry.0@, entry.1@))
    }

    /// The entries that give a location its position.
    pub closed spec fn locations(&self) -> Seq<(Seq<char>, Point)> {
        self.loc_data@.map_values(|entry: (String, Point)| (entry.0@, entry.1))
    }

    /// The entries that give a location its outlines.
    pub closed spec fn outlines(&self) -> Seq<(Seq<char>, Seq<Seq<Point>>)> {
        self.polygons@.map_values(
            |entry: (String, Vec<Polygon>)| (entry.0@, entry.1.deep_view()),
        )
    }

    /// A catalogue without locations.
    pub fn empty() -> (db: DictDb)
        ensures
            db.ids() == Seq::<Seq<char>>::empty(),
            db.names() == Seq::<(Seq<char>, Seq<char>)>::empty(),
            db.locations() == Seq::<(Seq<char>, Point)>::empty(),
            db.outlines() == Seq::<(Seq<char>, Seq<Seq<Point>>)>::empty(),
    {
        DictDb {
            ids: Vec::new(),
            name_data: Vec::new(),
            loc_data: Vec::new(),
            polygons: Vec::new(),
        }
    }

    /// The catalogue that the application starts with: the two locations
    /// `001` and `010`. The first is Auckland, with its position and the
    /// outlines `auckland`; the second has no name and no position, and two
    /// squares for outlines.
    pub fn new(auckland: Vec<Polygon>) -> (db: DictDb)
        ensures
            db.ids() == seq!["001"@, "010"@],
            db.names() == seq![("001"@, "Auckland"@)],
            db.locations() == seq![("001"@, auckland_position())],
            db.outlines() == seq![("001"@, auckland.deep_view()), ("010"@, two_squares())],
    {
        let mut db: DictDb = DictDb::empty();
        db.push_id("001".to_string());
        db.push_id("010".to_string());
        db.set_name("001".to_string(), "Auckland".to_string());
        db.set_latlng("001".to_string(), Point::new(174_763_336, -36_848_461));
        db.set_polygons("001".to_string(), auckland);
        let side: i64 = 10 * UNIT;
        let mut upper: Vec<Point> = Vec::new();
        upper.push(Point::new(0, 0));
        upper.push(Point::new(side, 0));
        upper.push(Point::new(side, side));
        upper.push(Point::new(0, side));
        let mut lower: Vec<Point> = Vec::new();
        lower.push(Point::new(0, 0));
        lower.push(Point::new(-side, 0));
        lower.push(Point::new(-side, -side));
        lower.push(Point::new(0, -side));
        let mut squares: Vec<Polygon> = Vec::new();
        squares.push(Polygon { exterior: upper });
        squares.push(Polygon { exterior: lower });
        assert(squares[0]@ =~= two_squares()[0]);
        assert(squares[1]@ =~= two_squares()[1]);
        assert(squares.deep_view() =~= two_squares());
        db.set_polygons("010".to_string(), squares);
        db
    }

    /// Appends `id` to the list of identifiers.
    pub fn push_id(&mut self, id: String)
        ensures
            final(self).ids() == old(self).ids().push(id@),
            final(self).names() == old(self).names(),
            final(self).locations() == old(self).locations(),
            final(self).outlines() == old(self).outlines(),
    {
        self.ids.push(id);
    }

    /// Gives the location `id` the name `name`.
    pub fn set_name(&mut self, id: String, name: String)
        ensures
            final(self).ids() == old(self).ids(),
            final(self).names() == old(self).names().push((id@, name@)),
            final(self).locations() == old(self).locations(),
            final(self).outlines() == old(self).outlines(),
    {
        self.name_data.push((id, name));
    }

    /// Gives the location `id` the position `coord`.
    pub fn set_latlng(&mut self, id: String, coord: Point)
        ensures
            final(self).ids() == old(self).ids(),
            final(self).names() == old(self).names(),
            final(self).locations() == old(self).locations().push((id@, coord)),
            final(self).outlines() == old(self).outlines(),
    {
        self.loc_data.push((id, coord));
    }

    /// Gives the location `id` the outlines `polygons`.
    pub fn set_polygons(&mut self, id: String, polygons: Vec<Polygon>)
        ensures
            final(self).ids() == old(self).ids(),
            final(self).names() == old(self).names(),
            final(self).locations() == old(self).locations(),
            final(self).outlines() == old(self).outlines().push((id@, polygons.deep_view())),
    {
        self.polygons.push((id, polygons));
    }
}

impl DbConnection for DictDb {
    open spec fn id_at(&self, idx: usize) -> Option<Seq<char>> {
        if idx < self.ids().len() {
            Some(self.ids()[idx as int])
        } else {
            None
        }
    }

    open spec fn name_of(&self, id: Seq<char>) -> Option<Seq<char>> {
        latest(self.names(), id)
    }

    open spec fn latlng_of(&self, id: Seq<char>) -> Option<Point> {
        latest(self.locations(), id)
    }

    open spec fn polygons_of(&self, id: Seq<char>) -> Option<Seq<Seq<Point>>> {
        latest(self.outlines(), id)
    }

    fn get_id(&self, idx: &usize) -> (id: Option<String>) {
        if *idx < self.ids.len() {
            Some(self.ids[*idx].clone())
        } else {
            None
        }
    }

    fn get_name(&self, key: &String) -> (name: Option<String>) {
        match find_latest(&self.name_data, key) {
            Some(at) => {
                proof {
                    lemma_latest_found(self.names(), key@, at as int);
                }
                Some(self.name_data[at].1.clone())
            },
            None => {
                proof {
                    lemma_latest_missing(self.names(), key@);
                }
                None
            },
        }
    }

    fn get_latlng(&self, id: &String) -> (coord: Option<Point>) {
        match find_latest(&self.loc_data, id) {
            Some(at) => {
                proof {
                    lemma_latest_found(self.locations(), id@, at as int);
                }
                Some(self.loc_data[at].1)
            },
            None => {
                proof {
                    lemma_latest_missing(self.locations(), id@);
                }
                None
            },
        }
    }

    fn get_polygons(&self, id: &String) -> (polygons: Option<Vec<Polygon>>) {
        match find_latest(&self.polygons, id) {
            Some(at) => {
                proof {
                    lemma_latest_found(self.outlines(), id@, at as int);
                }
                Some(clone_polygons(&self.polygons[at].1))
            },
            None => {
                proof {
                    lemma_latest_missing(self.outlines(), id@);
                }
                None
            },
        }
    }
}

} // verus!
