//! The catalogue of locations that the screens browse.

pub mod dict_db;

use vstd::prelude::*;
use crate::model::geometry::{Point, Polygon};
use crate::model::text_of;

verus! {

/// A read-only catalogue of locations. A lookup that finds nothing says so
/// with `None`; it never fails. Asking twice gives the same answer, so each
/// answer has a name below that contracts can speak of.
pub trait DbConnection {
    /// The identifier stored at position `idx` of the catalogue's list.
    spec fn id_at(&self, idx: usize) -> Option<Seq<char>>;

    /// The display name of the location `id`.
    spec fn name_of(&self, id: Seq<char>) -> Option<Seq<char>>;

    /// The position of the location `id`.
    spec fn latlng_of(&self, id: Seq<char>) -> Option<Point>;

    /// The boundary outlines of the location `id`.
    spec fn polygons_of(&self, id: Seq<char>) -> Option<Seq<Seq<Point>>>;

    fn get_id(&self, idx: &usize) -> (id: Option<String>)
        ensures
            text_of(id) == self.id_at(*idx),
    ;

    fn get_name(&self, key: &String) -> (name: Option<String>)
        ensures
            text_of(name) == self.name_of(key@),
    ;

    fn get_latlng(&self, id: &String) -> (coord: Option<Point>)
        ensures
            coord == self.latlng_of(id@),
    ;

    fn get_polygons(&self, id: &String) -> (polygons: Option<Vec<Polygon>>)
        ensures
            polygons.deep_view() == self.polygons_of(id@),
    ;
}

} // verus!
