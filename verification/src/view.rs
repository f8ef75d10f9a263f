//! What a frame shows: the part of the map that the canvas covers, and the
//! texts beside it.

use vstd::prelude::*;
use crate::fixed::{div_rounded, lemma_rounded_quotient_is_nearest, rounded_quotient};
use crate::model::geometry::Point;
use crate::model::{text_of, Screen, ScreenView};

verus! {

/// How a map is laid out on the canvas.
#[derive(Debug, Clone, Copy, PartialEq, Eq, Structural)]
pub enum MapKind {
    /// The world map, in degrees. A canvas of 100 by 30 cells shows the whole
    /// world at zoom factor one.
    World,
    /// A drawing in local units, the same along both axes: each cell of the
    /// canvas spans one unit at zoom factor one.
    Outline,
}

/// The part of the map that the canvas covers: the lowest and the highest
/// coordinate shown along each axis.
#[derive(Debug, Clone, Copy, PartialEq, Eq)]
pub struct Viewport {
    pub x_bounds: (i128, i128),
    pub y_bounds: (i128, i128),
}

/// Half the width of the map that a canvas `width` cells wide shows at the
/// zoom factor `scale`.
pub open spec fn half_width(kind: MapKind, scale: int, width: int) -> int {
    match kind {
        MapKind::World => rounded_quotient(width * 180 * scale, 100),
        MapKind::Outline => width * scale,
    }
}

/// Half the height of the map that a canvas `height` cells high shows at the
/// zoom factor `scale`.
pub open spec fn half_height(kind: MapKind, scale: int, height: int) -> int {
    match kind {
        MapKind::World => rounded_quotient(height * 90 * scale, 30),
        MapKind::Outline => height * scale,
    }
}

/// The viewport of a canvas of `width` by `height` cells: centred on the
/// focal point moved by the pan offset, and reaching half the shown width and
/// height to either side.
pub open spec fn viewport_of(
    kind: MapKind,
    focal: Point,
    pan_offset: Point,
    scale: i64,
    width: u16,
    height: u16,
) -> Viewport {
    let x = focal.x + pan_offset.x;
    let y = focal.y + pan_offset.y;
    let w = half_width(kind, scale as int, width as int);
    let h = half_height(kind, scale as int, height as int);
    Viewport {
        x_bounds: ((x - w) as i128, (x + w) as i128),
        y_bounds: ((y - h) as i128, (y + h) as i128),
    }
}

/// The half extents of a viewport stay below 2^96 in magnitude, far within
/// an `i128`, whatever the zoom factor and the size of the canvas.
proof fn lemma_half_extent_bounded(scale: int, cells: int, per_cell: int, cells_per_whole: int)
    requires
        i64::MIN <= scale <= i64::MAX,
        0 <= cells <= u16::MAX,
        0 < per_cell <= 180,
        0 < cells_per_whole,
    ensures
        -0x1_0000_0000_0000_0000_0000_0000 < cells * per_cell * scale
            < 0x1_0000_0000_0000_0000_0000_0000,
        -0x1_0000_0000_0000_0000_0000_0000 < rounded_quotient(
            cells * per_cell * scale,
            cells_per_whole,
        ) < 0x1_0000_0000_0000_0000_0000_0000,
        -0x1_0000_0000_0000_0000_0000_0000 < cells * scale < 0x1_0000_0000_0000_0000_0000_0000,
{
    let n = cells * per_cell * scale;
    assert(-0x1_0000_0000_0000_0000_0000_0000 < n < 0x1_0000_0000_0000_0000_0000_0000
        && -0x1_0000_0000_0000_0000_0000_0000 < cells * scale
        < 0x1_0000_0000_0000_0000_0000_0000) by (nonlinear_arith)
        requires
            n == cells * per_cell * scale,
            -0x8000_0000_0000_0000 <= scale < 0x8000_0000_0000_0000,
            0 <= cells < 0x1_0000,
            0 < per_cell <= 180,
    {
        assert(0 <= cells * per_cell <= 0xffff * 180);
    }
    lemma_rounded_quotient_is_nearest(n, cells_per_whole);
    let k = rounded_quotient(n, cells_per_whole);
    assert(-0x1_0000_0000_0000_0000_0000_0000 < k < 0x1_0000_0000_0000_0000_0000_0000)
        by (nonlinear_arith)
        requires
            -0x1_0000_0000_0000_0000_0000_0000 < n < 0x1_0000_0000_0000_0000_0000_0000,
            cells_per_whole >= 1,
            -cells_per_whole <= 2 * (n - k * cells_per_whole) < cells_per_whole,
    ;
}

/// A viewport lies evenly around its centre, the focal point moved by the
/// pan offset, along both axes.
pub proof fn lemma_viewport_symmetric(
    kind: MapKind,
    focal: Point,
    pan_offset: Point,
    scale: i64,
    width: u16,
    height: u16,
)
    ensures
        ({
            let view = viewport_of(kind, focal, pan_offset, scale, width, height);
            let x = focal.x + pan_offset.x;
            let y = focal.y + pan_offset.y;
            &&& x - view.x_bounds.0 == view.x_bounds.1 - x == half_width(
                kind,
                scale as int,
                width as int,
            )
            &&& y - view.y_bounds.0 == view.y_bounds.1 - y == half_height(
                kind,
                scale as int,
                height as int,
            )
        }),
{
    lemma_half_extent_bounded(scale as int, width as int, 180, 100);
    lemma_half_extent_bounded(scale as int, height as int, 90, 30);
}

/// Computes the part of the map that a canvas of `canvas_width` by
/// `canvas_height` cells covers.
pub fn compute_viewport(
    kind: MapKind,
    focal: Point,
    pan_offset: Point,
    zoom_scale: i64,
    canvas_width: u16,
    canvas_height: u16,
) -> (view: Viewport)
    ensures
        view == viewport_of(kind, focal, pan_offset, zoom_scale, canvas_width, canvas_height),
{
    let x: i128 = focal.x as i128 + pan_offset.x as i128;
    let y: i128 = focal.y as i128 + pan_offset.y as i128;
    let scale: i128 = zoom_scale as i128;
    proof {
        lemma_half_extent_bounded(scale as int, canvas_width as int, 180, 100);
        lemma_half_extent_bounded(scale as int, canvas_height as int, 90, 30);
    }
    let w: i128 = match kind {
        MapKind::World => div_rounded(canvas_width as i128 * 180 * scale, 100),
        MapKind::Outline => canvas_width as i128 * scale,
    };
    let h: i128 = match kind {
        MapKind::World => div_rounded(canvas_height as i128 * 90 * scale, 30),
        MapKind::Outline => canvas_height as i128 * scale,
    };
    Viewport { x_bounds: (x - w, x + w), y_bounds: (y - h, y + h) }
}

impl Viewport {
    /// Whether `p` is shown: a point outside is not drawn.
    pub open spec fn shows(&self, p: Point) -> bool {
        &&& self.x_bounds.0 <= p.x <= self.x_bounds.1
        &&& self.y_bounds.0 <= p.y <= self.y_bounds.1
    }

    /// Tells whether `p` is shown.
    pub fn contains(&self, p: Point) -> (shown: bool)
        ensures
            shown == self.shows(p),
    {
        self.x_bounds.0 <= p.x as i128 && p.x as i128 <= self.x_bounds.1 && self.y_bounds.0
            <= p.y as i128 && p.y as i128 <= self.y_bounds.1
    }
}

/// The point that the map of a screen is centred on before it is panned: the
/// position of the location, or the origin where it has none.
pub open spec fn focal_point(coord: Option<Point>) -> Point {
    match coord {
        Some(p) => p,
        None => Point::origin(),
    }
}

/// The viewport of the map that `screen` shows on a canvas of `width` by
/// `height` cells. The browsing screen shows no map.
pub open spec fn screen_viewport_of(screen: ScreenView, width: u16, height: u16) -> Option<
    Viewport,
> {
    match screen {
        ScreenView::Main(_) => None,
        ScreenView::Summary(s) => Some(
            viewport_of(
                MapKind::World,
                focal_point(s.coord),
                s.map_offset,
                s.map_scale,
                width,
                height,
            ),
        ),
        ScreenView::Inspect(s) => Some(
            viewport_of(
                MapKind::Outline,
                focal_point(s.coord),
                s.map_offset,
                s.map_scale,
                width,
                height,
            ),
        ),
    }
}

/// Computes the viewport of the map that `screen` shows.
pub fn screen_viewport(screen: &Screen, width: u16, height: u16) -> (view: Option<Viewport>)
    ensures
        view == screen_viewport_of(screen@, width, height),
{
    match screen {
        Screen::Main(_) => None,
        Screen::Summary(s) => {
            let focal: Point = match s.coord {
                Some(p) => p,
                None => Point::new(0, 0),
            };
            Some(compute_viewport(MapKind::World, focal, s.map_offset, s.map_scale, width, height))
        },
        Screen::Inspect(s) => {
            let focal: Point = match s.coord {
                Some(p) => p,
                None => Point::new(0, 0),
            };
            Some(
                compute_viewport(MapKind::Outline, focal, s.map_offset, s.map_scale, width, height),
            )
        },
    }
}

/// The text shown for `text`: its own, or `placeholder` where there is none.
pub open spec fn shown_text(text: Option<Seq<char>>, placeholder: Seq<char>) -> Seq<char> {
    match text {
        Some(s) => s,
        None => placeholder,
    }
}

fn text_or(text: &Option<String>, placeholder: &str) -> (shown: String)
    ensures
        shown@ == shown_text(text_of(*text), placeholder@),
{
    match text {
        Some(s) => s.clone(),
        None => placeholder.to_string(),
    }
}

/// The text shown for the identifier on the browsing screen.
pub fn id_text(id: &Option<String>) -> (shown: String)
    ensures
        shown@ == shown_text(text_of(*id), "No matching id found"@),
{
    text_or(id, "No matching id found")
}

/// The text shown for the name of a location.
pub fn name_text(name: &Option<String>) -> (shown: String)
    ensures
        shown@ == shown_text(text_of(*name), "No Name Found"@),
{
    text_or(name, "No Name Found")
}

/// The text shown for the message of the last refusal.
pub fn error_text(err_msg: &Option<String>) -> (shown: String)
    ensures
        shown@ == shown_text(text_of(*err_msg), "No errors"@),
{
    text_or(err_msg, "No errors")
}

} // verus!
