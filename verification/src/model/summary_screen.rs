//! The screen that shows one location on the world map.

use vstd::prelude::*;
use crate::db::DbConnection;
use crate::event_handling::Message;
use crate::fixed::{narrow, narrowed, TENTH, UNIT};
use crate::model::geometry::{centroid_of, Point, Polygon};
use crate::model::inspect_screen::{InspectScreen, InspectScreenView};
use crate::model::{
    clone_text, done, running, text_of, view_limit_reached, AppState, AppStateView, RunningState,
    Screen, ScreenView,
};

verus! {

/// The summary screen: a location as the catalogue had it when the screen
/// was opened, the pan offset and zoom factor of its map, and a message for
/// the user if the last request was refused.
#[derive(Debug)]
pub struct SummaryScreen {
    pub id: String,
    pub name: Option<String>,
    pub coord: Option<Point>,
    pub map_offset: Point,
    pub map_scale: i64,
    pub err_msg: Option<String>,
}

/// What a `SummaryScreen` holds, as plain values.
pub ghost struct SummaryScreenView {
    pub id: Seq<char>,
    pub name: Option<Seq<char>>,
    pub coord: Option<Point>,
    pub map_offset: Point,
    pub map_scale: i64,
    pub err_msg: Option<Seq<char>>,
}

impl View for SummaryScreen {
    type V = SummaryScreenView;

    open spec fn view(&self) -> SummaryScreenView {
        SummaryScreenView {
            id: self.id@,
            name: text_of(self.name),
            coord: self.coord,
            map_offset: self.map_offset,
            map_scale: self.map_scale,
            err_msg: text_of(self.err_msg),
        }
    }
}

/// Shown when the detail view is asked for a location without outlines.
pub open spec fn no_polygons() -> Seq<char> {
    "No polygons found"@
}

impl SummaryScreenView {
    /// The summary of a location as it is first shown: the map neither
    /// panned nor zoomed, and no message.
    pub open spec fn fresh(
        id: Seq<char>,
        name: Option<Seq<char>>,
        coord: Option<Point>,
    ) -> SummaryScreenView {
        SummaryScreenView {
            id,
            name,
            coord,
            map_offset: Point::origin(),
            map_scale: UNIT,
            err_msg: None,
        }
    }

    /// The screen with the message of the last refusal taken away.
    pub open spec fn cleared(self) -> SummaryScreenView {
        SummaryScreenView { err_msg: None, ..self }
    }

    /// The screen with `text` as its message and nothing else changed.
    pub open spec fn refused(self, text: Seq<char>) -> SummaryScreenView {
        SummaryScreenView { err_msg: Some(text), ..self }
    }

    /// The screen after a zoom step to the factor `scale`, which is refused
    /// where an `i64` cannot hold it.
    pub open spec fn zoomed(self, scale: int) -> SummaryScreenView {
        match narrowed(scale) {
            Some(map_scale) => SummaryScreenView { map_scale, err_msg: None, ..self },
            None => self.refused(view_limit_reached()),
        }
    }

    /// The screen after a pan step to the offset `(x, y)`, which is refused
    /// where an `i64` cannot hold it.
    pub open spec fn panned(self, x: int, y: int) -> SummaryScreenView {
        match (narrowed(x), narrowed(y)) {
            (Some(x), Some(y)) => SummaryScreenView {
                map_offset: Point { x, y },
                err_msg: None,
                ..self
            },
            _ => self.refused(view_limit_reached()),
        }
    }

    /// The screen that `Select` leads to when the catalogue answers
    /// `polygons`: the detail view of the outlines, centred on the centroid
    /// of the first, with a fresh view of the drawing. Where there is no
    /// outline, or the first has no vertex, the summary stays, with a
    /// message.
    pub open spec fn inspected(self, polygons: Option<Seq<Seq<Point>>>) -> ScreenView {
        match polygons {
            Some(outlines) if outlines.len() > 0 && outlines[0].len() > 0 => ScreenView::Inspect(
                InspectScreenView::fresh(self.id, self.name, centroid_of(outlines[0]), outlines),
            ),
            _ => ScreenView::Summary(self.refused(no_polygons())),
        }
    }
}

impl Clone for SummaryScreen {
    fn clone(&self) -> (copy: SummaryScreen)
        ensures
            copy == *self,
    {
        SummaryScreen {
            id: self.id.clone(),
            name: clone_text(&self.name),
            coord: self.coord,
            map_offset: self.map_offset,
            map_scale: self.map_scale,
            err_msg: clone_text(&self.err_msg),
        }
    }
}

impl SummaryScreen {
    pub fn new(id: String, name: Option<String>, coord: Option<Point>) -> (screen: SummaryScreen)
        ensures
            screen == (SummaryScreen {
                id,
                name,
                coord,
                map_offset: Point::origin(),
                map_scale: UNIT,
                err_msg: None,
            }),
            screen@ == SummaryScreenView::fresh(id@, text_of(name), coord),
    {
        SummaryScreen {
            id,
            name,
            coord,
            map_offset: Point::new(0, 0),
            map_scale: UNIT,
            err_msg: None,
        }
    }

    pub fn clear_err(&mut self)
        ensures
            *final(self) == (SummaryScreen { err_msg: None, ..*old(self) }),
    {
        self.err_msg = None
    }
}

impl SummaryScreen {
    fn refused(&self, text: &str) -> (next: SummaryScreen)
        ensures
            next@ == self@.refused(text@),
    {
        SummaryScreen {
            id: self.id.clone(),
            name: clone_text(&self.name),
            coord: self.coord,
            map_offset: self.map_offset,
            map_scale: self.map_scale,
            err_msg: Some(text.to_string()),
        }
    }

    fn zoomed(&self, scale: i128) -> (next: SummaryScreen)
        ensures
            next@ == self@.zoomed(scale as int),
    {
        match narrow(scale) {
            Some(map_scale) => SummaryScreen {
                id: self.id.clone(),
                name: clone_text(&self.name),
                coord: self.coord,
                map_offset: self.map_offset,
                map_scale,
                err_msg: None,
            },
            None => self.refused("View limit reached"),
        }
    }

    fn panned(&self, x: i128, y: i128) -> (next: SummaryScreen)
        ensures
            next@ == self@.panned(x as int, y as int),
    {
        match (narrow(x), narrow(y)) {
            (Some(x), Some(y)) => SummaryScreen {
                id: self.id.clone(),
                name: clone_text(&self.name),
                coord: self.coord,
                map_offset: Point { x, y },
                map_scale: self.map_scale,
                err_msg: None,
            },
            _ => self.refused("View limit reached"),
        }
    }

    /// Makes the screen that `Select` leads to when the catalogue answers
    /// `polygons` for this location.
    pub fn inspect(&self, polygons: Option<Vec<Polygon>>) -> (next: Screen)
        ensures
            next@ == self@.inspected(polygons.deep_view()),
    {
        match polygons {
            Some(outlines) => {
                if outlines.len() > 0 {
                    match outlines[0].centroid() {
                        Some(center) => {
                            return Screen::Inspect(
                                InspectScreen {
                                    id: self.id.clone(),
                                    name: clone_text(&self.name),
                                    coord: Some(center),
                                    polygons: outlines,
                                    map_offset: Point::new(0, 0),
                                    map_scale: UNIT,
                                    err_msg: None,
                                },
                            );
                        },
                        None => {},
                    }
                }
            },
            None => {},
        }
        Screen::Summary(self.refused("No polygons found"))
    }
}

/// The state that follows when the summary screen `screen` receives `msg`,
/// with the catalogue `db` to ask.
///
/// A zoom step changes the zoom factor by a tenth, down on `ZoomIn` and up on
/// `ZoomOut`, with no floor: the factor may reach zero and go below. A shift
/// moves the pan offset by one whole unit along its axis. `Select` asks the
/// catalogue for the outlines of the location and opens the detail view.
/// `Quit` ends the application. Any other message only clears the message of
/// the last refusal, as every accepted message does.
pub open spec fn summary_screen_next<D: DbConnection + ?Sized>(
    db: &D,
    msg: Message,
    screen: SummaryScreenView,
) -> AppStateView {
    let at = screen.map_offset;
    match msg {
        Message::ZoomIn => running(ScreenView::Summary(screen.zoomed(screen.map_scale - TENTH))),
        Message::ZoomOut => running(ScreenView::Summary(screen.zoomed(screen.map_scale + TENTH))),
        Message::ShiftUp => running(ScreenView::Summary(screen.panned(at.x as int, at.y + UNIT))),
        Message::ShiftDown => running(ScreenView::Summary(screen.panned(at.x as int, at.y - UNIT))),
        Message::ShiftLeft => running(ScreenView::Summary(screen.panned(at.x - UNIT, at.y as int))),
        Message::ShiftRight => running(
            ScreenView::Summary(screen.panned(at.x + UNIT, at.y as int)),
        ),
        Message::Select => running(screen.inspected(db.polygons_of(screen.id))),
        Message::Quit => done(ScreenView::Summary(screen.cleared())),
        _ => running(ScreenView::Summary(screen.cleared())),
    }
}

/// Makes the state that follows when the summary screen receives `msg`. No
/// message follows from it.
pub fn summary_screen_update<D: DbConnection + ?Sized>(
    db: &D,
    msg: &Message,
    screen: &SummaryScreen,
) -> (next: (AppState, Option<Message>))
    ensures
        next.0@ == summary_screen_next(db, *msg, screen@),
        next.1 is None,
{
    let x: i128 = screen.map_offset.x as i128;
    let y: i128 = screen.map_offset.y as i128;
    let scale: i128 = screen.map_scale as i128;
    let mut app_state: RunningState = RunningState::Running;
    let active_screen: Screen = match msg {
        Message::ZoomIn => Screen::Summary(screen.zoomed(scale - TENTH as i128)),
        Message::ZoomOut => Screen::Summary(screen.zoomed(scale + TENTH as i128)),
        Message::ShiftUp => Screen::Summary(screen.panned(x, y + UNIT as i128)),
        Message::ShiftDown => Screen::Summary(screen.panned(x, y - UNIT as i128)),
        Message::ShiftLeft => Screen::Summary(screen.panned(x - UNIT as i128, y)),
        Message::ShiftRight => Screen::Summary(screen.panned(x + UNIT as i128, y)),
        Message::Select => screen.inspect(db.get_polygons(&screen.id)),
        Message::Quit => {
            app_state = RunningState::Done;
            let mut same: SummaryScreen = screen.clone();
            same.clear_err();
            Screen::Summary(same)
        },
        _ => {
            let mut same: SummaryScreen = screen.clone();
            same.clear_err();
            Screen::Summary(same)
        },
    };
    (AppState { app_state, active_screen }, None)
}

} // verus!
