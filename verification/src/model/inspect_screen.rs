//! The screen that shows the outline of one location.

use vstd::prelude::*;
use crate::db::DbConnection;
use crate::event_handling::Message;
use crate::fixed::{
    div_rounded, lemma_rounded_quotient_is_nearest, narrow, narrowed, rounded_quotient, UNIT,
};
use crate::model::geometry::{Point, Polygon};
use crate::model::{
    clone_polygons, clone_text, done, running, text_of, view_limit_reached, AppState,
    AppStateView, RunningState, Screen, ScreenView,
};

verus! {

/// The detail screen: a location and its boundary outlines as the catalogue
/// had them when the screen was opened, the pan offset and zoom factor of
/// the drawing, and a message for the user if the last request was refused.
#[derive(Debug)]
pub struct InspectScreen {
    pub id: String,
    pub name: Option<String>,
    pub coord: Option<Point>,
    pub polygons: Vec<Polygon>,
    pub map_offset: Point,
    pub map_scale: i64,
    pub err_msg: Option<String>,
}

/// What an `InspectScreen` holds, as plain values.
pub ghost struct InspectScreenView {
    pub id: Seq<char>,
    pub name: Option<Seq<char>>,
    pub coord: Option<Point>,
    pub polygons: Seq<Seq<Point>>,
    pub map_offset: Point,
    pub map_scale: i64,
    pub err_msg: Option<Seq<char>>,
}

impl View for InspectScreen {
    type V = InspectScreenView;

    open spec fn view(&self) -> InspectScreenView {
        InspectScreenView {
            id: self.id@,
            name: text_of(self.name),
            coord: self.coord,
            polygons: self.polygons.deep_view(),
            map_offset: self.map_offset,
            map_scale: self.map_scale,
            err_msg: text_of(self.err_msg),
        }
    }
}

impl InspectScreenView {
    /// The detail view of a location as it is first shown: the drawing
    /// neither panned nor zoomed, and no message.
    pub open spec fn fresh(
        id: Seq<char>,
        name: Option<Seq<char>>,
        coord: Option<Point>,
        polygons: Seq<Seq<Point>>,
    ) -> InspectScreenView {
        InspectScreenView {
            id,
            name,
            coord,
            polygons,
            map_offset: Point::origin(),
            map_scale: UNIT,
            err_msg: None,
        }
    }

    /// The screen with the message of the last refusal taken away.
    pub open spec fn cleared(self) -> InspectScreenView {
        InspectScreenView { err_msg: None, ..self }
    }

    /// The screen with `text` as its message and nothing else changed.
    pub open spec fn refused(self, text: Seq<char>) -> InspectScreenView {
        InspectScreenView { err_msg: Some(text), ..self }
    }

    /// The screen after a zoom step to the factor `scale`, which is refused
    /// where an `i64` cannot hold it.
    pub open spec fn zoomed(self, scale: int) -> InspectScreenView {
        match narrowed(scale) {
            Some(map_scale) => InspectScreenView { map_scale, err_msg: None, ..self },
            None => self.refused(view_limit_reached()),
        }
    }

    /// The screen after a pan step to the offset `(x, y)`, which is refused
    /// where an `i64` cannot hold it.
    pub open spec fn panned(self, x: int, y: int) -> InspectScreenView {
        match (narrowed(x), narrowed(y)) {
            (Some(x), Some(y)) => InspectScreenView {
                map_offset: Point { x, y },
                err_msg: None,
                ..self
            },
            _ => self.refused(view_limit_reached()),
        }
    }
}

impl Clone for InspectScreen {
    fn clone(&self) -> (copy: InspectScreen)
        ensures
            copy@ == self@,
    {
        InspectScreen {
            id: self.id.clone(),
            name: clone_text(&self.name),
            coord: self.coord,
            polygons: clone_polygons(&self.polygons),
            map_offset: self.map_offset,
            map_scale: self.map_scale,
            err_msg: clone_text(&self.err_msg),
        }
    }
}

impl InspectScreen {
    /// A detail screen that has no outlines yet.
    pub fn new(id: String, name: Option<String>, coord: Option<Point>) -> (screen: InspectScreen)
        ensures
            screen@ == InspectScreenView::fresh(id@, text_of(name), coord, Seq::empty()),
    {
        let screen = InspectScreen {
            id,
            name,
            coord,
            polygons: Vec::new(),
            map_offset: Point::new(0, 0),
            map_scale: UNIT,
            err_msg: None,
        };
        assert(screen.polygons.deep_view() =~= Seq::empty());
        screen
    }

    pub fn clear_err(&mut self)
        ensures
            final(self)@ == (InspectScreenView { err_msg: None, ..old(self)@ }),
    {
        self.err_msg = None
    }
}

impl InspectScreen {
    fn refused(&self, text: &str) -> (next: InspectScreen)
        ensures
            next@ == self@.refused(text@),
    {
        let mut next: InspectScreen = self.clone();
        next.err_msg = Some(text.to_string());
        next
    }

    fn zoomed(&self, scale: i128) -> (next: InspectScreen)
        ensures
            next@ == self@.zoomed(scale as int),
    {
        match narrow(scale) {
            Some(map_scale) => {
                let mut next: InspectScreen = self.clone();
                next.map_scale = map_scale;
                next.err_msg = None;
                next
            },
            None => self.refused("View limit reached"),
        }
    }

    fn panned(&self, x: i128, y: i128) -> (next: InspectScreen)
        ensures
            next@ == self@.panned(x as int, y as int),
    {
        match (narrow(x), narrow(y)) {
            (Some(x), Some(y)) => {
                let mut next: InspectScreen = self.clone();
                next.map_offset = Point { x, y };
                next.err_msg = None;
                next
            },
            _ => self.refused("View limit reached"),
        }
    }
}

/// The zoom factor one step in from `scale`: nine tenths of it.
pub open spec fn zoom_in_scale(scale: int) -> int {
    rounded_quotient(9 * scale, 10)
}

/// The zoom factor one step out from `scale`: eleven tenths of it.
pub open spec fn zoom_out_scale(scale: int) -> int {
    rounded_quotient(11 * scale, 10)
}

/// A zoom step keeps a positive zoom factor positive, and a step in never
/// leaves the range of an `i64`.
pub proof fn lemma_zoom_keeps_positive(scale: int)
    ensures
        scale > 0 ==> zoom_in_scale(scale) > 0 && zoom_out_scale(scale) > 0,
        i64::MIN <= scale <= i64::MAX ==> i64::MIN <= zoom_in_scale(scale) <= i64::MAX,
{
    lemma_rounded_quotient_is_nearest(9 * scale, 10);
    lemma_rounded_quotient_is_nearest(11 * scale, 10);
}

/// The state that follows when the detail screen `screen` receives `msg`.
///
/// A zoom step multiplies the zoom factor, by nine tenths on `ZoomIn` and by
/// eleven tenths on `ZoomOut`. A shift moves the pan offset along its axis by
/// the zoom factor, so that a step covers the same share of the drawing at
/// any zoom. `Quit` ends the application. Any other message only clears the
/// message of the last refusal, as every accepted message does.
pub open spec fn inspect_screen_next(msg: Message, screen: InspectScreenView) -> AppStateView {
    let at = screen.map_offset;
    let step = screen.map_scale;
    match msg {
        Message::ZoomIn => running(
            ScreenView::Inspect(screen.zoomed(zoom_in_scale(screen.map_scale as int))),
        ),
        Message::ZoomOut => running(
            ScreenView::Inspect(screen.zoomed(zoom_out_scale(screen.map_scale as int))),
        ),
        Message::ShiftUp => running(ScreenView::Inspect(screen.panned(at.x as int, at.y + step))),
        Message::ShiftDown => running(ScreenView::Inspect(screen.panned(at.x as int, at.y - step))),
        Message::ShiftLeft => running(ScreenView::Inspect(screen.panned(at.x - step, at.y as int))),
        Message::ShiftRight => running(
            ScreenView::Inspect(screen.panned(at.x + step, at.y as int)),
        ),
        Message::Quit => done(ScreenView::Inspect(screen.cleared())),
        _ => running(ScreenView::Inspect(screen.cleared())),
    }
}

/// Makes the state that follows when the detail screen receives `msg`. The
/// catalogue is not asked, and no message follows.
pub fn inspect_screen_update<D: DbConnection + ?Sized>(
    _db: &D,
    msg: &Message,
    screen: &InspectScreen,
) -> (next: (AppState, Option<Message>))
    ensures
        next.0@ == inspect_screen_next(*msg, screen@),
        next.1 is None,
{
    let x: i128 = screen.map_offset.x as i128;
    let y: i128 = screen.map_offset.y as i128;
    let scale: i128 = screen.map_scale as i128;
    let mut app_state: RunningState = RunningState::Running;
    let next_screen: InspectScreen = match msg {
        Message::ZoomIn => screen.zoomed(div_rounded(9 * scale, 10)),
        Message::ZoomOut => screen.zoomed(div_rounded(11 * scale, 10)),
        Message::ShiftUp => screen.panned(x, y + scale),
        Message::ShiftDown => screen.panned(x, y - scale),
        Message::ShiftLeft => screen.panned(x - scale, y),
        Message::ShiftRight => screen.panned(x + scale, y),
        Message::Quit => {
            app_state = RunningState::Done;
            let mut same: InspectScreen = screen.clone();
            same.clear_err();
            same
        },
        _ => {
            let mut same: InspectScreen = screen.clone();
            same.clear_err();
            same
        },
    };
    (AppState { app_state, active_screen: Screen::Inspect(next_screen) }, None)
}

} // verus!
