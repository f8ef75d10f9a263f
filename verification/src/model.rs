//! The navigation state and its transitions.

pub mod geometry;
pub mod inspect_screen;
pub mod main_screen;
pub mod summary_screen;

use vstd::prelude::*;
use crate::db::DbConnection;
use crate::event_handling::Message;
use crate::fixed::UNIT;
use crate::model::geometry::{Point, Polygon};
use crate::model::inspect_screen::{
    inspect_screen_next, inspect_screen_update, lemma_zoom_keeps_positive, InspectScreen,
    InspectScreenView,
};
use crate::model::main_screen::{
    main_screen_next, main_screen_update, no_more_ids, MainScreen, MainScreenView,
};
use crate::model::summary_screen::{
    summary_screen_next, summary_screen_update, SummaryScreen, SummaryScreenView,
};

verus! {

/// Whether the application goes on. `Loading` and `Crashed` are kept for
/// later use; no transition produces them.
#[derive(Debug, Clone, Copy, PartialEq, Eq, Structural)]
pub enum RunningState {
    Running,
    Loading,
    Done,
    Crashed,
}

/// The screen that is shown. Exactly one is active at a time.
#[derive(Debug)]
pub enum Screen {
    Main(MainScreen),
    Summary(SummaryScreen),
    Inspect(InspectScreen),
}

/// What a `Screen` holds, as plain values.
pub ghost enum ScreenView {
    Main(MainScreenView),
    Summary(SummaryScreenView),
    Inspect(InspectScreenView),
}

impl View for Screen {
    type V = ScreenView;

    open spec fn view(&self) -> ScreenView {
        match self {
            Screen::Main(screen) => ScreenView::Main(screen@),
            Screen::Summary(screen) => ScreenView::Summary(screen@),
            Screen::Inspect(screen) => ScreenView::Inspect(screen@),
        }
    }
}

impl ScreenView {
    /// The message for the user that the screen carries.
    pub open spec fn err_msg(self) -> Option<Seq<char>> {
        match self {
            ScreenView::Main(screen) => screen.err_msg,
            ScreenView::Summary(screen) => screen.err_msg,
            ScreenView::Inspect(screen) => screen.err_msg,
        }
    }

    /// The screen with `err_msg` as its message and nothing else changed.
    pub open spec fn with_err_msg(self, err_msg: Option<Seq<char>>) -> ScreenView {
        match self {
            ScreenView::Main(screen) => ScreenView::Main(MainScreenView { err_msg, ..screen }),
            ScreenView::Summary(screen) => ScreenView::Summary(
                SummaryScreenView { err_msg, ..screen },
            ),
            ScreenView::Inspect(screen) => ScreenView::Inspect(
                InspectScreenView { err_msg, ..screen },
            ),
        }
    }

    /// Whether `msg` asks something of this screen. A message that does not
    /// is accepted and changes nothing.
    pub open spec fn answers(self, msg: Message) -> bool {
        match self {
            ScreenView::Main(_) => msg is Increment || msg is Decrement || msg is Select
                || msg is Reset || msg is Quit,
            ScreenView::Summary(_) => msg is ZoomIn || msg is ZoomOut || msg is ShiftUp
                || msg is ShiftDown || msg is ShiftLeft || msg is ShiftRight || msg is Select
                || msg is Quit,
            ScreenView::Inspect(_) => msg is ZoomIn || msg is ZoomOut || msg is ShiftUp
                || msg is ShiftDown || msg is ShiftLeft || msg is ShiftRight || msg is Quit,
        }
    }
}

impl Clone for Screen {
    fn clone(&self) -> (copy: Screen)
        ensures
            copy@ == self@,
    {
        match self {
            Screen::Main(screen) => Screen::Main(screen.clone()),
            Screen::Summary(screen) => Screen::Summary(screen.clone()),
            Screen::Inspect(screen) => Screen::Inspect(screen.clone()),
        }
    }
}

/// The whole state of the application. A transition never changes it in
/// place: it makes the next state.
#[derive(Debug)]
pub struct AppState {
    pub app_state: RunningState,
    pub active_screen: Screen,
}

/// What an `AppState` holds, as plain values.
pub ghost struct AppStateView {
    pub app_state: RunningState,
    pub active_screen: ScreenView,
}

impl View for AppState {
    type V = AppStateView;

    open spec fn view(&self) -> AppStateView {
        AppStateView { app_state: self.app_state, active_screen: self.active_screen@ }
    }
}

/// The application going on, showing `screen`.
pub open spec fn running(screen: ScreenView) -> AppStateView {
    AppStateView { app_state: RunningState::Running, active_screen: screen }
}

/// The application at its end, still showing `screen`.
pub open spec fn done(screen: ScreenView) -> AppStateView {
    AppStateView { app_state: RunningState::Done, active_screen: screen }
}

impl Clone for AppState {
    fn clone(&self) -> (copy: AppState)
        ensures
            copy@ == self@,
    {
        AppState { app_state: self.app_state, active_screen: self.active_screen.clone() }
    }
}

/// The text that an optional string holds.
pub open spec fn text_of(text: Option<String>) -> Option<Seq<char>> {
    match text {
        Some(s) => Some(s@),
        None => None,
    }
}

/// Copies an optional string.
pub(crate) fn clone_text(text: &Option<String>) -> (copy: Option<String>)
    ensures
        copy == *text,
{
    match text {
        Some(s) => Some(s.clone()),
        None => None,
    }
}

/// Copies a list of outlines.
pub(crate) fn clone_polygons(polygons: &Vec<Polygon>) -> (copy: Vec<Polygon>)
    ensures
        copy.deep_view() == polygons.deep_view(),
{
    let mut copy: Vec<Polygon> = Vec::new();
    let n: usize = polygons.len();
    let mut i: usize = 0;
    while i < n
        invariant
            n == polygons.len(),
            i <= n,
            copy.len() == i,
            forall|j: int| 0 <= j < i ==> copy[j]@ == polygons[j]@,
        decreases n - i,
    {
        copy.push(polygons[i].clone());
        i = i + 1;
    }
    assert(copy.deep_view() =~= polygons.deep_view());
    copy
}

/// Shown when a pan or zoom step would leave the range of the map's
/// numbers.
pub open spec fn view_limit_reached() -> Seq<char> {
    "View limit reached"@
}

/// The state that a running application is in after the screen `screen`
/// receives `msg`: what the screen's own transition makes of it.
pub open spec fn screen_next<D: DbConnection + ?Sized>(
    db: &D,
    msg: Message,
    screen: ScreenView,
) -> AppStateView {
    match screen {
        ScreenView::Main(screen) => main_screen_next(db, msg, screen),
        ScreenView::Summary(screen) => summary_screen_next(db, msg, screen),
        ScreenView::Inspect(screen) => inspect_screen_next(msg, screen),
    }
}

/// The state that follows `state` when `msg` arrives: the active screen
/// makes its transition, `Quit` ends the application, and any other message
/// leaves the running state as it was.
pub open spec fn next_state<D: DbConnection + ?Sized>(
    db: &D,
    msg: Message,
    state: AppStateView,
) -> AppStateView {
    AppStateView {
        app_state: if msg is Quit {
            RunningState::Done
        } else {
            state.app_state
        },
        active_screen: screen_next(db, msg, state.active_screen).active_screen,
    }
}

/// The state after `msg` has arrived `times` times in a row.
pub open spec fn next_state_repeated<D: DbConnection + ?Sized>(
    db: &D,
    msg: Message,
    state: AppStateView,
    times: nat,
) -> AppStateView
    decreases times,
{
    if times == 0 {
        state
    } else {
        next_state(db, msg, next_state_repeated(db, msg, state, (times - 1) as nat))
    }
}

impl AppState {
    /// The state at startup: running, on the browsing screen, at the first
    /// position of the catalogue.
    pub fn initial_app_state<D: DbConnection + ?Sized>(db: &D) -> (state: AppState)
        ensures
            state@ == running(
                ScreenView::Main(MainScreenView { key: 0, id: db.id_at(0), err_msg: None }),
            ),
    {
        AppState {
            app_state: RunningState::Running,
            active_screen: Screen::Main(MainScreen { key: 0, id: db.get_id(&0), err_msg: None }),
        }
    }
}

/// Makes the state that follows `state` when `msg` arrives. No message
/// follows from any transition, so the second component is always `None`.
pub fn update<D: DbConnection + ?Sized>(state: AppState, msg: Message, db: &D) -> (next: (
    AppState,
    Option<Message>,
))
    ensures
        next.0@ == next_state(db, msg, state@),
        next.1 is None,
{
    let (stepped, follow) = match &state.active_screen {
        Screen::Main(screen) => main_screen_update(db, &msg, screen),
        Screen::Summary(screen) => summary_screen_update(db, &msg, screen),
        Screen::Inspect(screen) => inspect_screen_update(db, &msg, screen),
    };
    let app_state: RunningState = match stepped.app_state {
        RunningState::Done => RunningState::Done,
        _ => state.app_state,
    };
    (AppState { app_state, active_screen: stepped.active_screen }, follow)
}

/// A message that asks nothing of the active screen leaves the state as it
/// was, but for the message of the last refusal, which it clears.
pub proof fn lemma_unanswered_message_only_clears_error<D: DbConnection + ?Sized>(
    db: &D,
    msg: Message,
    state: AppStateView,
)
    requires
        !state.active_screen.answers(msg),
    ensures
        next_state(db, msg, state) == (AppStateView {
            active_screen: state.active_screen.with_err_msg(None),
            ..state
        }),
{
}

/// A transition that leaves a message for the user has refused the request:
/// nothing else of the state has changed. So no message outlives the next
/// transition unless that one is refused too.
pub proof fn lemma_refusal_changes_nothing_else<D: DbConnection + ?Sized>(
    db: &D,
    msg: Message,
    state: AppStateView,
)
    requires
        next_state(db, msg, state).active_screen.err_msg() is Some,
    ensures
        next_state(db, msg, state) == (AppStateView {
            active_screen: state.active_screen.with_err_msg(
                next_state(db, msg, state).active_screen.err_msg(),
            ),
            ..state
        }),
{
}

/// The application is done after a transition exactly if it was done before
/// or the message was `Quit`.
pub proof fn lemma_done_only_by_quit<D: DbConnection + ?Sized>(
    db: &D,
    msg: Message,
    state: AppStateView,
)
    ensures
        next_state(db, msg, state).app_state is Done <==> state.app_state is Done || msg is Quit,
{
}

/// `Decrement` arriving `times` times on the browsing screen at position `n`
/// leaves the position at `n - times`, or at zero once it has got there; from
/// then on each further `Decrement` is refused with the message that there
/// are no more identifiers.
pub proof fn lemma_decrement_stops_at_zero<D: DbConnection + ?Sized>(
    db: &D,
    state: AppStateView,
    times: nat,
)
    requires
        state.active_screen is Main,
    ensures
        ({
            let start = state.active_screen->Main_0;
            let end = next_state_repeated(db, Message::Decrement, state, times);
            &&& end.active_screen matches ScreenView::Main(screen)
            &&& screen.key == if times <= start.key {
                start.key - times
            } else {
                0
            }
            &&& times > start.key ==> screen.err_msg == Some(no_more_ids())
            &&& 0 < times <= start.key ==> screen.err_msg is None
        }),
    decreases times,
{
    if times > 0 {
        lemma_decrement_stops_at_zero(db, state, (times - 1) as nat);
    }
}

/// Whenever a transition leads from the browsing screen to the summary, or
/// from the summary to the detail view, the screen it opens has the map
/// neither panned nor zoomed.
pub proof fn lemma_screen_change_resets_view<D: DbConnection + ?Sized>(
    db: &D,
    msg: Message,
    state: AppStateView,
)
    ensures
        state.active_screen is Main ==> (next_state(db, msg, state).active_screen matches ScreenView::Summary(
            screen,
        ) ==> screen.map_offset == Point::origin() && screen.map_scale == UNIT),
        state.active_screen is Summary ==> (next_state(db, msg, state).active_screen matches ScreenView::Inspect(
            screen,
        ) ==> screen.map_offset == Point::origin() && screen.map_scale == UNIT),
{
}

/// The screens follow one another in one direction: from the browsing
/// screen a transition leads to the summary or nowhere, from the summary to
/// the detail view or nowhere, and the detail view is never left.
pub proof fn lemma_screens_follow_one_another<D: DbConnection + ?Sized>(
    db: &D,
    msg: Message,
    state: AppStateView,
)
    ensures
        ({
            let next = next_state(db, msg, state).active_screen;
            &&& state.active_screen is Main ==> next is Main || (next is Summary && msg is Select)
            &&& state.active_screen is Summary ==> next is Summary || (next is Inspect
                && msg is Select)
            &&& state.active_screen is Inspect ==> next is Inspect
        }),
{
}

/// What a screen shows of its location is what the catalogue said when the
/// screen was opened: no transition that stays on the summary or on the
/// detail view changes the identifier, the name, the position or the
/// outlines, and the detail view takes identifier and name over from the
/// summary.
pub proof fn lemma_location_is_kept<D: DbConnection + ?Sized>(
    db: &D,
    msg: Message,
    state: AppStateView,
)
    ensures
        ({
            let next = next_state(db, msg, state).active_screen;
            &&& (state.active_screen matches ScreenView::Summary(before) ==> {
                &&& next matches ScreenView::Summary(after) ==> after.id == before.id
                    && after.name == before.name && after.coord == before.coord
                &&& next matches ScreenView::Inspect(after) ==> after.id == before.id
                    && after.name == before.name
            })
            &&& (state.active_screen matches ScreenView::Inspect(before) ==> {
                &&& next matches ScreenView::Inspect(after)
                &&& after.id == before.id
                &&& after.name == before.name
                &&& after.coord == before.coord
                &&& after.polygons == before.polygons
            })
        }),
{
}

/// On the detail view a positive zoom factor stays positive, whatever
/// message arrives.
pub proof fn lemma_detail_zoom_stays_positive<D: DbConnection + ?Sized>(
    db: &D,
    msg: Message,
    state: AppStateView,
)
    requires
        state.active_screen matches ScreenView::Inspect(before) && before.map_scale > 0,
    ensures
        next_state(db, msg, state).active_screen matches ScreenView::Inspect(after)
            && after.map_scale > 0,
{
    lemma_zoom_keeps_positive(state.active_screen->Inspect_0.map_scale as int);
}

} // verus!
