//! The screen that browses the catalogue by position.

use vstd::prelude::*;
use crate::db::DbConnection;
use crate::event_handling::Message;
use crate::model::geometry::Point;
use crate::model::summary_screen::{SummaryScreen, SummaryScreenView};
use crate::model::{
    clone_text, done, running, text_of, AppState, AppStateView, RunningState, Screen, ScreenView,
};

verus! {

/// The browsing screen: a position in the catalogue's list, the identifier
/// found there, and a message for the user if the last request was refused.
#[derive(Debug)]
pub struct MainScreen {
    pub key: usize,
    pub id: Option<String>,
    pub err_msg: Option<String>,
}

/// What a `MainScreen` holds, as plain values.
pub ghost struct MainScreenView {
    pub key: usize,
    pub id: Option<Seq<char>>,
    pub err_msg: Option<Seq<char>>,
}

impl View for MainScreen {
    type V = MainScreenView;

    open spec fn view(&self) -> MainScreenView {
        MainScreenView { key: self.key, id: text_of(self.id), err_msg: text_of(self.err_msg) }
    }
}

impl Clone for MainScreen {
    fn clone(&self) -> (copy: MainScreen)
        ensures
            copy == *self,
    {
        MainScreen {
            key: self.key,
            id: clone_text(&self.id),
            err_msg: clone_text(&self.err_msg),
        }
    }
}

impl MainScreen {
    pub fn new(key: usize, id: Option<String>) -> (screen: MainScreen)
        ensures
            screen == (MainScreen { key, id, err_msg: None }),
    {
        MainScreen { key, id, err_msg: None }
    }

    pub fn clear_err(&mut self)
        ensures
            *final(self) == (MainScreen { err_msg: None, ..*old(self) }),
    {
        self.err_msg = None
    }
}

/// Shown when the position cannot move further in the asked direction.
pub open spec fn no_more_ids() -> Seq<char> {
    "No More IDs!"@
}

/// Shown when a location is selected where the catalogue has none.
pub open spec fn no_valid_id() -> Seq<char> {
    "No valid ID found"@
}

/// The state that follows when the browsing screen `screen` receives `msg`,
/// with the catalogue `db` to ask.
///
/// The position moves by one on `Increment` and `Decrement` and goes back to
/// the start on `Reset`; each time the identifier is fetched anew. A move
/// below the first position or above the last one a `usize` can hold is
/// refused with a message. `Select` opens the summary of the identifier on
/// display, with a fresh view of the map, or is refused with a message where
/// there is none. `Quit` ends the application. Any other message only clears
/// the message of the last refusal, as every accepted message does.
pub open spec fn main_screen_next<D: DbConnection + ?Sized>(
    db: &D,
    msg: Message,
    screen: MainScreenView,
) -> AppStateView {
    match msg {
        Message::Increment => if screen.key < usize::MAX {
            let key = (screen.key + 1) as usize;
            running(ScreenView::Main(MainScreenView { key, id: db.id_at(key), err_msg: None }))
        } else {
            running(ScreenView::Main(MainScreenView { err_msg: Some(no_more_ids()), ..screen }))
        },
        Message::Decrement => if screen.key > 0 {
            let key = (screen.key - 1) as usize;
            running(ScreenView::Main(MainScreenView { key, id: db.id_at(key), err_msg: None }))
        } else {
            running(ScreenView::Main(MainScreenView { err_msg: Some(no_more_ids()), ..screen }))
        },
        Message::Select => match screen.id {
            None => running(
                ScreenView::Main(MainScreenView { err_msg: Some(no_valid_id()), ..screen }),
            ),
            Some(id) => running(
                ScreenView::Summary(SummaryScreenView::fresh(id, db.name_of(id), db.latlng_of(id))),
            ),
        },
        Message::Reset => running(
            ScreenView::Main(MainScreenView { key: 0, id: db.id_at(0), err_msg: None }),
        ),
        Message::Quit => done(ScreenView::Main(MainScreenView { err_msg: None, ..screen })),
        _ => running(ScreenView::Main(MainScreenView { err_msg: None, ..screen })),
    }
}

/// Makes the state that follows when the browsing screen receives `msg`. No
/// message follows from it.
pub fn main_screen_update<D: DbConnection + ?Sized>(
    db: &D,
    msg: &Message,
    screen: &MainScreen,
) -> (next: (AppState, Option<Message>))
    ensures
        next.0@ == main_screen_next(db, *msg, screen@),
        next.1 is None,
{
    let next_screen: MainScreen = match msg {
        Message::Increment => {
            if screen.key < usize::MAX {
                let key: usize = screen.key + 1;
                MainScreen { key, id: db.get_id(&key), err_msg: None }
            } else {
                MainScreen {
                    key: screen.key,
                    id: clone_text(&screen.id),
                    err_msg: Some("No More IDs!".to_string()),
                }
            }
        },
        Message::Decrement => {
            if screen.key > 0 {
                let key: usize = screen.key - 1;
                MainScreen { key, id: db.get_id(&key), err_msg: None }
            } else {
                MainScreen {
                    key: screen.key,
                    id: clone_text(&screen.id),
                    err_msg: Some("No More IDs!".to_string()),
                }
            }
        },
        Message::Select => match &screen.id {
            None => MainScreen {
                key: screen.key,
                id: None,
                err_msg: Some("No valid ID found".to_string()),
            },
            Some(id) => {
                let name: Option<String> = db.get_name(id);
                let coord: Option<Point> = db.get_latlng(id);
                return (
                    AppState {
                        app_state: RunningState::Running,
                        active_screen: Screen::Summary(SummaryScreen::new(id.clone(), name, coord)),
                    },
                    None,
                );
            },
        },
        Message::Reset => MainScreen { key: 0, id: db.get_id(&0), err_msg: None },
        Message::Quit => {
            return (
                AppState {
                    app_state: RunningState::Done,
                    active_screen: Screen::Main(MainScreen::new(screen.key, clone_text(&screen.id))),
                },
                None,
            );
        },
        _ => MainScreen::new(screen.key, clone_text(&screen.id)),
    };
    (AppState { app_state: RunningState::Running, active_screen: Screen::Main(next_screen) }, None)
}

} // verus!
