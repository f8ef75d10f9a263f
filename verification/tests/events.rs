use loctui::event_handling::{
    handle_event, handle_key, Event, KeyCode, KeyEvent, KeyEventKind, Message,
};
use loctui::model::inspect_screen::InspectScreen;
use loctui::model::main_screen::MainScreen;
use loctui::model::summary_screen::SummaryScreen;
use loctui::model::{AppState, RunningState, Screen};

fn main_screen() -> Screen {
    Screen::Main(MainScreen::new(0, None))
}

fn summary_screen() -> Screen {
    Screen::Summary(SummaryScreen::new("001".to_string(), None, None))
}

fn inspect_screen() -> Screen {
    Screen::Inspect(InspectScreen::new("001".to_string(), None, None))
}

fn press(code: KeyCode) -> KeyEvent {
    KeyEvent { code, kind: KeyEventKind::Press }
}

#[test]
fn keys_of_the_browsing_screen() {
    let screen = main_screen();
    assert_eq!(handle_key(&screen, press(KeyCode::Char('w'))), Some(Message::Increment));
    assert_eq!(handle_key(&screen, press(KeyCode::Char('s'))), Some(Message::Decrement));
    assert_eq!(handle_key(&screen, press(KeyCode::Char('q'))), Some(Message::Quit));
    assert_eq!(handle_key(&screen, press(KeyCode::Enter)), Some(Message::Select));
    assert_eq!(handle_key(&screen, press(KeyCode::Char('a'))), None);
    assert_eq!(handle_key(&screen, press(KeyCode::Char('d'))), None);
    assert_eq!(handle_key(&screen, press(KeyCode::Char('i'))), None);
    assert_eq!(handle_key(&screen, press(KeyCode::Char('o'))), None);
    assert_eq!(handle_key(&screen, press(KeyCode::Char('W'))), None);
    assert_eq!(handle_key(&screen, press(KeyCode::Other)), None);
}

#[test]
fn keys_of_the_summary_screen() {
    let screen = summary_screen();
    assert_eq!(handle_key(&screen, press(KeyCode::Char('w'))), Some(Message::ShiftUp));
    assert_eq!(handle_key(&screen, press(KeyCode::Char('a'))), Some(Message::ShiftLeft));
    assert_eq!(handle_key(&screen, press(KeyCode::Char('s'))), Some(Message::ShiftDown));
    assert_eq!(handle_key(&screen, press(KeyCode::Char('d'))), Some(Message::ShiftRight));
    assert_eq!(handle_key(&screen, press(KeyCode::Char('i'))), Some(Message::ZoomIn));
    assert_eq!(handle_key(&screen, press(KeyCode::Char('o'))), Some(Message::ZoomOut));
    assert_eq!(handle_key(&screen, press(KeyCode::Char('q'))), Some(Message::Quit));
    assert_eq!(handle_key(&screen, press(KeyCode::Enter)), Some(Message::Select));
    assert_eq!(handle_key(&screen, press(KeyCode::Char('x'))), None);
    assert_eq!(handle_key(&screen, press(KeyCode::Other)), None);
}

#[test]
fn keys_of_the_detail_screen() {
    let screen = inspect_screen();
    assert_eq!(handle_key(&screen, press(KeyCode::Char('w'))), Some(Message::ShiftUp));
    assert_eq!(handle_key(&screen, press(KeyCode::Char('a'))), Some(Message::ShiftLeft));
    assert_eq!(handle_key(&screen, press(KeyCode::Char('s'))), Some(Message::ShiftDown));
    assert_eq!(handle_key(&screen, press(KeyCode::Char('d'))), Some(Message::ShiftRight));
    assert_eq!(handle_key(&screen, press(KeyCode::Char('i'))), Some(Message::ZoomIn));
    assert_eq!(handle_key(&screen, press(KeyCode::Char('o'))), Some(Message::ZoomOut));
    assert_eq!(handle_key(&screen, press(KeyCode::Char('q'))), Some(Message::Quit));
    assert_eq!(handle_key(&screen, press(KeyCode::Enter)), None);
    assert_eq!(handle_key(&screen, press(KeyCode::Other)), None);
}

#[test]
fn only_a_key_going_down_counts() {
    let state = AppState { app_state: RunningState::Running, active_screen: main_screen() };
    let key = |kind| Event::Key(KeyEvent { code: KeyCode::Char('w'), kind });
    assert_eq!(handle_event(&state, &key(KeyEventKind::Press)), Some(Message::Increment));
    assert_eq!(handle_event(&state, &key(KeyEventKind::Repeat)), None);
    assert_eq!(handle_event(&state, &key(KeyEventKind::Release)), None);
    assert_eq!(handle_event(&state, &Event::Other), None);
}

#[test]
fn event_goes_by_the_active_screen() {
    let event = Event::Key(press(KeyCode::Char('w')));
    let on_main = AppState { app_state: RunningState::Running, active_screen: main_screen() };
    let on_summary =
        AppState { app_state: RunningState::Running, active_screen: summary_screen() };
    let on_inspect = AppState { app_state: RunningState::Done, active_screen: inspect_screen() };
    assert_eq!(handle_event(&on_main, &event), Some(Message::Increment));
    assert_eq!(handle_event(&on_summary, &event), Some(Message::ShiftUp));
    assert_eq!(handle_event(&on_inspect, &event), Some(Message::ShiftUp));
}
