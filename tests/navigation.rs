use rustor::config::{Config, ConfigKeyBindingKey};
use rustor::key::{KeyCode, KeyEvent, KeyEventKind};
use rustor::refresh::{CancelStatus, RefreshWorker, WorkerAction, WorkerPhase};
use rustor::router::{App, DrawPlan};
use rustor::screen::Screen;
use rustor::screens::Effect;
use tui_input::InputRequest;

fn app() -> App {
    App::new(&Config::from_entries(&vec![]))
}

fn press(code: KeyCode) -> KeyEvent {
    match code {
        KeyCode::Char(c) => KeyEvent::from_char(c, false, false, false, KeyEventKind::Press),
        KeyCode::Backspace => KeyEvent::new(code, false, false, false, KeyEventKind::Press, Some(InputRequest::DeletePrevChar)),
        _ => KeyEvent::new(code, false, false, false, KeyEventKind::Press, None),
    }
}

fn ctrl(c: char) -> KeyEvent {
    KeyEvent::from_char(c, true, false, false, KeyEventKind::Press)
}

fn type_text(a: &mut App, text: &str) {
    for c in text.chars() {
        let step = a.handle_key(&press(KeyCode::Char(c)));
        assert!(!step.quit);
        assert!(step.effect.is_none());
    }
}

#[test]
fn add_magnet_from_home() {
    let mut a = app();
    assert_eq!(a.state.screen, Screen::Home);
    a.handle_key(&ctrl('a'));
    assert_eq!(a.state.screen, Screen::Add);
    type_text(&mut a, "magnet:?xt=urn:btih:abc");
    assert_eq!(a.add.input.value(), "magnet:?xt=urn:btih:abc");
    let step = a.handle_key(&press(KeyCode::Enter));
    match step.effect {
        Some(Effect::AddTorrent(s)) => assert_eq!(s, "magnet:?xt=urn:btih:abc"),
        _ => panic!("expected an add"),
    }
    assert_eq!(a.add.input.value(), "");
    assert_eq!(a.state.screen, Screen::Home);
}

#[test]
fn remove_row_two_from_home() {
    let mut a = app();
    a.set_torrent_ids(vec![10, 20, 30, 40]);
    a.handle_key(&press(KeyCode::Char('j')));
    a.handle_key(&press(KeyCode::Down));
    assert_eq!(a.home.active_row(), 2);
    a.handle_key(&ctrl('d'));
    assert_eq!(a.state.screen, Screen::Del);
    assert_eq!(a.del.selected_row_index, 2);
    let step = a.handle_key(&press(KeyCode::Esc));
    assert!(step.effect.is_none());
    assert_eq!(a.state.screen, Screen::Home);
    a.handle_key(&ctrl('d'));
    assert_eq!(a.state.screen, Screen::Del);
    let step = a.handle_key(&press(KeyCode::Enter));
    assert!(matches!(step.effect, Some(Effect::Remove(30))));
    assert_eq!(a.state.screen, Screen::Home);
}

#[test]
fn short_search_term_is_rejected() {
    let mut a = app();
    a.handle_key(&ctrl('s'));
    assert_eq!(a.state.screen, Screen::Search);
    type_text(&mut a, "ab");
    let step = a.handle_key(&press(KeyCode::Enter));
    assert!(step.effect.is_none());
    assert_eq!(a.search.error, Some(rustor::dto::SearchError::TooShort));
    assert!(a.search.get_results().is_empty());
    assert_eq!(a.state.screen, Screen::SearchRes);
}

#[test]
fn third_character_issues_search() {
    let mut a = app();
    a.handle_key(&ctrl('s'));
    type_text(&mut a, "ab");
    a.handle_key(&press(KeyCode::Char('c')));
    let step = a.handle_key(&press(KeyCode::Enter));
    match step.effect {
        Some(Effect::Search(s)) => assert_eq!(s, "abc"),
        _ => panic!("expected a search"),
    }
    assert_eq!(a.search.error, None);
    assert_eq!(a.state.screen, Screen::SearchRes);
}

#[test]
fn empty_search_term_is_rejected() {
    let mut a = app();
    a.handle_key(&ctrl('s'));
    let step = a.handle_key(&press(KeyCode::Enter));
    assert!(step.effect.is_none());
    assert_eq!(a.search.error, Some(rustor::dto::SearchError::Empty));
}

#[test]
fn done_screens_return_to_parent() {
    let cases = [
        (Screen::Add, Screen::Home),
        (Screen::Del, Screen::Home),
        (Screen::ReAnn, Screen::Home),
        (Screen::Info, Screen::Home),
        (Screen::Search, Screen::SearchRes),
        (Screen::SearchInfo, Screen::SearchRes),
    ];
    for (s, parent) in cases {
        let mut a = app();
        a.state.screen = s;
        a.handle_key(&press(KeyCode::Esc));
        assert_eq!(a.state.screen, parent);
        assert_eq!(s.parent(), parent);
    }
}

#[test]
fn screens_without_parent_stay() {
    for s in [Screen::Help, Screen::Popup] {
        let mut a = app();
        a.state.screen = s;
        a.handle_key(&press(KeyCode::Esc));
        assert_eq!(a.state.screen, s);
    }
}

#[test]
fn other_keys_keep_screen() {
    let mut a = app();
    a.state.screen = Screen::Del;
    let step = a.handle_key(&press(KeyCode::Char('x')));
    assert!(step.effect.is_none());
    assert_eq!(a.state.screen, Screen::Del);
    let release = KeyEvent::new(KeyCode::Esc, false, false, false, KeyEventKind::Release, None);
    a.handle_key(&release);
    assert_eq!(a.state.screen, Screen::Del);
}

#[test]
fn global_hotkeys_win_everywhere() {
    let all = [
        Screen::Home,
        Screen::Help,
        Screen::Add,
        Screen::ReAnn,
        Screen::Del,
        Screen::Info,
        Screen::Search,
        Screen::SearchRes,
        Screen::SearchInfo,
        Screen::Popup,
    ];
    for s in all {
        for (c, target) in [('b', Screen::Home), ('a', Screen::Add), ('s', Screen::Search), ('h', Screen::Help)] {
            let mut a = app();
            a.state.screen = s;
            let step = a.handle_key(&ctrl(c));
            assert!(!step.quit);
            assert_eq!(a.state.screen, target);
        }
        let mut a = app();
        a.state.screen = s;
        let step = a.handle_key(&ctrl('q'));
        assert!(step.quit);
        assert_eq!(a.state.screen, s);
    }
}

#[test]
fn home_shortcut_sharing_a_global_binding_applies_on_home() {
    let config = Config::from_entries(&vec![(ConfigKeyBindingKey::KbDel, 'b')]);
    let mut a = App::new(&config);
    a.state.screen = Screen::Add;
    a.handle_key(&ctrl('b'));
    assert_eq!(a.state.screen, Screen::Del);
}

#[test]
fn search_results_shortcuts() {
    let mut a = app();
    a.state.screen = Screen::SearchRes;
    a.handle_key(&ctrl('i'));
    assert_eq!(a.state.screen, Screen::SearchInfo);
    a.handle_key(&press(KeyCode::Esc));
    assert_eq!(a.state.screen, Screen::SearchRes);
    let step = a.handle_key(&ctrl('d'));
    assert!(step.effect.is_none());
    assert_eq!(a.state.screen, Screen::Home);
}

#[test]
fn repeated_stop_keeps_home() {
    let mut a = app();
    a.set_torrent_ids(vec![7, 8]);
    let stop = KeyEvent::new(KeyCode::Char('s'), false, true, false, KeyEventKind::Press, None);
    for _ in 0..2 {
        let step = a.handle_key(&stop);
        assert!(matches!(step.effect, Some(Effect::Stop(7))));
        assert_eq!(a.state.screen, Screen::Home);
    }
    let start = KeyEvent::new(KeyCode::Char('s'), false, false, false, KeyEventKind::Press, None);
    let step = a.handle_key(&start);
    assert!(matches!(step.effect, Some(Effect::Start(7))));
}

#[test]
fn remove_of_missing_row_asks_nothing() {
    let mut a = app();
    a.set_torrent_ids(vec![5, 6, 7]);
    a.handle_key(&press(KeyCode::Down));
    a.handle_key(&press(KeyCode::Down));
    a.handle_key(&ctrl('d'));
    a.set_torrent_ids(vec![5]);
    let step = a.handle_key(&press(KeyCode::Enter));
    assert!(step.effect.is_none());
    assert_eq!(a.state.screen, Screen::Home);
}

#[test]
fn reannounce_and_open_location() {
    let mut a = app();
    a.set_torrent_ids(vec![3, 4]);
    a.handle_key(&press(KeyCode::Char('j')));
    let step = a.handle_key(&ctrl('o'));
    assert!(matches!(step.effect, Some(Effect::OpenLocation(4))));
    a.handle_key(&ctrl('r'));
    assert_eq!(a.state.screen, Screen::ReAnn);
    let step = a.handle_key(&press(KeyCode::Enter));
    assert!(matches!(step.effect, Some(Effect::Reannounce(4))));
    assert_eq!(a.state.screen, Screen::Home);
}

#[test]
fn cursor_stays_on_list() {
    let mut a = app();
    a.set_torrent_ids(vec![1, 2]);
    for _ in 0..5 {
        a.handle_key(&press(KeyCode::Char('j')));
    }
    assert_eq!(a.home.active_row(), 1);
    for _ in 0..5 {
        a.handle_key(&press(KeyCode::Up));
    }
    assert_eq!(a.home.active_row(), 0);
    a.handle_key(&press(KeyCode::Right));
    assert_eq!(a.home.cursor.column, Some(0));
    a.handle_key(&press(KeyCode::Left));
    a.handle_key(&press(KeyCode::Left));
    assert_eq!(a.home.cursor.column, Some(0));
    a.set_torrent_ids(vec![9, 8, 7]);
    a.handle_key(&press(KeyCode::Down));
    a.handle_key(&press(KeyCode::Down));
    a.set_torrent_ids(vec![9]);
    assert_eq!(a.home.active_row(), 0);
}

#[test]
fn info_scrolls_and_cancels_worker() {
    let mut a = app();
    a.handle_key(&ctrl('i'));
    assert_eq!(a.state.screen, Screen::Info);
    let it = a.begin_iteration();
    assert_eq!(it.draw, DrawPlan::Worker(Screen::Info));
    let step = a.handle_key(&press(KeyCode::Char('j')));
    assert!(matches!(step.effect, Some(Effect::ScrollDown)));
    assert!(step.cancel_refresh);
    assert_eq!(a.state.screen, Screen::Info);
    a.end_iteration();
    a.begin_iteration();
    let step = a.handle_key(&press(KeyCode::Up));
    assert!(matches!(step.effect, Some(Effect::ScrollUp)));
}

#[test]
fn one_worker_per_iteration() {
    let mut a = app();
    let first = a.begin_iteration();
    assert_eq!(first.draw, DrawPlan::Worker(Screen::Home));
    assert!(!first.cancel_previous);
    assert!(a.refresh.is_live());
    let step = a.handle_key(&press(KeyCode::Char('j')));
    assert!(!step.cancel_refresh);
    let again = a.begin_iteration();
    assert!(again.cancel_previous);
    a.end_iteration();
    assert!(!a.refresh.is_live());
    let third = a.begin_iteration();
    assert!(!third.cancel_previous);
    a.state.screen = Screen::Help;
    a.end_iteration();
    let once = a.begin_iteration();
    assert_eq!(once.draw, DrawPlan::Once(Screen::Help));
    assert!(!a.refresh.is_live());
}

#[test]
fn cancelled_worker_exits_after_one_sleep() {
    let mut w = RefreshWorker::new(Screen::Home);
    assert_eq!(w.action(), WorkerAction::Draw);
    w.advance(CancelStatus::Empty);
    assert_eq!(w.action(), WorkerAction::Sleep(3000));
    w.advance(CancelStatus::Empty);
    assert_eq!(w.action(), WorkerAction::CheckCancel);
    w.advance(CancelStatus::Empty);
    assert_eq!(w.action(), WorkerAction::Draw);
    w.advance(CancelStatus::Received);
    assert_eq!(w.action(), WorkerAction::Sleep(3000));
    w.advance(CancelStatus::Received);
    w.advance(CancelStatus::Received);
    assert!(w.finished());
    assert_eq!(w.phase, WorkerPhase::Done);
    assert_eq!(w.action(), WorkerAction::Exit);
    w.advance(CancelStatus::Empty);
    assert_eq!(w.action(), WorkerAction::Exit);
}

#[test]
fn dropped_sender_stops_worker() {
    let mut w = RefreshWorker::new(Screen::Info);
    w.advance(CancelStatus::Disconnected);
    w.advance(CancelStatus::Disconnected);
    w.advance(CancelStatus::Disconnected);
    assert!(w.finished());
}

#[test]
fn add_screen_edits_and_cancels() {
    let mut a = app();
    a.handle_key(&ctrl('a'));
    type_text(&mut a, "abd");
    a.handle_key(&KeyEvent::new(KeyCode::Left, false, false, false, KeyEventKind::Press, Some(InputRequest::GoToPrevChar)));
    a.handle_key(&press(KeyCode::Char('c')));
    assert_eq!(a.add.input.value(), "abcd");
    a.handle_key(&press(KeyCode::Backspace));
    assert_eq!(a.add.input.value(), "abd");
    let repeat = KeyEvent::new(KeyCode::Char('x'), false, false, false, KeyEventKind::Repeat, Some(InputRequest::InsertChar('x')));
    a.handle_key(&repeat);
    assert_eq!(a.add.input.value(), "abxd");
    let step = a.handle_key(&press(KeyCode::Esc));
    assert!(step.effect.is_none());
    assert_eq!(a.add.input.value(), "");
    assert_eq!(a.state.screen, Screen::Home);
}

#[test]
fn character_keys_carry_their_edit() {
    assert_eq!(KeyEvent::from_char('x', false, false, false, KeyEventKind::Press).edit, Some(InputRequest::InsertChar('x')));
    assert_eq!(KeyEvent::from_char('X', false, true, false, KeyEventKind::Repeat).edit, Some(InputRequest::InsertChar('X')));
    assert_eq!(KeyEvent::from_char('a', true, false, false, KeyEventKind::Press).edit, Some(InputRequest::GoToStart));
    assert_eq!(KeyEvent::from_char('h', true, false, false, KeyEventKind::Press).edit, Some(InputRequest::DeletePrevChar));
    assert_eq!(KeyEvent::from_char('z', true, false, false, KeyEventKind::Press).edit, None);
    assert_eq!(KeyEvent::from_char('a', true, true, false, KeyEventKind::Press).edit, None);
    assert_eq!(KeyEvent::from_char('x', false, false, true, KeyEventKind::Press).edit, None);
    assert_eq!(KeyEvent::from_char('x', false, false, false, KeyEventKind::Release).edit, None);
}

#[test]
fn info_detail_is_fetched_once_per_row() {
    let mut a = app();
    a.set_torrent_ids(vec![11, 12]);
    assert_eq!(a.home.info_request(), Some(11));
    a.home.note_detail_fetched();
    assert_eq!(a.home.info_request(), None);
    a.handle_key(&press(KeyCode::Down));
    assert_eq!(a.home.info_request(), Some(12));
    a.home.note_detail_fetched();
    a.set_torrent_ids(vec![11, 99]);
    assert_eq!(a.home.info_request(), Some(99));
}

#[test]
fn home_shortcut_leaves_list_as_it_was() {
    let mut a = app();
    a.set_torrent_ids(vec![1, 2, 3]);
    a.handle_key(&press(KeyCode::Down));
    a.handle_key(&ctrl('i'));
    assert_eq!(a.state.screen, Screen::Info);
    assert_eq!(a.home.active_row(), 1);
    assert_eq!(a.home.cursor.column, None);
}
