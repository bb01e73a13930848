use crate::config::{Config, ConfigKeyBindingKey, KeyBindingMap};
use crate::dto::{PirateBayListTorrent, SearchError, TorrentsCsvTorrent};
use crate::key::{char_edit_of, input_cursor, input_text, KeyCode, KeyEvent, KeyEventKind};
use crate::refresh::RefreshLedger;
use crate::screen::{parent_of, refreshes, AppState, Screen};
use crate::screens::{
    adds, answer_view, confirm_leaves, entry_after, moved, detail_effect, detail_key_event, detail_leaves, entry_leaves,
    home_effect, id_at, results_effect, search_outcome, searches, AddScreen, Effect, Handled,
    HelpScreen, HomeScreen, ReannScreen, ReannScreenArgs, RmScreen, RmScreenArgs, SearchResScreen,
    SearchScreen,
};
use crate::search::term_verdict;
use vstd::prelude::*;

verus! {

/// What a control-key hotkey of the router asks for.
#[derive(Clone, Copy, Debug, PartialEq, Eq, Structural)]
pub enum GlobalAction {
    Goto(Screen),
    Quit,
}

/// The router's own hotkeys: a press of Control with the home, add,
/// search, help or quit binding (checked in that order).
pub open spec fn global_action(ev: KeyEvent, kb: KeyBindingMap) -> Option<GlobalAction> {
    if !ev.is_press() {
        None
    } else {
        match ev.ctrl_char() {
            Some(c) => if c == kb.spec_get(ConfigKeyBindingKey::KbHome) {
                Some(GlobalAction::Goto(Screen::Home))
            } else if c == kb.spec_get(ConfigKeyBindingKey::KbAdd) {
                Some(GlobalAction::Goto(Screen::Add))
            } else if c == kb.spec_get(ConfigKeyBindingKey::KbSearch) {
                Some(GlobalAction::Goto(Screen::Search))
            } else if c == kb.spec_get(ConfigKeyBindingKey::KbHelp) {
                Some(GlobalAction::Goto(Screen::Help))
            } else if c == kb.spec_get(ConfigKeyBindingKey::KbQuit) {
                Some(GlobalAction::Quit)
            } else {
                None
            },
            None => None,
        }
    }
}

/// The screen that handles a key once the router's hotkeys had their say.
pub open spec fn handling_screen(s: Screen, ev: KeyEvent, kb: KeyBindingMap) -> Screen {
    match global_action(ev, kb) {
        Some(GlobalAction::Goto(t)) => t,
        _ => s,
    }
}

/// The screen after `s1` handled a key: the list and results screens
/// first look for their own control shortcuts; the other screens hand
/// control back to their parent when their handler reports that they are
/// done.
pub open spec fn dispatched(s1: Screen, ev: KeyEvent, kb: KeyBindingMap) -> Screen {
    match s1 {
        Screen::Home => match ev.ctrl_char() {
            Some(c) => if c == kb.spec_get(ConfigKeyBindingKey::KbDel) {
                Screen::Del
            } else if c == kb.spec_get(ConfigKeyBindingKey::KbReAnn) {
                Screen::ReAnn
            } else if c == kb.spec_get(ConfigKeyBindingKey::KbInfo) {
                Screen::Info
            } else {
                Screen::Home
            },
            None => Screen::Home,
        },
        Screen::SearchRes => match ev.ctrl_char() {
            Some(c) => if c == kb.spec_get(ConfigKeyBindingKey::KbInfo) {
                Screen::SearchInfo
            } else if c == kb.spec_get(ConfigKeyBindingKey::KbDownload) {
                Screen::Home
            } else {
                Screen::SearchRes
            },
            None => Screen::SearchRes,
        },
        Screen::Add | Screen::Search => if entry_leaves(ev) {
            parent_of(s1)
        } else {
            s1
        },
        Screen::Del | Screen::ReAnn => if confirm_leaves(ev) {
            parent_of(s1)
        } else {
            s1
        },
        Screen::Info | Screen::SearchInfo => if detail_leaves(ev) {
            parent_of(s1)
        } else {
            s1
        },
        Screen::Help | Screen::Popup => s1,
    }
}

/// The active screen after a key on screen `s`; the quit hotkey leaves it
/// as it was.
pub open spec fn route(s: Screen, ev: KeyEvent, kb: KeyBindingMap) -> Screen {
    if global_action(ev, kb) == Some(GlobalAction::Quit) {
        s
    } else {
        dispatched(handling_screen(s, ev, kb), ev, kb)
    }
}

/// Whether the handler of screen `s` reports that it is done with a key.
pub open spec fn handler_done(s: Screen, ev: KeyEvent) -> bool {
    match s {
        Screen::Add | Screen::Search => entry_leaves(ev),
        Screen::Del | Screen::ReAnn => confirm_leaves(ev),
        Screen::Info | Screen::SearchInfo => detail_leaves(ev),
        _ => false,
    }
}

/// Whether the list screen's own handler gets the key (no list shortcut
/// took it).
pub open spec fn home_handles(s1: Screen, ev: KeyEvent, kb: KeyBindingMap) -> bool {
    s1 == Screen::Home && dispatched(Screen::Home, ev, kb) == Screen::Home
}

/// Whether the results screen's own handler gets the key: any key but a
/// control shortcut, or the download shortcut (when it is not also the
/// info shortcut).
pub open spec fn results_handles(s1: Screen, ev: KeyEvent, kb: KeyBindingMap) -> bool {
    s1 == Screen::SearchRes && match ev.ctrl_char() {
        Some(c) => c != kb.spec_get(ConfigKeyBindingKey::KbInfo) && c == kb.spec_get(ConfigKeyBindingKey::KbDownload),
        None => true,
    }
}

/// What the router reports of one key.
pub struct Step {
    /// The quit hotkey was pressed: the loop ends.
    pub quit: bool,
    /// The running refresh worker is to be sent its cancellation signal.
    pub cancel_refresh: bool,
    /// The work the key asks for.
    pub effect: Option<Effect>,
}

/// How the screen of one loop iteration is drawn.
#[derive(Clone, Copy, Debug, PartialEq, Eq, Structural)]
pub enum DrawPlan {
    /// Start a refresh worker that draws this screen until cancelled.
    Worker(Screen),
    /// Draw this screen once.
    Once(Screen),
}

/// What the router asks at the top of a loop iteration.
pub struct Iteration {
    /// A worker still runs whose cancellation was never requested: send it
    /// the signal before starting another.
    pub cancel_previous: bool,
    pub draw: DrawPlan,
}

/// The navigation state machine: the active screen, the state of every
/// screen, and the ledger of refresh workers.
pub struct App {
    pub key_bindings: KeyBindingMap,
    pub state: AppState,
    pub home: HomeScreen,
    pub add: AddScreen,
    pub del: RmScreen,
    pub reann: ReannScreen,
    pub help: HelpScreen,
    pub search: SearchScreen,
    pub search_res: SearchResScreen,
    pub refresh: RefreshLedger,
}

/// The work asked for when a key is handled by screen `s1` of `a`.
pub open spec fn effect_of(a: App, s1: Screen, ev: KeyEvent, e: Option<Effect>) -> bool {
    let kb = a.key_bindings;
    match s1 {
        Screen::Home => match ev.ctrl_char() {
            Some(c) => if c == kb.spec_get(ConfigKeyBindingKey::KbDel) || c == kb.spec_get(
                ConfigKeyBindingKey::KbReAnn,
            ) || c == kb.spec_get(ConfigKeyBindingKey::KbInfo) {
                e.is_none()
            } else {
                e == home_effect(a.home.torrent_ids@, a.home.cursor.row, kb, ev)
            },
            None => e == home_effect(a.home.torrent_ids@, a.home.cursor.row, kb, ev),
        },
        Screen::SearchRes => match ev.ctrl_char() {
            Some(c) => if c == kb.spec_get(ConfigKeyBindingKey::KbInfo) {
                e.is_none()
            } else if c == kb.spec_get(ConfigKeyBindingKey::KbDownload) {
                results_effect(a.search.results@, a.search_res.detail, a.search_res.cursor.row, kb, ev, e)
            } else {
                e.is_none()
            },
            None => results_effect(a.search.results@, a.search_res.detail, a.search_res.cursor.row, kb, ev, e),
        },
        Screen::Add => if ev.is_press() && ev.code == KeyCode::Enter {
            adds(e, input_text(a.add.input))
        } else {
            e.is_none()
        },
        Screen::Search => if ev.is_press() && ev.code == KeyCode::Enter && term_verdict(input_text(a.search.input)) is Ok {
            searches(e, input_text(a.search.input))
        } else {
            e.is_none()
        },
        Screen::Del => e == if ev.is_press() && ev.code == KeyCode::Enter {
            match id_at(a.home.torrent_ids@, a.del.selected_row_index as int) {
                Some(id) => Some(Effect::Remove(id)),
                None => None,
            }
        } else {
            None
        },
        Screen::ReAnn => e == if ev.is_press() && ev.code == KeyCode::Enter {
            match id_at(a.home.torrent_ids@, a.reann.selected_row_index as int) {
                Some(id) => Some(Effect::Reannounce(id)),
                None => None,
            }
        } else {
            None
        },
        Screen::Info | Screen::SearchInfo => e == detail_effect(ev),
        Screen::Help | Screen::Popup => e.is_none(),
    }
}

impl App {
    pub open spec fn wf(&self) -> bool {
        &&& self.add.wf()
        &&& self.search.wf()
        &&& self.refresh.wf()
        &&& self.home.key_bindings() == self.key_bindings
        &&& self.search_res.key_bindings() == self.key_bindings
    }

    /// The state machine at start: on the list screen, with no worker.
    pub fn new(config: &Config) -> (r: App)
        ensures
            r.wf(),
            r.state.screen == Screen::Home,
            r.key_bindings == config.spec_values().spec_key_bindings(),
            !r.refresh.live(),
            r.refresh.sessions().len() == 0,
            r.home.torrent_ids@.len() == 0,
            r.home.cursor.row == 0,
            r.home.cursor.column.is_none(),
            r.home.detail.is_none(),
            input_text(r.add.input).len() == 0,
            input_cursor(r.add.input) == 0,
            input_text(r.search.input).len() == 0,
            input_cursor(r.search.input) == 0,
            r.search.results@.len() == 0,
            r.search.error.is_none(),
            r.search_res.cursor.row == 0,
            r.search_res.cursor.column.is_none(),
            r.search_res.detail.is_none(),
            r.del.selected_row_index == 0,
            r.reann.selected_row_index == 0,
    {
        let values = config.values();
        let kb = *values.key_bindings();
        App {
            key_bindings: kb,
            state: AppState::new(Screen::Home),
            home: HomeScreen::new(kb),
            add: AddScreen::new(kb),
            del: RmScreen::new(kb),
            reann: ReannScreen::new(kb),
            help: HelpScreen::new(kb),
            search: SearchScreen::new(kb),
            search_res: SearchResScreen::new(kb),
            refresh: RefreshLedger::new(),
        }
    }

    /// The top of a loop iteration: a screen that goes stale gets a fresh
    /// refresh worker (after the cancellation of any worker still live),
    /// any other screen is drawn once.
    pub fn begin_iteration(&mut self) -> (r: Iteration)
        requires
            old(self).wf(),
        ensures
            final(self).wf(),
            final(self).state == old(self).state,
            r.draw == if refreshes(old(self).state.screen) {
                DrawPlan::Worker(old(self).state.screen)
            } else {
                DrawPlan::Once(old(self).state.screen)
            },
            r.cancel_previous == (refreshes(old(self).state.screen) && old(self).refresh.live()),
            refreshes(old(self).state.screen) ==> final(self).refresh.live() && final(self).refresh.sessions().len()
                == old(self).refresh.sessions().len() + 1 && final(self).refresh.latest()->Some_0.screen
                == old(self).state.screen,
            !refreshes(old(self).state.screen) ==> final(self).refresh == old(self).refresh,
            final(self).home == old(self).home,
            final(self).add == old(self).add,
            final(self).del == old(self).del,
            final(self).reann == old(self).reann,
            final(self).search == old(self).search,
            final(self).search_res == old(self).search_res,
            final(self).key_bindings == old(self).key_bindings,
    {
        let screen = self.state.screen;
        if screen.needs_refresh() {
            let cancel_previous = self.refresh.is_live();
            if cancel_previous {
                self.refresh.request_cancel();
            }
            self.refresh.spawn(screen);
            Iteration { cancel_previous, draw: DrawPlan::Worker(screen) }
        } else {
            Iteration { cancel_previous: false, draw: DrawPlan::Once(screen) }
        }
    }

    /// The end of a loop iteration: the iteration's cancellation sender is
    /// dropped, which the worker of the iteration sees as a cancellation.
    pub fn end_iteration(&mut self)
        requires
            old(self).wf(),
        ensures
            final(self).wf(),
            !final(self).refresh.live(),
            final(self).refresh.sessions().len() == old(self).refresh.sessions().len(),
            final(self).state == old(self).state,
            final(self).home == old(self).home,
            final(self).add == old(self).add,
            final(self).del == old(self).del,
            final(self).reann == old(self).reann,
            final(self).search == old(self).search,
            final(self).search_res == old(self).search_res,
            final(self).key_bindings == old(self).key_bindings,
    {
        self.refresh.request_cancel();
    }

    /// Replaces the list of torrent ids with the one just fetched.
    pub fn set_torrent_ids(&mut self, ids: Vec<i64>)
        requires
            old(self).wf(),
        ensures
            final(self).wf(),
            final(self).home.torrent_ids@ == ids@,
            final(self).home.cursor.row == if old(self).home.cursor.row < ids@.len() || ids@.len() == 0 {
                old(self).home.cursor.row
            } else {
                (ids@.len() - 1) as usize
            },
            final(self).home.cursor.column == old(self).home.cursor.column,
            final(self).home.key_bindings() == old(self).home.key_bindings(),
            final(self).key_bindings == old(self).key_bindings,
            final(self).del == old(self).del,
            final(self).reann == old(self).reann,
            final(self).search_res == old(self).search_res,
            final(self).state == old(self).state,
            final(self).add == old(self).add,
            final(self).search == old(self).search,
            final(self).refresh == old(self).refresh,
    {
        self.home.set_torrent_ids(ids);
    }

    /// Takes in the answers of the two search backends; the results table
    /// starts over on its first row.
    pub fn set_search_answers(
        &mut self,
        pirate_bay: Result<Vec<PirateBayListTorrent>, SearchError>,
        torrents_csv: Result<Vec<TorrentsCsvTorrent>, SearchError>,
    )
        requires
            old(self).wf(),
        ensures
            final(self).wf(),
            final(self).home == old(self).home,
            final(self).add == old(self).add,
            final(self).del == old(self).del,
            final(self).reann == old(self).reann,
            final(self).key_bindings == old(self).key_bindings,
            final(self).search.input == old(self).search.input,
            final(self).search.error == old(self).search.error,
            final(self).search_res.detail.is_none(),
            search_outcome(answer_view(pirate_bay), answer_view(torrents_csv), final(self).search.results@),
            final(self).search_res.cursor.row == 0,
            final(self).state == old(self).state,
            final(self).refresh == old(self).refresh,
    {
        self.search.set_answers(pirate_bay, torrents_csv);
        self.search_res.reset();
    }

    /// Handles one key: the router's hotkeys first (quit ends the loop),
    /// then the handling screen, whose report may send control back to its
    /// parent.
    pub fn handle_key(&mut self, ev: &KeyEvent) -> (r: Step)
        requires
            old(self).wf(),
        ensures
            final(self).wf(),
            r.quit == (global_action(*ev, old(self).key_bindings) == Some(GlobalAction::Quit)),
            final(self).state.screen == route(old(self).state.screen, *ev, old(self).key_bindings),
            r.cancel_refresh == (old(self).refresh.live() && old(self).state.screen != Screen::Home),
            r.cancel_refresh ==> !final(self).refresh.live(),
            final(self).refresh.sessions().len() == old(self).refresh.sessions().len(),
            final(self).key_bindings == old(self).key_bindings,
            r.quit ==> r.effect.is_none(),
            !r.quit ==> effect_of(*old(self), handling_screen(old(self).state.screen, *ev, old(self).key_bindings), *ev, r.effect),
            !r.quit && handling_screen(old(self).state.screen, *ev, old(self).key_bindings) == Screen::Add
                ==> entry_after(old(self).add.input, *ev, final(self).add.input),
            !(!r.quit && handling_screen(old(self).state.screen, *ev, old(self).key_bindings) == Screen::Add)
                ==> final(self).add.input == old(self).add.input,
            !r.quit && handling_screen(old(self).state.screen, *ev, old(self).key_bindings) == Screen::Search
                ==> entry_after(old(self).search.input, *ev, final(self).search.input) && if ev.is_press() && ev.code
                == KeyCode::Enter {
                match term_verdict(input_text(old(self).search.input)) {
                    Ok(_) => final(self).search.error.is_none() && final(self).search.results@
                        == old(self).search.results@,
                    Err(e) => final(self).search.error == Some(e) && final(self).search.results@.len() == 0,
                }
            } else {
                final(self).search.error == old(self).search.error && final(self).search.results@
                    == old(self).search.results@
            },
            !r.quit && handling_screen(old(self).state.screen, *ev, old(self).key_bindings) == Screen::Home
                && dispatched(Screen::Home, *ev, old(self).key_bindings) == Screen::Home ==> final(self).home.cursor
                == if ev.is_press() {
                moved(old(self).home.cursor, old(self).home.torrent_ids@.len(), ev.code)
            } else {
                old(self).home.cursor
            },
            final(self).home.torrent_ids@ == old(self).home.torrent_ids@,
            final(self).home.config_key_bindings == old(self).home.config_key_bindings,
            !(!r.quit && home_handles(handling_screen(old(self).state.screen, *ev, old(self).key_bindings), *ev, old(self).key_bindings))
                ==> final(self).home == old(self).home,
            !r.quit && results_handles(handling_screen(old(self).state.screen, *ev, old(self).key_bindings), *ev, old(self).key_bindings)
                ==> final(self).search_res.cursor == if ev.is_press() {
                moved(old(self).search_res.cursor, old(self).search.results@.len(), ev.code)
            } else {
                old(self).search_res.cursor
            } && final(self).search_res.detail == old(self).search_res.detail
                && final(self).search_res.config_key_bindings == old(self).search_res.config_key_bindings,
            !(!r.quit && results_handles(handling_screen(old(self).state.screen, *ev, old(self).key_bindings), *ev, old(self).key_bindings))
                ==> final(self).search_res == old(self).search_res,
            !(!r.quit && handling_screen(old(self).state.screen, *ev, old(self).key_bindings) == Screen::Search)
                ==> final(self).search == old(self).search,
            final(self).search.config_key_bindings == old(self).search.config_key_bindings,
            final(self).help == old(self).help,
            final(self).del.config_key_bindings == old(self).del.config_key_bindings,
            final(self).reann.config_key_bindings == old(self).reann.config_key_bindings,
            !(!r.quit && handling_screen(old(self).state.screen, *ev, old(self).key_bindings) == Screen::Home
                && dispatched(Screen::Home, *ev, old(self).key_bindings) == Screen::Del) ==> final(self).del == old(self).del,
            !(!r.quit && handling_screen(old(self).state.screen, *ev, old(self).key_bindings) == Screen::Home
                && dispatched(Screen::Home, *ev, old(self).key_bindings) == Screen::ReAnn) ==> final(self).reann == old(self).reann,
            handling_screen(old(self).state.screen, *ev, old(self).key_bindings) == Screen::Home
                && dispatched(Screen::Home, *ev, old(self).key_bindings) == Screen::Del && !r.quit
                ==> final(self).del.selected_row_index == old(self).home.cursor.row,
            handling_screen(old(self).state.screen, *ev, old(self).key_bindings) == Screen::Home
                && dispatched(Screen::Home, *ev, old(self).key_bindings) == Screen::ReAnn && !r.quit
                ==> final(self).reann.selected_row_index == old(self).home.cursor.row,
    {
        let kb = self.key_bindings;
        let cancel_refresh = self.refresh.is_live() && self.state.screen != Screen::Home;
        if cancel_refresh {
            self.refresh.request_cancel();
        }
        if ev.press() {
            match ev.control_char() {
                Some(c) => {
                    if c == kb.get(ConfigKeyBindingKey::KbHome) {
                        self.state.screen = Screen::Home;
                    } else if c == kb.get(ConfigKeyBindingKey::KbAdd) {
                        self.state.screen = Screen::Add;
                    } else if c == kb.get(ConfigKeyBindingKey::KbSearch) {
                        self.state.screen = Screen::Search;
                    } else if c == kb.get(ConfigKeyBindingKey::KbHelp) {
                        self.state.screen = Screen::Help;
                    } else if c == kb.get(ConfigKeyBindingKey::KbQuit) {
                        return Step { quit: true, cancel_refresh, effect: None };
                    }
                },
                None => {},
            }
        }
        let effect = match self.state.screen {
            Screen::Home => {
                let local = match ev.control_char() {
                    Some(c) => if c == kb.get(ConfigKeyBindingKey::KbDel) {
                        Some(Screen::Del)
                    } else if c == kb.get(ConfigKeyBindingKey::KbReAnn) {
                        Some(Screen::ReAnn)
                    } else if c == kb.get(ConfigKeyBindingKey::KbInfo) {
                        Some(Screen::Info)
                    } else {
                        None
                    },
                    None => None,
                };
                match local {
                    Some(Screen::Del) => {
                        self.del.set_args(RmScreenArgs::new(self.home.active_row()));
                        self.state.screen = Screen::Del;
                        None
                    },
                    Some(Screen::ReAnn) => {
                        self.reann.set_args(ReannScreenArgs::new(self.home.active_row()));
                        self.state.screen = Screen::ReAnn;
                        None
                    },
                    Some(s) => {
                        self.state.screen = s;
                        None
                    },
                    None => self.home.handle_key_event(ev).effect,
                }
            },
            Screen::SearchRes => {
                match ev.control_char() {
                    Some(c) => if c == kb.get(ConfigKeyBindingKey::KbInfo) {
                        self.state.screen = Screen::SearchInfo;
                        None
                    } else if c == kb.get(ConfigKeyBindingKey::KbDownload) {
                        let h = self.search_res.handle_key_event(ev, &self.search.results);
                        self.state.screen = Screen::Home;
                        h.effect
                    } else {
                        None
                    },
                    None => self.search_res.handle_key_event(ev, &self.search.results).effect,
                }
            },
            Screen::Search => {
                let h = self.search.handle_key_event(ev);
                if !h.stay {
                    self.state.screen = Screen::SearchRes;
                }
                h.effect
            },
            Screen::SearchInfo => {
                let h = detail_key_event(ev);
                if !h.stay {
                    self.state.screen = Screen::SearchRes;
                }
                h.effect
            },
            Screen::Help => None,
            Screen::Add => {
                let h = self.add.handle_key_event(ev);
                if !h.stay {
                    self.state.screen = Screen::Home;
                }
                h.effect
            },
            Screen::ReAnn => {
                let h = self.reann.handle_key_event(ev, &self.home.torrent_ids);
                if !h.stay {
                    self.state.screen = Screen::Home;
                }
                h.effect
            },
            Screen::Del => {
                let h = self.del.handle_key_event(ev, &self.home.torrent_ids);
                if !h.stay {
                    self.state.screen = Screen::Home;
                }
                h.effect
            },
            Screen::Info => {
                let h = detail_key_event(ev);
                if !h.stay {
                    self.state.screen = Screen::Home;
                }
                h.effect
            },
            Screen::Popup => None,
        };
        Step { quit: false, cancel_refresh, effect }
    }
}

/// When the handler of a screen with a parent reports that it is done
/// (and no router hotkey fired), the active screen becomes that parent:
/// Add, Del, ReAnn and Info go back to Home; Search and SearchInfo go back
/// to SearchRes.
pub proof fn lemma_done_returns_to_parent(s: Screen, ev: KeyEvent, kb: KeyBindingMap)
    requires
        s == Screen::Add || s == Screen::Del || s == Screen::ReAnn || s == Screen::Info || s == Screen::Search
            || s == Screen::SearchInfo,
        global_action(ev, kb).is_none(),
        handler_done(s, ev),
    ensures
        route(s, ev, kb) == parent_of(s),
        s == Screen::Add || s == Screen::Del || s == Screen::ReAnn || s == Screen::Info ==> route(s, ev, kb)
            == Screen::Home,
        s == Screen::Search || s == Screen::SearchInfo ==> route(s, ev, kb) == Screen::SearchRes,
{
}

/// A router hotkey decides the next screen whatever screen was active:
/// the result is the hotkey's target, except that on arriving at Home the
/// list screen's own shortcuts (remove, reannounce, info) still apply to
/// the same key.
pub proof fn lemma_global_hotkey_wins(s: Screen, ev: KeyEvent, kb: KeyBindingMap, t: Screen)
    requires
        global_action(ev, kb) == Some(GlobalAction::Goto(t)),
    ensures
        t != Screen::Home ==> route(s, ev, kb) == t,
        t == Screen::Home ==> route(s, ev, kb) == {
            let c = ev.ctrl_char()->Some_0;
            if c == kb.spec_get(ConfigKeyBindingKey::KbDel) {
                Screen::Del
            } else if c == kb.spec_get(ConfigKeyBindingKey::KbReAnn) {
                Screen::ReAnn
            } else if c == kb.spec_get(ConfigKeyBindingKey::KbInfo) {
                Screen::Info
            } else {
                Screen::Home
            }
        },
{
}

/// Starting or stopping a torrent from the list, any number of times and
/// whatever the daemon makes of it, leaves the list screen active and asks
/// for the same work each time: nothing that the backend answers feeds
/// back into the choice of screen.
pub proof fn lemma_start_stop_keeps_mode(a: App, ev: KeyEvent, e: Option<Effect>)
    requires
        a.wf(),
        ev.is_press(),
        !ev.ctrl,
        ev.code == KeyCode::Char('s'),
    ensures
        route(Screen::Home, ev, a.key_bindings) == Screen::Home,
        effect_of(a, handling_screen(Screen::Home, ev, a.key_bindings), ev, e) <==> e == match id_at(
            a.home.torrent_ids@,
            a.home.cursor.row as int,
        ) {
            Some(id) => Some(if ev.shift {
                Effect::Stop(id)
            } else {
                Effect::Start(id)
            }),
            None => None,
        },
{
}

/// Confirming the removal of a row that the list no longer has (a torrent
/// already removed) asks for nothing and goes back to Home.
pub proof fn lemma_remove_missing_row(a: App, ev: KeyEvent, e: Option<Effect>)
    requires
        a.wf(),
        ev.is_press(),
        ev.code == KeyCode::Enter,
        a.del.selected_row_index >= a.home.torrent_ids@.len(),
    ensures
        route(Screen::Del, ev, a.key_bindings) == Screen::Home,
        effect_of(a, handling_screen(Screen::Del, ev, a.key_bindings), ev, e) <==> e.is_none(),
{
}

/// Typing a character on the add screen (no Control or Alt held, the
/// cursor at the end of the field) keeps the screen, asks for nothing, and
/// appends the character to the text that Enter will submit. The key's
/// edit is the one `KeyEvent::from_char` gives it.
pub proof fn lemma_typing_appends(a: App, a2: App, c: char, shift: bool, ev: KeyEvent, e: Option<Effect>)
    requires
        a.wf(),
        a.state.screen == Screen::Add,
        ev.code == KeyCode::Char(c),
        !ev.ctrl,
        !ev.alt,
        ev.shift == shift,
        ev.kind == KeyEventKind::Press,
        ev.edit == char_edit_of(c, false, shift, false),
        input_cursor(a.add.input) == input_text(a.add.input).len(),
        entry_after(a.add.input, ev, a2.add.input),
    ensures
        global_action(ev, a.key_bindings).is_none(),
        route(Screen::Add, ev, a.key_bindings) == Screen::Add,
        effect_of(a, handling_screen(Screen::Add, ev, a.key_bindings), ev, e) <==> e.is_none(),
        input_text(a2.add.input) == input_text(a.add.input).push(c),
        input_cursor(a2.add.input) == input_cursor(a.add.input) + 1,
{
    let t = input_text(a.add.input);
    assert(t.take(t.len() as int) =~= t);
    assert(t.skip(t.len() as int) =~= Seq::<char>::empty());
    assert(t.take(t.len() as int).push(c) + t.skip(t.len() as int) =~= t.push(c));
}

} // verus!
