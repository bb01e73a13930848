use crate::config::{ConfigKeyBindingKey, KeyBindingMap};
use crate::dto::{PirateBayListTorrent, SearchError, SearchTorrent, TorrentSource, TorrentsCsvTorrent};
use crate::key::{
    input_cursor, input_handle, input_new, input_reset, input_text, input_value, input_wf,
    edit_result, KeyCode, KeyEvent, KeyEventKind,
};
use crate::number::{field_value, parse_i64};
use crate::search::{
    by_seeders_desc, merge_results, stable_reordering, pirate_bay_hits, pirate_bay_hits_of, term_verdict,
    torrents_csv_hits, torrents_csv_hits_of, validate_search_term,
};
use tui_input::Input;
use vstd::multiset::Multiset;
use vstd::prelude::*;

verus! {

/// Work that a key press asks of the world outside the state machine.
pub enum Effect {
    /// Add a torrent by local path or magnet link.
    AddTorrent(String),
    Remove(i64),
    Start(i64),
    Stop(i64),
    Reannounce(i64),
    /// Open the download directory of a torrent.
    OpenLocation(i64),
    /// Query the search backends with a term.
    Search(String),
    ScrollUp,
    ScrollDown,
}

/// Whether `e` asks to add the torrent `text`.
pub open spec fn adds(e: Option<Effect>, text: Seq<char>) -> bool {
    match e {
        Some(Effect::AddTorrent(s)) => s@ == text,
        _ => false,
    }
}

/// Whether `e` asks to search for `text`.
pub open spec fn searches(e: Option<Effect>, text: Seq<char>) -> bool {
    match e {
        Some(Effect::Search(s)) => s@ == text,
        _ => false,
    }
}

/// What a screen's key handler reports: whether the screen stays active
/// (`false` hands control back to its parent), and the work it asks for.
pub struct Handled {
    pub stay: bool,
    pub effect: Option<Effect>,
}

/// The id at `row` of `ids`, where there is one.
pub open spec fn id_at(ids: Seq<i64>, row: int) -> Option<i64> {
    if 0 <= row < ids.len() {
        Some(ids[row])
    } else {
        None
    }
}

fn id_at_exec(ids: &Vec<i64>, row: usize) -> (r: Option<i64>)
    ensures
        r == id_at(ids@, row as int),
{
    if row < ids.len() {
        Some(ids[row])
    } else {
        None
    }
}

pub open spec fn next_row_of(row: usize, len: nat) -> usize {
    if row + 1 < len {
        (row + 1) as usize
    } else {
        row
    }
}

pub open spec fn previous_row_of(row: usize) -> usize {
    if row > 0 {
        (row - 1) as usize
    } else {
        row
    }
}

pub open spec fn next_column_of(c: Option<usize>) -> Option<usize> {
    match c {
        None => Some(0),
        Some(i) => Some(if i < usize::MAX {
            (i + 1) as usize
        } else {
            i
        }),
    }
}

pub open spec fn previous_column_of(c: Option<usize>) -> Option<usize> {
    match c {
        None => Some(usize::MAX),
        Some(i) => Some(if i > 0 {
            (i - 1) as usize
        } else {
            0
        }),
    }
}

/// The row and column cursor of a table.
pub struct TableCursor {
    pub row: usize,
    pub column: Option<usize>,
}

/// How a key moves a table cursor over `len` rows: `j`/Down and `k`/Up
/// move the row, `l`/Right and `h`/Left the column.
pub open spec fn moved(c: TableCursor, len: nat, code: KeyCode) -> TableCursor {
    match code {
        KeyCode::Char('j') | KeyCode::Down => TableCursor { row: next_row_of(c.row, len), column: c.column },
        KeyCode::Char('k') | KeyCode::Up => TableCursor { row: previous_row_of(c.row), column: c.column },
        KeyCode::Char('l') | KeyCode::Right => TableCursor { row: c.row, column: next_column_of(c.column) },
        KeyCode::Char('h') | KeyCode::Left => TableCursor { row: c.row, column: previous_column_of(c.column) },
        _ => c,
    }
}

pub open spec fn is_move_key(code: KeyCode) -> bool {
    match code {
        KeyCode::Char('j') | KeyCode::Down | KeyCode::Char('k') | KeyCode::Up | KeyCode::Char('l')
        | KeyCode::Right | KeyCode::Char('h') | KeyCode::Left => true,
        _ => false,
    }
}

impl TableCursor {
    pub fn new() -> (r: TableCursor)
        ensures
            r.row == 0,
            r.column == None::<usize>,
    {
        TableCursor { row: 0, column: None }
    }

    pub fn next_row(&mut self, len: usize)
        ensures
            final(self).row == next_row_of(old(self).row, len as nat),
            final(self).column == old(self).column,
    {
        if self.row < usize::MAX && self.row + 1 < len {
            self.row = self.row + 1;
        }
    }

    pub fn previous_row(&mut self)
        ensures
            final(self).row == previous_row_of(old(self).row),
            final(self).column == old(self).column,
    {
        if self.row > 0 {
            self.row = self.row - 1;
        }
    }

    pub fn next_column(&mut self)
        ensures
            final(self).column == next_column_of(old(self).column),
            final(self).row == old(self).row,
    {
        self.column = match self.column {
            None => Some(0),
            Some(i) => Some(if i < usize::MAX { i + 1 } else { i }),
        };
    }

    pub fn previous_column(&mut self)
        ensures
            final(self).column == previous_column_of(old(self).column),
            final(self).row == old(self).row,
    {
        self.column = match self.column {
            None => Some(usize::MAX),
            Some(i) => Some(if i > 0 { i - 1 } else { 0 }),
        };
    }

    /// Applies a movement key; reports whether `code` was one.
    pub fn apply(&mut self, len: usize, code: KeyCode) -> (r: bool)
        ensures
            r == is_move_key(code),
            *final(self) == moved(*old(self), len as nat, code),
    {
        match code {
            KeyCode::Char('j') | KeyCode::Down => {
                self.next_row(len);
                true
            },
            KeyCode::Char('k') | KeyCode::Up => {
                self.previous_row();
                true
            },
            KeyCode::Char('l') | KeyCode::Right => {
                self.next_column();
                true
            },
            KeyCode::Char('h') | KeyCode::Left => {
                self.previous_column();
                true
            },
            _ => false,
        }
    }
}

/// The list of torrents held by the daemon, with a cursor on it.
pub struct HomeScreen {
    pub config_key_bindings: KeyBindingMap,
    pub torrent_ids: Vec<i64>,
    pub cursor: TableCursor,
    /// The row and id of the torrent whose detail was fetched last.
    pub detail: Option<(usize, i64)>,
}

/// The work that a key asks of the list screen.
pub open spec fn home_effect(ids: Seq<i64>, row: usize, kb: KeyBindingMap, ev: KeyEvent) -> Option<Effect> {
    if !ev.is_press() || is_move_key(ev.code) {
        None
    } else if ev.code == KeyCode::Char('s') {
        match id_at(ids, row as int) {
            Some(id) => Some(if ev.shift {
                Effect::Stop(id)
            } else {
                Effect::Start(id)
            }),
            None => None,
        }
    } else if ev.ctrl_char() == Some(kb.spec_get(ConfigKeyBindingKey::KbOpen)) {
        match id_at(ids, row as int) {
            Some(id) => Some(Effect::OpenLocation(id)),
            None => None,
        }
    } else {
        None
    }
}

impl HomeScreen {
    pub open spec fn key_bindings(&self) -> KeyBindingMap {
        self.config_key_bindings
    }

    pub fn new(config_key_bindings: KeyBindingMap) -> (r: HomeScreen)
        ensures
            r.key_bindings() == config_key_bindings,
            r.torrent_ids@.len() == 0,
            r.cursor.row == 0,
            r.cursor.column == None::<usize>,
            r.detail.is_none(),
    {
        HomeScreen { config_key_bindings, torrent_ids: Vec::new(), cursor: TableCursor::new(), detail: None }
    }

    /// Moves the cursor one row down, staying on the list.
    pub fn next_row(&mut self)
        ensures
            final(self).cursor.row == next_row_of(old(self).cursor.row, old(self).torrent_ids@.len()),
            final(self).cursor.column == old(self).cursor.column,
            final(self).torrent_ids@ == old(self).torrent_ids@,
            final(self).detail == old(self).detail,
            final(self).key_bindings() == old(self).key_bindings(),
    {
        let n = self.torrent_ids.len();
        self.cursor.next_row(n);
    }

    /// Moves the cursor one row up, stopping at the first row.
    pub fn previous_row(&mut self)
        ensures
            final(self).cursor.row == previous_row_of(old(self).cursor.row),
            final(self).cursor.column == old(self).cursor.column,
            final(self).torrent_ids@ == old(self).torrent_ids@,
            final(self).detail == old(self).detail,
            final(self).key_bindings() == old(self).key_bindings(),
    {
        self.cursor.previous_row();
    }

    /// Selects the next column (the first when none is selected).
    pub fn next_column(&mut self)
        ensures
            final(self).cursor.column == next_column_of(old(self).cursor.column),
            final(self).cursor.row == old(self).cursor.row,
            final(self).torrent_ids@ == old(self).torrent_ids@,
            final(self).detail == old(self).detail,
            final(self).key_bindings() == old(self).key_bindings(),
    {
        self.cursor.next_column();
    }

    /// Selects the previous column (the last when none is selected).
    pub fn previous_column(&mut self)
        ensures
            final(self).cursor.column == previous_column_of(old(self).cursor.column),
            final(self).cursor.row == old(self).cursor.row,
            final(self).torrent_ids@ == old(self).torrent_ids@,
            final(self).detail == old(self).detail,
            final(self).key_bindings() == old(self).key_bindings(),
    {
        self.cursor.previous_column();
    }

    /// The highlighted row.
    pub fn active_row(&self) -> (r: usize)
        ensures
            r == self.cursor.row,
    {
        self.cursor.row
    }

    /// The id of the highlighted torrent, where the last known list has
    /// that row.
    pub fn active_row_torrent_id(&self) -> (r: Option<i64>)
        ensures
            r == id_at(self.torrent_ids@, self.cursor.row as int),
    {
        id_at_exec(&self.torrent_ids, self.cursor.row)
    }

    /// Whether the fetched detail is that of the highlighted torrent: same
    /// row, and the list still has the same torrent there.
    pub open spec fn detail_hit(&self) -> bool {
        match self.detail {
            Some((row, id)) => row == self.cursor.row && id_at(self.torrent_ids@, row as int) == Some(id),
            None => false,
        }
    }

    /// The id of the torrent whose detail should be fetched for the
    /// highlighted row: none when the last fetch was for it already, or
    /// when the list has no such row.
    pub fn info_request(&self) -> (r: Option<i64>)
        ensures
            r == if self.detail_hit() {
                None
            } else {
                id_at(self.torrent_ids@, self.cursor.row as int)
            },
    {
        let current = id_at_exec(&self.torrent_ids, self.cursor.row);
        match self.detail {
            Some((row, id)) => {
                if row == self.cursor.row && current == Some(id) {
                    return None;
                }
            },
            None => {},
        }
        current
    }

    /// Records that the detail of the highlighted torrent was fetched.
    pub fn note_detail_fetched(&mut self)
        ensures
            final(self).detail == match id_at(old(self).torrent_ids@, old(self).cursor.row as int) {
                Some(id) => Some((old(self).cursor.row, id)),
                None => None,
            },
            final(self).cursor == old(self).cursor,
            final(self).torrent_ids@ == old(self).torrent_ids@,
            final(self).key_bindings() == old(self).key_bindings(),
    {
        self.detail = match id_at_exec(&self.torrent_ids, self.cursor.row) {
            Some(id) => Some((self.cursor.row, id)),
            None => None,
        };
    }

    /// Replaces the list with the one just fetched; the cursor is brought
    /// back onto the list if it fell off its end.
    pub fn set_torrent_ids(&mut self, ids: Vec<i64>)
        ensures
            final(self).torrent_ids@ == ids@,
            final(self).cursor.row == if old(self).cursor.row < ids@.len() || ids@.len() == 0 {
                old(self).cursor.row
            } else {
                (ids@.len() - 1) as usize
            },
            final(self).cursor.column == old(self).cursor.column,
            final(self).detail == old(self).detail,
            final(self).key_bindings() == old(self).key_bindings(),
    {
        let n = ids.len();
        if n > 0 && self.cursor.row >= n {
            self.cursor.row = n - 1;
        }
        self.torrent_ids = ids;
    }

    /// Handles a key on the list: cursor moves, start (`s`) or stop
    /// (Shift+`s`) of the highlighted torrent, and opening its directory.
    pub fn handle_key_event(&mut self, ev: &KeyEvent) -> (r: Handled)
        ensures
            r.effect == home_effect(old(self).torrent_ids@, old(self).cursor.row, old(self).key_bindings(), *ev),
            final(self).cursor == if ev.is_press() {
                moved(old(self).cursor, old(self).torrent_ids@.len(), ev.code)
            } else {
                old(self).cursor
            },
            final(self).torrent_ids@ == old(self).torrent_ids@,
            final(self).detail == old(self).detail,
            final(self).key_bindings() == old(self).key_bindings(),
            r.stay == (ev.is_press() && !is_move_key(ev.code) && ev.code != KeyCode::Char('s') && ev.ctrl_char().is_none()) || !ev.is_press(),
    {
        if !ev.press() {
            return Handled { stay: true, effect: None };
        }
        let len = self.torrent_ids.len();
        if self.cursor.apply(len, ev.code) {
            return Handled { stay: false, effect: None };
        }
        if ev.code == KeyCode::Char('s') {
            let effect = match id_at_exec(&self.torrent_ids, self.cursor.row) {
                Some(id) => Some(if ev.shift { Effect::Stop(id) } else { Effect::Start(id) }),
                None => None,
            };
            return Handled { stay: false, effect };
        }
        match ev.control_char() {
            Some(c) => {
                let effect = if c == self.config_key_bindings.get(ConfigKeyBindingKey::KbOpen) {
                    match id_at_exec(&self.torrent_ids, self.cursor.row) {
                        Some(id) => Some(Effect::OpenLocation(id)),
                        None => None,
                    }
                } else {
                    None
                };
                Handled { stay: false, effect }
            },
            None => Handled { stay: true, effect: None },
        }
    }
}

/// Whether a key ends the interaction of a confirm screen (remove,
/// reannounce): Enter confirms, Esc cancels.
pub open spec fn confirm_leaves(ev: KeyEvent) -> bool {
    ev.is_press() && (ev.code == KeyCode::Enter || ev.code == KeyCode::Esc)
}

/// Arguments of the remove screen: the row to remove.
pub struct RmScreenArgs {
    selected_row_index: usize,
}

impl RmScreenArgs {
    pub closed spec fn row(&self) -> usize {
        self.selected_row_index
    }

    pub fn new(selected_row_index: usize) -> (r: RmScreenArgs)
        ensures
            r.row() == selected_row_index,
    {
        RmScreenArgs { selected_row_index }
    }

    pub fn get_selected_row_index(&self) -> (r: usize)
        ensures
            r == self.row(),
    {
        self.selected_row_index
    }
}

/// Asks to confirm the removal of the torrent of one row.
pub struct RmScreen {
    pub config_key_bindings: KeyBindingMap,
    pub selected_row_index: usize,
}

impl RmScreen {
    pub open spec fn key_bindings(&self) -> KeyBindingMap {
        self.config_key_bindings
    }

    pub fn new(config_key_bindings: KeyBindingMap) -> (r: RmScreen)
        ensures
            r.key_bindings() == config_key_bindings,
            r.selected_row_index == 0,
    {
        RmScreen { config_key_bindings, selected_row_index: 0 }
    }

    /// Points the screen at a row.
    pub fn set_args(&mut self, args: RmScreenArgs)
        ensures
            final(self).selected_row_index == args.row(),
            final(self).key_bindings() == old(self).key_bindings(),
    {
        self.selected_row_index = args.get_selected_row_index();
    }

    /// Enter removes the torrent of the row (when the list `ids` has it)
    /// and leaves; Esc leaves; other keys stay.
    pub fn handle_key_event(&self, ev: &KeyEvent, ids: &Vec<i64>) -> (r: Handled)
        ensures
            r.stay == !confirm_leaves(*ev),
            r.effect == if ev.is_press() && ev.code == KeyCode::Enter {
                match id_at(ids@, self.selected_row_index as int) {
                    Some(id) => Some(Effect::Remove(id)),
                    None => None,
                }
            } else {
                None
            },
    {
        if ev.press() && ev.code == KeyCode::Enter {
            let effect = match id_at_exec(ids, self.selected_row_index) {
                Some(id) => Some(Effect::Remove(id)),
                None => None,
            };
            Handled { stay: false, effect }
        } else if ev.press() && ev.code == KeyCode::Esc {
            Handled { stay: false, effect: None }
        } else {
            Handled { stay: true, effect: None }
        }
    }
}

/// Arguments of the reannounce screen: the row to reannounce.
pub struct ReannScreenArgs {
    selected_row_index: usize,
}

impl ReannScreenArgs {
    pub closed spec fn row(&self) -> usize {
        self.selected_row_index
    }

    pub fn new(selected_row_index: usize) -> (r: ReannScreenArgs)
        ensures
            r.row() == selected_row_index,
    {
        ReannScreenArgs { selected_row_index }
    }

    pub fn get_selected_row_index(&self) -> (r: usize)
        ensures
            r == self.row(),
    {
        self.selected_row_index
    }
}

/// Asks to confirm the reannounce of the torrent of one row.
pub struct ReannScreen {
    pub config_key_bindings: KeyBindingMap,
    pub selected_row_index: usize,
}

impl ReannScreen {
    pub open spec fn key_bindings(&self) -> KeyBindingMap {
        self.config_key_bindings
    }

    pub fn new(config_key_bindings: KeyBindingMap) -> (r: ReannScreen)
        ensures
            r.key_bindings() == config_key_bindings,
            r.selected_row_index == 0,
    {
        ReannScreen { config_key_bindings, selected_row_index: 0 }
    }

    /// Points the screen at a row.
    pub fn set_args(&mut self, args: ReannScreenArgs)
        ensures
            final(self).selected_row_index == args.row(),
            final(self).key_bindings() == old(self).key_bindings(),
    {
        self.selected_row_index = args.get_selected_row_index();
    }

    /// Enter reannounces the torrent of the row (when the list `ids` has
    /// it) and leaves; Esc leaves; other keys stay.
    pub fn handle_key_event(&self, ev: &KeyEvent, ids: &Vec<i64>) -> (r: Handled)
        ensures
            r.stay == !confirm_leaves(*ev),
            r.effect == if ev.is_press() && ev.code == KeyCode::Enter {
                match id_at(ids@, self.selected_row_index as int) {
                    Some(id) => Some(Effect::Reannounce(id)),
                    None => None,
                }
            } else {
                None
            },
    {
        if ev.press() && ev.code == KeyCode::Enter {
            let effect = match id_at_exec(ids, self.selected_row_index) {
                Some(id) => Some(Effect::Reannounce(id)),
                None => None,
            };
            Handled { stay: false, effect }
        } else if ev.press() && ev.code == KeyCode::Esc {
            Handled { stay: false, effect: None }
        } else {
            Handled { stay: true, effect: None }
        }
    }
}

/// The help screen; it has no interaction of its own.
pub struct HelpScreen {
    pub config_key_bindings: KeyBindingMap,
}

impl HelpScreen {
    pub open spec fn key_bindings(&self) -> KeyBindingMap {
        self.config_key_bindings
    }

    pub fn new(config_key_bindings: KeyBindingMap) -> (r: HelpScreen)
        ensures
            r.key_bindings() == config_key_bindings,
    {
        HelpScreen { config_key_bindings }
    }
}

/// Whether a key ends the interaction of a scrolling detail screen.
pub open spec fn detail_leaves(ev: KeyEvent) -> bool {
    ev.is_press() && ev.code == KeyCode::Esc
}

/// The scrolling that a key asks of a detail screen.
pub open spec fn detail_effect(ev: KeyEvent) -> Option<Effect> {
    if !ev.is_press() {
        None
    } else {
        match ev.code {
            KeyCode::Char('j') | KeyCode::Down => Some(Effect::ScrollDown),
            KeyCode::Char('k') | KeyCode::Up => Some(Effect::ScrollUp),
            _ => None,
        }
    }
}

/// Handles a key on a detail screen (torrent info, search-result info):
/// `j`/Down and `k`/Up scroll, Esc leaves.
pub fn detail_key_event(ev: &KeyEvent) -> (r: Handled)
    ensures
        r.stay == !detail_leaves(*ev),
        r.effect == detail_effect(*ev),
{
    if !ev.press() {
        return Handled { stay: true, effect: None };
    }
    match ev.code {
        KeyCode::Char('j') | KeyCode::Down => Handled { stay: true, effect: Some(Effect::ScrollDown) },
        KeyCode::Char('k') | KeyCode::Up => Handled { stay: true, effect: Some(Effect::ScrollUp) },
        KeyCode::Esc => Handled { stay: false, effect: None },
        _ => Handled { stay: true, effect: None },
    }
}

/// Whether a key ends the interaction of a text-entry screen: Enter
/// submits, Esc cancels.
pub open spec fn entry_leaves(ev: KeyEvent) -> bool {
    ev.is_press() && (ev.code == KeyCode::Enter || ev.code == KeyCode::Esc)
}

/// Whether a key edits the text of an entry screen: a press or repeat
/// that is not Enter or Esc and that carries an edit.
pub open spec fn entry_edits(ev: KeyEvent) -> bool {
    &&& ev.kind != KeyEventKind::Release
    &&& !entry_leaves(ev)
    &&& ev.edit.is_some()
}

/// The text field after a key on an entry screen: emptied on leaving,
/// edited by an edit key, unchanged otherwise.
pub open spec fn entry_after(i: Input, ev: KeyEvent, i2: Input) -> bool {
    if entry_leaves(ev) {
        input_text(i2) == Seq::<char>::empty() && input_cursor(i2) == 0
    } else if entry_edits(ev) {
        edit_result(input_text(i), input_cursor(i), ev.edit->Some_0, input_text(i2), input_cursor(i2))
    } else {
        i2 == i
    }
}

/// Applies the text part of a key to an entry field.
fn entry_edit(input: &mut Input, ev: &KeyEvent)
    requires
        input_wf(*old(input)),
        !entry_leaves(*ev),
    ensures
        entry_after(*old(input), *ev, *final(input)),
        input_wf(*final(input)),
{
    let edits = match ev.kind {
        KeyEventKind::Release => false,
        _ => true,
    };
    if edits {
        match ev.edit {
            Some(req) => input_handle(input, req),
            None => {},
        }
    }
}

/// The screen where a local path or magnet link is typed and added.
pub struct AddScreen {
    pub config_key_bindings: KeyBindingMap,
    pub input: Input,
}

impl AddScreen {
    pub open spec fn key_bindings(&self) -> KeyBindingMap {
        self.config_key_bindings
    }

    pub open spec fn wf(&self) -> bool {
        input_wf(self.input)
    }

    pub fn new(config_key_bindings: KeyBindingMap) -> (r: AddScreen)
        ensures
            r.key_bindings() == config_key_bindings,
            r.wf(),
            input_text(r.input) == Seq::<char>::empty(),
            input_cursor(r.input) == 0,
    {
        AddScreen { config_key_bindings, input: input_new() }
    }

    /// Enter asks to add the typed text and leaves with the field emptied;
    /// Esc leaves with the field emptied; other keys edit the field.
    pub fn handle_key_event(&mut self, ev: &KeyEvent) -> (r: Handled)
        requires
            old(self).wf(),
        ensures
            final(self).wf(),
            final(self).key_bindings() == old(self).key_bindings(),
            r.stay == !entry_leaves(*ev),
            entry_after(old(self).input, *ev, final(self).input),
            if ev.is_press() && ev.code == KeyCode::Enter {
                adds(r.effect, input_text(old(self).input))
            } else {
                r.effect.is_none()
            },
    {
        if ev.press() && ev.code == KeyCode::Enter {
            let text = input_value(&self.input);
            input_reset(&mut self.input);
            Handled { stay: false, effect: Some(Effect::AddTorrent(text)) }
        } else if ev.press() && ev.code == KeyCode::Esc {
            input_reset(&mut self.input);
            Handled { stay: false, effect: None }
        } else {
            entry_edit(&mut self.input, ev);
            Handled { stay: true, effect: None }
        }
    }
}

/// What a search shows from the answers of the two backends (see
/// `merged_results`), in terms of the backends' own records.
pub open spec fn search_outcome(
    pirate_bay: Result<Seq<PirateBayListTorrent>, SearchError>,
    torrents_csv: Result<Seq<TorrentsCsvTorrent>, SearchError>,
    r: Seq<SearchTorrent>,
) -> bool {
    match (pirate_bay, torrents_csv) {
        (Err(_), Err(_)) => r.len() == 0,
        (Err(_), Ok(b)) => torrents_csv_hits_of(b, r),
        (Ok(a), Err(_)) => pirate_bay_hits_of(a, r),
        (Ok(a), Ok(b)) => by_seeders_desc(r) && exists|x: Seq<SearchTorrent>, y: Seq<SearchTorrent>|
            pirate_bay_hits_of(a, x) && torrents_csv_hits_of(b, y) && stable_reordering(x + y, r)
                && r.to_multiset() == (x + y).to_multiset(),
    }
}

pub open spec fn answer_view<T>(r: Result<Vec<T>, SearchError>) -> Result<Seq<T>, SearchError> {
    match r {
        Ok(v) => Ok(v@),
        Err(e) => Err(e),
    }
}

/// The screen where a search term is typed; it keeps the results of the
/// last search.
pub struct SearchScreen {
    pub config_key_bindings: KeyBindingMap,
    pub input: Input,
    pub results: Vec<SearchTorrent>,
    pub error: Option<SearchError>,
}

impl SearchScreen {
    pub open spec fn key_bindings(&self) -> KeyBindingMap {
        self.config_key_bindings
    }

    pub open spec fn wf(&self) -> bool {
        input_wf(self.input)
    }

    pub fn new(config_key_bindings: KeyBindingMap) -> (r: SearchScreen)
        ensures
            r.key_bindings() == config_key_bindings,
            r.wf(),
            input_text(r.input) == Seq::<char>::empty(),
            input_cursor(r.input) == 0,
            r.results@.len() == 0,
            r.error.is_none(),
    {
        SearchScreen { config_key_bindings, input: input_new(), results: Vec::new(), error: None }
    }

    /// The results of the last search.
    pub fn get_results(&self) -> (r: &Vec<SearchTorrent>)
        ensures
            r@ == self.results@,
    {
        &self.results
    }

    /// Enter submits the typed term and leaves: a term of fewer than three
    /// characters is rejected on the spot (the results become empty and
    /// the reason is kept), a fit one is handed out to be searched. Esc
    /// leaves; other keys edit the field. The field is emptied on leaving.
    pub fn handle_key_event(&mut self, ev: &KeyEvent) -> (r: Handled)
        requires
            old(self).wf(),
        ensures
            final(self).wf(),
            final(self).key_bindings() == old(self).key_bindings(),
            r.stay == !entry_leaves(*ev),
            entry_after(old(self).input, *ev, final(self).input),
            if ev.is_press() && ev.code == KeyCode::Enter {
                match term_verdict(input_text(old(self).input)) {
                    Ok(_) => searches(r.effect, input_text(old(self).input)) && final(self).error.is_none()
                        && final(self).results@ == old(self).results@,
                    Err(e) => r.effect.is_none() && final(self).error == Some(e) && final(self).results@.len() == 0,
                }
            } else {
                r.effect.is_none() && final(self).error == old(self).error && final(self).results@
                    == old(self).results@
            },
    {
        if ev.press() && ev.code == KeyCode::Enter {
            let term = input_value(&self.input);
            input_reset(&mut self.input);
            match validate_search_term(term.as_str()) {
                Ok(_) => {
                    self.error = None;
                    Handled { stay: false, effect: Some(Effect::Search(term)) }
                },
                Err(e) => {
                    self.error = Some(e);
                    self.results = Vec::new();
                    Handled { stay: false, effect: None }
                },
            }
        } else if ev.press() && ev.code == KeyCode::Esc {
            input_reset(&mut self.input);
            Handled { stay: false, effect: None }
        } else {
            entry_edit(&mut self.input, ev);
            Handled { stay: true, effect: None }
        }
    }

    /// Takes in the answers of the two backends to a search.
    pub fn set_answers(
        &mut self,
        pirate_bay: Result<Vec<PirateBayListTorrent>, SearchError>,
        torrents_csv: Result<Vec<TorrentsCsvTorrent>, SearchError>,
    )
        ensures
            search_outcome(answer_view(pirate_bay), answer_view(torrents_csv), final(self).results@),
            final(self).input == old(self).input,
            final(self).error == old(self).error,
            final(self).key_bindings() == old(self).key_bindings(),
    {
        let a = match &pirate_bay {
            Ok(list) => Ok(pirate_bay_hits(list)),
            Err(e) => Err(*e),
        };
        let b = match &torrents_csv {
            Ok(list) => Ok(torrents_csv_hits(list)),
            Err(e) => Err(*e),
        };
        let ghost av = a;
        let ghost bv = b;
        self.results = merge_results(a, b);
        proof {
            match (av, bv) {
                (Ok(x), Ok(y)) => {
                    assert(pirate_bay_hits_of(pirate_bay->Ok_0@, x@));
                    assert(torrents_csv_hits_of(torrents_csv->Ok_0@, y@));
                },
                _ => {},
            }
        }
    }
}

/// The magnet link of an info hash.
pub open spec fn magnet_of(info_hash: Seq<char>) -> Seq<char> {
    "magnet:?xt=urn:btih:"@ + info_hash
}

/// Whether a cached detail belongs to row `row`: it was fetched for that
/// row and holds a name.
pub open spec fn detail_hit(detail: Option<(usize, SearchTorrent)>, row: usize) -> bool {
    match detail {
        Some((r, t)) => r == row && t.name@.len() > 0,
        None => false,
    }
}

/// The result shown for row `row`: its cached detail when the cache holds
/// it, else the row itself.
pub open spec fn shown_torrent(detail: Option<(usize, SearchTorrent)>, row: usize, results: Seq<SearchTorrent>) -> Option<
    SearchTorrent,
> {
    if detail_hit(detail, row) {
        Some(detail->Some_0.1)
    } else if row < results.len() {
        Some(results[row as int])
    } else {
        None
    }
}

/// Whether a key is the download shortcut of the results screen.
pub open spec fn is_download(kb: KeyBindingMap, ev: KeyEvent) -> bool {
    ev.is_press() && !is_move_key(ev.code) && ev.ctrl_char() == Some(kb.spec_get(ConfigKeyBindingKey::KbDownload))
}

/// The work that a key asks of the search-results screen: the download
/// shortcut adds the result shown for the highlighted row by its magnet
/// link.
pub open spec fn results_effect(
    results: Seq<SearchTorrent>,
    detail: Option<(usize, SearchTorrent)>,
    row: usize,
    kb: KeyBindingMap,
    ev: KeyEvent,
    e: Option<Effect>,
) -> bool {
    if is_download(kb, ev) && shown_torrent(detail, row, results) is Some {
        adds(e, magnet_of(shown_torrent(detail, row, results)->Some_0.info_hash@))
    } else {
        e.is_none()
    }
}

/// The table of search results, with a cursor and a cache of the detail
/// record fetched for the highlighted row.
pub struct SearchResScreen {
    pub config_key_bindings: KeyBindingMap,
    pub cursor: TableCursor,
    /// The detail of the result of one row, and that row.
    pub detail: Option<(usize, SearchTorrent)>,
}

impl SearchResScreen {
    pub open spec fn key_bindings(&self) -> KeyBindingMap {
        self.config_key_bindings
    }

    pub fn new(config_key_bindings: KeyBindingMap) -> (r: SearchResScreen)
        ensures
            r.key_bindings() == config_key_bindings,
            r.cursor.row == 0,
            r.cursor.column.is_none(),
            r.detail.is_none(),
    {
        SearchResScreen { config_key_bindings, cursor: TableCursor::new(), detail: None }
    }

    /// Moves the cursor one row down over `results`.
    pub fn next_row(&mut self, results: &Vec<SearchTorrent>)
        ensures
            final(self).cursor.row == next_row_of(old(self).cursor.row, results@.len()),
            final(self).cursor.column == old(self).cursor.column,
            final(self).detail == old(self).detail,
            final(self).key_bindings() == old(self).key_bindings(),
    {
        self.cursor.next_row(results.len());
    }

    /// Moves the cursor one row up, stopping at the first row.
    pub fn previous_row(&mut self)
        ensures
            final(self).cursor.row == previous_row_of(old(self).cursor.row),
            final(self).cursor.column == old(self).cursor.column,
            final(self).detail == old(self).detail,
            final(self).key_bindings() == old(self).key_bindings(),
    {
        self.cursor.previous_row();
    }

    /// Selects the next column (the first when none is selected).
    pub fn next_column(&mut self)
        ensures
            final(self).cursor.column == next_column_of(old(self).cursor.column),
            final(self).cursor.row == old(self).cursor.row,
            final(self).detail == old(self).detail,
            final(self).key_bindings() == old(self).key_bindings(),
    {
        self.cursor.next_column();
    }

    /// Selects the previous column (the last when none is selected).
    pub fn previous_column(&mut self)
        ensures
            final(self).cursor.column == previous_column_of(old(self).cursor.column),
            final(self).cursor.row == old(self).cursor.row,
            final(self).detail == old(self).detail,
            final(self).key_bindings() == old(self).key_bindings(),
    {
        self.cursor.previous_column();
    }

    /// Puts the cursor back on the first row and drops the cached detail,
    /// for a new list of results.
    pub fn reset(&mut self)
        ensures
            final(self).cursor.row == 0,
            final(self).cursor.column == old(self).cursor.column,
            final(self).detail.is_none(),
            final(self).key_bindings() == old(self).key_bindings(),
    {
        self.cursor.row = 0;
        self.detail = None;
    }

    /// Whether the cached detail belongs to the highlighted row.
    pub open spec fn cache_hit(&self) -> bool {
        detail_hit(self.detail, self.cursor.row)
    }

    /// The PirateBay id whose detail should be fetched for the highlighted
    /// row: none when the cache holds it, when the row is not a PirateBay
    /// result, or when its id is not a number.
    pub fn detail_request(&self, results: &Vec<SearchTorrent>) -> (r: Option<i64>)
        ensures
            r == if self.cache_hit() || self.cursor.row >= results@.len()
                || results@[self.cursor.row as int].source != TorrentSource::PirateBay {
                None
            } else {
                crate::number::parsed_i64(results@[self.cursor.row as int].id@)
            },
    {
        let hit = match &self.detail {
            Some((row, t)) => *row == self.cursor.row && t.name.as_str().unicode_len() > 0,
            None => false,
        };
        if hit || self.cursor.row >= results.len() {
            return None;
        }
        let t = &results[self.cursor.row];
        match t.source {
            TorrentSource::PirateBay => parse_i64(t.id.as_str()),
            _ => None,
        }
    }

    /// Stores the detail fetched for the highlighted row.
    pub fn store_detail(&mut self, detail: SearchTorrent)
        ensures
            final(self).detail == Some((old(self).cursor.row, detail)),
            final(self).cursor == old(self).cursor,
            final(self).key_bindings() == old(self).key_bindings(),
    {
        self.detail = Some((self.cursor.row, detail));
    }

    /// The result to show in detail for the highlighted row: the cached
    /// detail when it is for this row, else the row itself.
    pub fn active_row_torrent<'a>(&'a self, results: &'a Vec<SearchTorrent>) -> (r: Option<&'a SearchTorrent>)
        ensures
            r == if self.cache_hit() {
                Some(&self.detail->Some_0.1)
            } else if self.cursor.row < results@.len() {
                Some(&results@[self.cursor.row as int])
            } else {
                None
            },
    {
        match &self.detail {
            Some((row, t)) => {
                if *row == self.cursor.row && t.name.as_str().unicode_len() > 0 {
                    return Some(t);
                }
            },
            None => {},
        }
        if self.cursor.row < results.len() {
            Some(&results[self.cursor.row])
        } else {
            None
        }
    }

    /// Handles a key on the results table: cursor moves, and download of
    /// the highlighted result.
    pub fn handle_key_event(&mut self, ev: &KeyEvent, results: &Vec<SearchTorrent>) -> (r: Handled)
        ensures
            results_effect(results@, old(self).detail, old(self).cursor.row, old(self).key_bindings(), *ev, r.effect),
            r.stay == !(ev.is_press() && (is_move_key(ev.code) || ev.ctrl_char() == Some(
                old(self).key_bindings().spec_get(ConfigKeyBindingKey::KbDownload),
            ))),
            final(self).cursor == if ev.is_press() {
                moved(old(self).cursor, results@.len(), ev.code)
            } else {
                old(self).cursor
            },
            final(self).detail == old(self).detail,
            final(self).key_bindings() == old(self).key_bindings(),
    {
        if !ev.press() {
            return Handled { stay: true, effect: None };
        }
        if self.cursor.apply(results.len(), ev.code) {
            return Handled { stay: false, effect: None };
        }
        match ev.control_char() {
            Some(c) => {
                if c == self.config_key_bindings.get(ConfigKeyBindingKey::KbDownload) {
                    match self.active_row_torrent(results) {
                        Some(t) => {
                            let mut link = String::from_str("magnet:?xt=urn:btih:");
                            link.append(t.info_hash.as_str());
                            Handled { stay: false, effect: Some(Effect::AddTorrent(link)) }
                        },
                        None => Handled { stay: false, effect: None },
                    }
                } else {
                    Handled { stay: true, effect: None }
                }
            },
            None => Handled { stay: true, effect: None },
        }
    }
}

/// Marks the argument types that a screen is drawn with.
pub trait RenderableArgs {}

/// The arguments of a screen drawn from its own state alone.
#[derive(Clone, Copy, Debug, Default)]
pub struct EmptyRenderableArgs {}

impl RenderableArgs for EmptyRenderableArgs {}

impl RenderableArgs for RmScreenArgs {}

impl RenderableArgs for ReannScreenArgs {}

/// Arguments of the search-result detail screen: the result to show.
pub struct SearchInfoScreenArgs {
    selected_torrent: SearchTorrent,
}

impl SearchInfoScreenArgs {
    pub closed spec fn torrent(&self) -> SearchTorrent {
        self.selected_torrent
    }

    pub fn new(selected_torrent: SearchTorrent) -> (r: SearchInfoScreenArgs)
        ensures
            r.torrent() == selected_torrent,
    {
        SearchInfoScreenArgs { selected_torrent }
    }

    pub fn get_selected_torrent(&self) -> (r: &SearchTorrent)
        ensures
            *r == self.torrent(),
    {
        &self.selected_torrent
    }
}

impl RenderableArgs for SearchInfoScreenArgs {}

/// Arguments of the search-results screen: the results to list.
pub struct SearchResArgs {
    torrents: Vec<SearchTorrent>,
}

impl SearchResArgs {
    pub closed spec fn torrents(&self) -> Seq<SearchTorrent> {
        self.torrents@
    }

    pub fn new(torrents: Vec<SearchTorrent>) -> (r: SearchResArgs)
        ensures
            r.torrents() == torrents@,
    {
        SearchResArgs { torrents }
    }

    pub fn get_torrents(&self) -> (r: &Vec<SearchTorrent>)
        ensures
            r@ == self.torrents(),
    {
        &self.torrents
    }
}

impl RenderableArgs for SearchResArgs {}

} // verus!
