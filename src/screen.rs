use vstd::prelude::*;

verus! {

/// The mutually exclusive modes of the dashboard.
#[derive(Clone, Copy, Debug, PartialEq, Eq, Structural)]
pub enum Screen {
    Home,
    Help,
    Add,
    ReAnn,
    Del,
    Info,
    Search,
    SearchRes,
    SearchInfo,
    Popup,
}

/// The mode that a screen hands control back to once its handler reports
/// that it is done. Screens without a parent stay where they are.
pub open spec fn parent_of(s: Screen) -> Screen {
    match s {
        Screen::Add | Screen::Del | Screen::ReAnn | Screen::Info => Screen::Home,
        Screen::Search | Screen::SearchInfo => Screen::SearchRes,
        _ => s,
    }
}

/// Screens whose data goes stale while the user is idle, and which are
/// therefore redrawn by a background worker.
pub open spec fn refreshes(s: Screen) -> bool {
    s == Screen::Home || s == Screen::Info
}

impl Screen {
    /// The screen to return to when this screen's handler reports `false`.
    pub fn parent(self) -> (r: Screen)
        ensures
            r == parent_of(self),
    {
        match self {
            Screen::Add | Screen::Del | Screen::ReAnn | Screen::Info => Screen::Home,
            Screen::Search | Screen::SearchInfo => Screen::SearchRes,
            _ => self,
        }
    }

    /// Whether this screen is kept current by a refresh worker.
    pub fn needs_refresh(self) -> (r: bool)
        ensures
            r == refreshes(self),
    {
        match self {
            Screen::Home | Screen::Info => true,
            _ => false,
        }
    }
}

/// The router's state: the active screen and a pending popup message.
pub struct AppState {
    pub screen: Screen,
    pub popup_msg: String,
}

impl AppState {
    pub fn new(screen: Screen) -> (r: AppState)
        ensures
            r.screen == screen,
            r.popup_msg@ == Seq::<char>::empty(),
    {
        AppState { screen, popup_msg: String::new() }
    }
}

} // verus!
