use crate::screen::{refreshes, Screen};
use vstd::prelude::*;

verus! {

/// How long a refresh worker sleeps between two draws, in milliseconds.
pub const REFRESH_INTERVAL_MS: u64 = 3000;

/// What a non-blocking look at a worker's cancellation channel found.
#[derive(Clone, Copy, Debug, PartialEq, Eq, Structural)]
pub enum CancelStatus {
    /// No signal yet.
    Empty,
    /// The cancellation signal arrived.
    Received,
    /// The sending side is gone, which counts as a cancellation.
    Disconnected,
}

/// Where a refresh worker stands in its loop.
#[derive(Clone, Copy, Debug, PartialEq, Eq, Structural)]
pub enum WorkerPhase {
    Draw,
    Sleep,
    Check,
    Done,
}

/// What a refresh worker is to do next.
#[derive(Clone, Copy, Debug, PartialEq, Eq, Structural)]
pub enum WorkerAction {
    /// Draw the target screen once, holding the terminal for the draw only.
    Draw,
    /// Sleep for the given number of milliseconds.
    Sleep(u64),
    /// Look, without blocking, at the cancellation channel.
    CheckCancel,
    /// Leave the loop.
    Exit,
}

/// The phase after the current one, given what the channel holds: draw,
/// sleep, look at the channel, and go round again unless a cancellation
/// (or a dropped sender) was seen.
pub open spec fn phase_after(p: WorkerPhase, s: CancelStatus) -> WorkerPhase {
    match p {
        WorkerPhase::Draw => WorkerPhase::Sleep,
        WorkerPhase::Sleep => WorkerPhase::Check,
        WorkerPhase::Check => if s == CancelStatus::Empty {
            WorkerPhase::Draw
        } else {
            WorkerPhase::Done
        },
        WorkerPhase::Done => WorkerPhase::Done,
    }
}

pub open spec fn action_of(p: WorkerPhase) -> WorkerAction {
    match p {
        WorkerPhase::Draw => WorkerAction::Draw,
        WorkerPhase::Sleep => WorkerAction::Sleep(REFRESH_INTERVAL_MS),
        WorkerPhase::Check => WorkerAction::CheckCancel,
        WorkerPhase::Done => WorkerAction::Exit,
    }
}

/// The phases a worker goes through from `p` in `n` steps while the
/// channel keeps holding `s`.
pub open spec fn trace(p: WorkerPhase, s: CancelStatus, n: nat) -> Seq<WorkerPhase>
    decreases n,
{
    if n == 0 {
        Seq::empty()
    } else {
        seq![p] + trace(phase_after(p, s), s, (n - 1) as nat)
    }
}

/// A background worker that keeps one screen current.
pub struct RefreshWorker {
    pub target: Screen,
    pub phase: WorkerPhase,
}

impl RefreshWorker {
    /// A worker for a screen that is redrawn in the background; it starts
    /// with a draw.
    pub fn new(target: Screen) -> (r: RefreshWorker)
        requires
            refreshes(target),
        ensures
            r.target == target,
            r.phase == WorkerPhase::Draw,
    {
        RefreshWorker { target, phase: WorkerPhase::Draw }
    }

    pub fn action(&self) -> (r: WorkerAction)
        ensures
            r == action_of(self.phase),
    {
        match self.phase {
            WorkerPhase::Draw => WorkerAction::Draw,
            WorkerPhase::Sleep => WorkerAction::Sleep(REFRESH_INTERVAL_MS),
            WorkerPhase::Check => WorkerAction::CheckCancel,
            WorkerPhase::Done => WorkerAction::Exit,
        }
    }

    /// Moves on once the current action is done; `status` is what the
    /// channel held, and matters only after a look at it.
    pub fn advance(&mut self, status: CancelStatus)
        ensures
            final(self).phase == phase_after(old(self).phase, status),
            final(self).target == old(self).target,
    {
        self.phase = match self.phase {
            WorkerPhase::Draw => WorkerPhase::Sleep,
            WorkerPhase::Sleep => WorkerPhase::Check,
            WorkerPhase::Check => match status {
                CancelStatus::Empty => WorkerPhase::Draw,
                _ => WorkerPhase::Done,
            },
            WorkerPhase::Done => WorkerPhase::Done,
        };
    }

    pub fn finished(&self) -> (r: bool)
        ensures
            r == (self.phase == WorkerPhase::Done),
    {
        match self.phase {
            WorkerPhase::Done => true,
            _ => false,
        }
    }
}

/// A worker that is cancelled stops within one sleep interval: from any
/// phase, while the signal (or the dropped sender) stays in the channel,
/// the worker is done after three steps, sleeps at most once on the way,
/// and draws nothing after it has looked at the channel. Once done, it
/// stays done and only exits.
pub proof fn lemma_cancelled_worker_stops(p: WorkerPhase, s: CancelStatus)
    requires
        s != CancelStatus::Empty,
    ensures
        ({
            let t = trace(p, s, 4);
            &&& t.len() == 4
            &&& t[3] == WorkerPhase::Done
            &&& forall|i: int, j: int| 0 <= i < j < 4 && t[i] == WorkerPhase::Sleep ==> t[j] != WorkerPhase::Sleep
            &&& forall|i: int, j: int| 0 <= i < j < 4 && t[i] == WorkerPhase::Check ==> t[j] != WorkerPhase::Draw
        }),
        phase_after(WorkerPhase::Check, s) == WorkerPhase::Done,
        forall|s2: CancelStatus| phase_after(WorkerPhase::Done, s2) == WorkerPhase::Done,
        action_of(WorkerPhase::Done) == WorkerAction::Exit,
{
    reveal_with_fuel(trace, 5);
    let p1 = phase_after(p, s);
    let p2 = phase_after(p1, s);
    let p3 = phase_after(p2, s);
    assert(trace(p3, s, 1) =~= seq![p3]);
    assert(trace(p2, s, 2) =~= seq![p2, p3]);
    assert(trace(p1, s, 3) =~= seq![p1, p2, p3]);
    assert(trace(p, s, 4) =~= seq![p, p1, p2, p3]);
}

/// One refresh worker as the router knows it.
#[derive(Clone, Copy, Debug, PartialEq, Eq, Structural)]
pub struct RefreshSession {
    pub screen: Screen,
    pub cancel_requested: bool,
}

/// Every refresh worker started so far, in order, and whether each one's
/// cancellation was requested.
pub struct RefreshLedger {
    current: Option<RefreshSession>,
    history: Ghost<Seq<RefreshSession>>,
}

impl RefreshLedger {
    pub closed spec fn sessions(&self) -> Seq<RefreshSession> {
        self.history@
    }

    pub closed spec fn latest(&self) -> Option<RefreshSession> {
        self.current
    }

    /// The latest worker is the current one, and every earlier worker had
    /// its cancellation requested.
    pub closed spec fn wf(&self) -> bool {
        &&& match self.current {
            None => self.history@.len() == 0,
            Some(c) => self.history@.len() > 0 && self.history@.last() == c,
        }
        &&& forall|i: int| 0 <= i < self.history@.len() - 1 ==> (#[trigger] self.history@[i]).cancel_requested
    }

    /// Whether a worker runs whose cancellation was not requested.
    pub open spec fn live(&self) -> bool {
        match self.latest() {
            Some(c) => !c.cancel_requested,
            None => false,
        }
    }

    pub fn new() -> (r: RefreshLedger)
        ensures
            r.wf(),
            r.sessions().len() == 0,
            !r.live(),
    {
        RefreshLedger { current: None, history: Ghost(Seq::empty()) }
    }

    pub fn is_live(&self) -> (r: bool)
        ensures
            r == self.live(),
    {
        match self.current {
            Some(c) => !c.cancel_requested,
            None => false,
        }
    }

    /// Records that the current worker's cancellation is requested.
    pub fn request_cancel(&mut self)
        requires
            old(self).wf(),
        ensures
            final(self).wf(),
            !final(self).live(),
            final(self).sessions().len() == old(self).sessions().len(),
            forall|i: int| 0 <= i < old(self).sessions().len() ==> (#[trigger] final(self).sessions()[i]).screen
                == old(self).sessions()[i].screen,
            final(self).latest() == match old(self).latest() {
                Some(c) => Some(RefreshSession { screen: c.screen, cancel_requested: true }),
                None => None,
            },
    {
        match self.current {
            Some(c) => {
                let n = RefreshSession { screen: c.screen, cancel_requested: true };
                self.current = Some(n);
                self.history = Ghost(self.history@.update(self.history@.len() - 1, n));
            },
            None => {},
        }
    }

    /// Records a new worker for `screen`; the previous one must have had
    /// its cancellation requested.
    pub fn spawn(&mut self, screen: Screen)
        requires
            old(self).wf(),
            !old(self).live(),
        ensures
            final(self).wf(),
            final(self).live(),
            final(self).sessions() == old(self).sessions().push(RefreshSession { screen, cancel_requested: false }),
            final(self).latest() == Some(RefreshSession { screen, cancel_requested: false }),
    {
        let n = RefreshSession { screen, cancel_requested: false };
        self.current = Some(n);
        self.history = Ghost(self.history@.push(n));
    }
}

/// At most one refresh worker is alive at any time: of any two workers
/// started, the earlier one had its cancellation requested (before the
/// later one was started, since a ledger only records a start once the
/// previous worker is cancelled).
pub proof fn lemma_one_live_worker(l: RefreshLedger)
    requires
        l.wf(),
    ensures
        forall|i: int, j: int|
            #![trigger l.sessions()[i], l.sessions()[j]]
            0 <= i < j < l.sessions().len() ==> l.sessions()[i].cancel_requested,
{
    assert forall|i: int, j: int|
        #![trigger l.sessions()[i], l.sessions()[j]]
        0 <= i < j < l.sessions().len() implies l.sessions()[i].cancel_requested by {
        assert(i < l.sessions().len() - 1);
    }
}

} // verus!
