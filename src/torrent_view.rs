use vstd::prelude::*;

verus! {

/// How long a torrent still needs, as shown in the list.
#[derive(Clone, Copy, Debug, PartialEq, Eq, Structural)]
pub enum Eta {
    /// Nothing is left to download.
    Done,
    /// The daemon gives no estimate.
    Unknown,
    /// The estimate split for display; each part is taken modulo the unit
    /// above it as the list shows it (hours modulo 60, days modulo 24).
    Time { days: i64, hours: i64, minutes: i64, seconds: i64 },
}

/// The display of an estimate of `eta` seconds for a torrent with
/// `left_until_done` bytes left.
pub open spec fn eta_of(left_until_done: i64, eta: i64) -> Eta {
    if left_until_done == 0 {
        Eta::Done
    } else if eta <= 0 {
        Eta::Unknown
    } else {
        Eta::Time {
            days: ((eta / 86400) % 24) as i64,
            hours: ((eta / 3600) % 60) as i64,
            minutes: ((eta / 60) % 60) as i64,
            seconds: (eta % 60) as i64,
        }
    }
}

/// Display values of a torrent of the daemon.
pub struct TorrentView {}

impl TorrentView {
    /// The remaining time of a torrent, from the bytes it has left and the
    /// daemon's estimate in seconds.
    pub fn eta(left_until_done: i64, eta: i64) -> (r: Eta)
        ensures
            r == eta_of(left_until_done, eta),
    {
        if left_until_done == 0 {
            return Eta::Done;
        }
        if eta <= 0 {
            return Eta::Unknown;
        }
        Eta::Time { days: (eta / 86400) % 24, hours: (eta / 3600) % 60, minutes: (eta / 60) % 60, seconds: eta % 60 }
    }
}

} // verus!
