use crate::number::{decimal_text, i64_text};
use crate::screens::Effect;
use vstd::prelude::*;

verus! {

/// The command line that asks the daemon's remote client, in JSON mode,
/// for `args`.
pub open spec fn remote_command(args: Seq<char>) -> Seq<char> {
    "transmission-remote -j "@ + args
}

/// `p` occurs in `s` at position `i`.
pub open spec fn occurs_at(s: Seq<char>, p: Seq<char>, i: int) -> bool {
    0 <= i && i + p.len() <= s.len() && s.subrange(i, i + p.len()) == p
}

/// `p` occurs somewhere in `s`.
pub open spec fn has_text(s: Seq<char>, p: Seq<char>) -> bool {
    exists|i: int| occurs_at(s, p, i)
}

fn occurs_at_exec(s: &str, p: &str, i: usize, n: usize, m: usize) -> (r: bool)
    requires
        n == s@.len(),
        m == p@.len(),
        i + m <= n,
    ensures
        r == occurs_at(s@, p@, i as int),
{
    let mut j: usize = 0;
    while j < m
        invariant
            n == s@.len(),
            m == p@.len(),
            i + m <= n,
            j <= m,
            forall|k: int| 0 <= k < j ==> s@[i + k] == p@[k],
        decreases m - j,
    {
        if s.get_char(i + j) != p.get_char(j) {
            proof {
                assert(s@.subrange(i as int, i + m)[j as int] != p@[j as int]);
            }
            return false;
        }
        j = j + 1;
    }
    proof {
        assert(s@.subrange(i as int, i + m) =~= p@);
    }
    true
}

/// Whether `p` occurs in `s`.
pub fn contains_text(s: &str, p: &str) -> (r: bool)
    ensures
        r == has_text(s@, p@),
{
    let n = s.unicode_len();
    let m = p.unicode_len();
    if m > n {
        proof {
            assert forall|i: int| !occurs_at(s@, p@, i) by {}
        }
        return false;
    }
    let mut i: usize = 0;
    while i < n - m
        invariant
            n == s@.len(),
            m == p@.len(),
            m <= n,
            i <= n - m,
            forall|k: int| 0 <= k < i ==> !occurs_at(s@, p@, k),
        decreases n - m - i,
    {
        if occurs_at_exec(s, p, i, n, m) {
            return true;
        }
        i = i + 1;
    }
    if occurs_at_exec(s, p, i, n, m) {
        return true;
    }
    proof {
        assert forall|k: int| !occurs_at(s@, p@, k) by {
            if 0 <= k <= i {
            }
        }
    }
    false
}

/// The command lines that drive the torrent daemon through its remote
/// client; running them is left to the caller.
#[derive(Clone, Copy, Debug, Default)]
pub struct Service {}

fn remote(prefix: &str, arg: &str, suffix: &str) -> (r: String)
    ensures
        r@ == remote_command(prefix@ + arg@ + suffix@),
{
    let mut line = String::from_str("transmission-remote -j ");
    line.append(prefix);
    line.append(arg);
    line.append(suffix);
    proof {
        assert(line@ =~= remote_command(prefix@ + arg@ + suffix@));
    }
    line
}

impl Service {
    /// The command line that adds the torrent at a local path or magnet link.
    pub fn torrent_add(&self, tor: String) -> (r: String)
        ensures
            r@ == remote_command("-a "@ + tor@),
    {
        let line = remote("-a ", tor.as_str(), "");
        proof {
            reveal_strlit("");
            assert("-a "@ + tor@ + ""@ =~= "-a "@ + tor@);
        }
        line
    }

    /// The command line that removes a torrent.
    pub fn torrent_remove(&self, tor_id: String) -> (r: String)
        ensures
            r@ == remote_command("-t "@ + tor_id@ + " -r"@),
    {
        remote("-t ", tor_id.as_str(), " -r")
    }

    /// The command line that starts a torrent.
    pub fn torrent_start(&self, tor_id: String) -> (r: String)
        ensures
            r@ == remote_command("-t "@ + tor_id@ + " -s"@),
    {
        remote("-t ", tor_id.as_str(), " -s")
    }

    /// The command line that stops a torrent.
    pub fn torrent_stop(&self, tor_id: String) -> (r: String)
        ensures
            r@ == remote_command("-t "@ + tor_id@ + " -S"@),
    {
        remote("-t ", tor_id.as_str(), " -S")
    }

    /// The command line that asks the trackers of a torrent for peers again.
    pub fn torrent_reannounce(&self, tor_id: String) -> (r: String)
        ensures
            r@ == remote_command("-t "@ + tor_id@ + " --reannounce"@),
    {
        remote("-t ", tor_id.as_str(), " --reannounce")
    }

    /// The command line that describes a torrent.
    pub fn torrent_info(&self, tor_id: String) -> (r: String)
        ensures
            r@ == remote_command("-t "@ + tor_id@ + " -i"@),
    {
        remote("-t ", tor_id.as_str(), " -i")
    }

    /// The command line that lists the files of a torrent.
    pub fn torrent_files(&self, tor_id: String) -> (r: String)
        ensures
            r@ == remote_command("-t "@ + tor_id@ + " -f"@),
    {
        remote("-t ", tor_id.as_str(), " -f")
    }

    /// The command line that lists the peers of a torrent.
    pub fn torrent_peers(&self, tor_id: String) -> (r: String)
        ensures
            r@ == remote_command("-t "@ + tor_id@ + " -ip"@),
    {
        remote("-t ", tor_id.as_str(), " -ip")
    }

    /// The command line that lists the trackers of a torrent.
    pub fn torrent_trackers(&self, tor_id: String) -> (r: String)
        ensures
            r@ == remote_command("-t "@ + tor_id@ + " -it"@),
    {
        remote("-t ", tor_id.as_str(), " -it")
    }

    /// The command line that lists all torrents.
    pub fn torrent_list(&self) -> (r: String)
        ensures
            r@ == remote_command("-l"@),
    {
        let line = remote("-l", "", "");
        proof {
            reveal_strlit("");
            assert("-l"@ + ""@ + ""@ =~= "-l"@);
        }
        line
    }

    /// The command line that asks the service manager for the daemon's
    /// state.
    pub fn daemon_status_command(&self) -> (r: String)
        ensures
            r@ == "systemctl is-active transmission-daemon.service"@,
    {
        String::from_str("systemctl is-active transmission-daemon.service")
    }

    /// Whether the service manager's answer says that the daemon runs: an
    /// answer that is not empty, says "active" and does not say "inactive".
    pub fn daemon_is_active(&self, status: &str) -> (r: bool)
        ensures
            r == (status@.len() > 0 && !has_text(status@, "inactive"@) && has_text(status@, "active"@)),
    {
        if status.unicode_len() == 0 {
            return false;
        }
        !contains_text(status, "inactive") && contains_text(status, "active")
    }

    /// The command line that opens a download directory.
    pub fn torrent_location(&self, download_dir: String) -> (r: String)
        ensures
            r@ == "xdg-open "@ + download_dir@,
    {
        let mut line = String::from_str("xdg-open ");
        line.append(download_dir.as_str());
        line
    }

    /// The command line that carries out a daemon effect of a key, for
    /// the effects that are one command: add, remove, start, stop and
    /// reannounce. Others (search, scrolling, opening a directory, which
    /// needs the torrent's details first) have none.
    pub fn command_for(&self, effect: &Effect) -> (r: Option<String>)
        ensures
            match *effect {
                Effect::AddTorrent(s) => r is Some && r->Some_0@ == remote_command("-a "@ + s@),
                Effect::Remove(id) => r is Some && r->Some_0@ == remote_command("-t "@ + decimal_text(id as int) + " -r"@),
                Effect::Start(id) => r is Some && r->Some_0@ == remote_command("-t "@ + decimal_text(id as int) + " -s"@),
                Effect::Stop(id) => r is Some && r->Some_0@ == remote_command("-t "@ + decimal_text(id as int) + " -S"@),
                Effect::Reannounce(id) => r is Some && r->Some_0@ == remote_command(
                    "-t "@ + decimal_text(id as int) + " --reannounce"@,
                ),
                _ => r is None,
            },
    {
        match effect {
            Effect::AddTorrent(s) => Some(self.torrent_add(s.clone())),
            Effect::Remove(id) => Some(self.torrent_remove(i64_text(*id))),
            Effect::Start(id) => Some(self.torrent_start(i64_text(*id))),
            Effect::Stop(id) => Some(self.torrent_stop(i64_text(*id))),
            Effect::Reannounce(id) => Some(self.torrent_reannounce(i64_text(*id))),
            _ => None,
        }
    }
}

} // verus!
