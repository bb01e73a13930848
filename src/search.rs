use crate::dto::{PirateBayListTorrent, SearchError, SearchTorrent, TorrentsCsvTorrent};
use crate::number::{decimal_text, i64_text};
use crate::mapper::{from_pirate_bay_list, from_torrents_csv, Mapper};
use vstd::multiset::Multiset;
use vstd::prelude::*;

verus! {

/// The most PirateBay listing entries that a search keeps.
pub const PIRATE_BAY_LIMIT: usize = 20;

/// The verdict on a search term: empty, too short (under three
/// characters), or fit to be sent.
pub open spec fn term_verdict(term: Seq<char>) -> Result<(), SearchError> {
    if term.len() == 0 {
        Err(SearchError::Empty)
    } else if term.len() < 3 {
        Err(SearchError::TooShort)
    } else {
        Ok(())
    }
}

/// Checks a search term before any backend is asked.
pub fn validate_search_term(term: &str) -> (r: Result<(), SearchError>)
    ensures
        r == term_verdict(term@),
{
    let n = term.unicode_len();
    if n == 0 {
        Err(SearchError::Empty)
    } else if n < 3 {
        Err(SearchError::TooShort)
    } else {
        Ok(())
    }
}

/// `r` lists, in order, the results made of the first (at most twenty)
/// entries of a PirateBay listing.
pub open spec fn pirate_bay_hits_of(list: Seq<PirateBayListTorrent>, r: Seq<SearchTorrent>) -> bool {
    let n = if list.len() < PIRATE_BAY_LIMIT {
        list.len()
    } else {
        PIRATE_BAY_LIMIT as nat
    };
    &&& r.len() == n
    &&& forall|i: int| 0 <= i < n ==> from_pirate_bay_list(#[trigger] list[i], r[i])
}

/// `r` lists, in order, the results made of a torrents-csv answer.
pub open spec fn torrents_csv_hits_of(list: Seq<TorrentsCsvTorrent>, r: Seq<SearchTorrent>) -> bool {
    &&& r.len() == list.len()
    &&& forall|i: int| 0 <= i < list.len() ==> from_torrents_csv(#[trigger] list[i], r[i])
}

/// The results of a PirateBay listing: its first twenty entries at most.
pub fn pirate_bay_hits(list: &Vec<PirateBayListTorrent>) -> (r: Vec<SearchTorrent>)
    ensures
        pirate_bay_hits_of(list@, r@),
{
    let n = if list.len() < PIRATE_BAY_LIMIT {
        list.len()
    } else {
        PIRATE_BAY_LIMIT
    };
    let mut out: Vec<SearchTorrent> = Vec::new();
    let mut i: usize = 0;
    while i < n
        invariant
            n <= list@.len(),
            n == if list@.len() < PIRATE_BAY_LIMIT {
                list@.len()
            } else {
                PIRATE_BAY_LIMIT as nat
            },
            i <= n,
            out@.len() == i,
            forall|j: int| 0 <= j < i ==> from_pirate_bay_list(#[trigger] list@[j], out@[j]),
        decreases n - i,
    {
        out.push(Mapper::pirate_bay_list_torrent_to_search_torrent(&list[i]));
        i = i + 1;
    }
    out
}

/// The results of a torrents-csv answer, all of them.
pub fn torrents_csv_hits(list: &Vec<TorrentsCsvTorrent>) -> (r: Vec<SearchTorrent>)
    ensures
        torrents_csv_hits_of(list@, r@),
{
    let n = list.len();
    let mut out: Vec<SearchTorrent> = Vec::new();
    let mut i: usize = 0;
    while i < n
        invariant
            n == list@.len(),
            i <= n,
            out@.len() == i,
            forall|j: int| 0 <= j < i ==> from_torrents_csv(#[trigger] list@[j], out@[j]),
        decreases n - i,
    {
        out.push(Mapper::torrents_csv_torrent_to_search_torrent(&list[i]));
        i = i + 1;
    }
    out
}

/// No result comes before one with more seeders.
pub open spec fn by_seeders_desc(s: Seq<SearchTorrent>) -> bool {
    forall|i: int, j: int| 0 <= i < j < s.len() ==> #[trigger] s[i].seeders >= #[trigger] s[j].seeders
}

/// `idx` shows `r` to be `s` reordered: `r[i]` is `s[idx[i]]`, each
/// place of `s` used once, and results with equal seeders kept in the
/// order they had in `s`.
pub open spec fn stable_index(s: Seq<SearchTorrent>, r: Seq<SearchTorrent>, idx: Seq<int>) -> bool {
    &&& r.len() == s.len()
    &&& idx.len() == r.len()
    &&& forall|i: int| 0 <= i < r.len() ==> 0 <= #[trigger] idx[i] < s.len() && r[i] == s[idx[i]]
    &&& forall|i: int, j: int| 0 <= i < j < r.len() ==> #[trigger] idx[i] != #[trigger] idx[j]
    &&& forall|i: int, j: int|
        0 <= i < j < r.len() && #[trigger] r[i].seeders == #[trigger] r[j].seeders ==> idx[i] < idx[j]
}

/// `r` is `s` reordered, keeping the order of results with equal seeders.
pub open spec fn stable_reordering(s: Seq<SearchTorrent>, r: Seq<SearchTorrent>) -> bool {
    exists|idx: Seq<int>| stable_index(s, r, idx)
}

/// Orders results by seeders, most first; results with equal seeders keep
/// their order.
pub fn sort_by_seeders(v: Vec<SearchTorrent>) -> (r: Vec<SearchTorrent>)
    ensures
        by_seeders_desc(r@),
        stable_reordering(v@, r@),
        r@.to_multiset() == v@.to_multiset(),
{
    broadcast use vstd::seq_lib::group_to_multiset_ensures;

    let ghost n = v@.len();
    let ghost orig = v@;
    let mut rest = v;
    let mut out: Vec<SearchTorrent> = Vec::new();
    let ghost mut idx: Seq<int> = Seq::empty();
    while rest.len() > 0
        invariant
            by_seeders_desc(out@),
            out@.to_multiset().add(rest@.to_multiset()) == orig.to_multiset(),
            n == orig.len(),
            rest@ == orig.take(rest@.len() as int),
            rest@.len() <= n,
            out@.len() + rest@.len() == n,
            idx.len() == out@.len(),
            forall|i: int| 0 <= i < out@.len() ==> rest@.len() <= #[trigger] idx[i] < n && out@[i] == orig[idx[i]],
            forall|i: int, j: int| 0 <= i < j < out@.len() ==> #[trigger] idx[i] != #[trigger] idx[j],
            forall|i: int, j: int|
                0 <= i < j < out@.len() && #[trigger] out@[i].seeders == #[trigger] out@[j].seeders ==> idx[i] < idx[j],
        decreases rest@.len(),
    {
        let ghost before = rest@;
        let ghost k = rest@.len() as int;
        let x = rest.pop().unwrap();
        proof {
            assert(before == rest@.push(x));
            assert(x == orig[k - 1]);
            assert(rest@ =~= orig.take(k - 1));
        }
        let mut p: usize = 0;
        while p < out.len() && out[p].seeders > x.seeders
            invariant
                p <= out@.len(),
                forall|j: int| 0 <= j < p ==> #[trigger] out@[j].seeders > x.seeders,
            decreases out@.len() - p,
        {
            p = p + 1;
        }
        let ghost old_out = out@;
        let ghost old_idx = idx;
        out.insert(p, x);
        proof {
            idx = old_idx.insert(p as int, k - 1);
            assert(out@ == old_out.insert(p as int, x));
            if p < old_out.len() {
                assert(old_out[p as int].seeders <= x.seeders);
            }
            assert forall|i: int, j: int| 0 <= i < j < out@.len() implies #[trigger] out@[i].seeders
                >= #[trigger] out@[j].seeders by {
                if j < p {
                    assert(out@[i] == old_out[i] && out@[j] == old_out[j]);
                } else if j == p {
                    assert(out@[i] == old_out[i]);
                } else if i == p {
                    assert(out@[j] == old_out[j - 1]);
                    assert(old_out[p as int].seeders >= old_out[j - 1].seeders || j - 1 == p);
                } else if i < p {
                    assert(out@[i] == old_out[i] && out@[j] == old_out[j - 1]);
                } else {
                    assert(out@[i] == old_out[i - 1] && out@[j] == old_out[j - 1]);
                }
            }
            assert forall|i: int| 0 <= i < out@.len() implies k - 1 <= #[trigger] idx[i] < n && out@[i] == orig[idx[i]] by {
                if i < p {
                    assert(idx[i] == old_idx[i]);
                } else if i > p {
                    assert(idx[i] == old_idx[i - 1]);
                }
            }
            assert forall|i: int, j: int| 0 <= i < j < out@.len() implies #[trigger] idx[i] != #[trigger] idx[j] by {
                if i < p && j < p {
                    assert(idx[i] == old_idx[i] && idx[j] == old_idx[j]);
                } else if i < p && j == p {
                    assert(idx[i] == old_idx[i]);
                } else if i < p {
                    assert(idx[i] == old_idx[i] && idx[j] == old_idx[j - 1]);
                } else if i == p {
                    assert(idx[j] == old_idx[j - 1]);
                } else {
                    assert(idx[i] == old_idx[i - 1] && idx[j] == old_idx[j - 1]);
                }
            }
            assert forall|i: int, j: int|
                0 <= i < j < out@.len() && #[trigger] out@[i].seeders == #[trigger] out@[j].seeders implies idx[i]
                < idx[j] by {
                if i < p && j < p {
                    assert(idx[i] == old_idx[i] && idx[j] == old_idx[j]);
                    assert(out@[i] == old_out[i] && out@[j] == old_out[j]);
                } else if i < p && j == p {
                    assert(out@[i] == old_out[i]);
                } else if i < p {
                    assert(idx[i] == old_idx[i] && idx[j] == old_idx[j - 1]);
                    assert(out@[i] == old_out[i] && out@[j] == old_out[j - 1]);
                } else if i == p {
                    assert(idx[j] == old_idx[j - 1]);
                } else {
                    assert(idx[i] == old_idx[i - 1] && idx[j] == old_idx[j - 1]);
                    assert(out@[i] == old_out[i - 1] && out@[j] == old_out[j - 1]);
                }
            }
            vstd::seq_lib::to_multiset_insert(old_out, p as int, x);
            vstd::seq_lib::to_multiset_build(rest@, x);
            assert(out@.to_multiset() == old_out.to_multiset().insert(x));
            assert(before.to_multiset() == rest@.to_multiset().insert(x));
            assert(out@.to_multiset().add(rest@.to_multiset()) =~= old_out.to_multiset().add(
                before.to_multiset(),
            ));
        }
    }
    proof {
        assert(rest@.to_multiset() =~= Multiset::empty());
        assert(out@.to_multiset().add(Multiset::empty()) =~= out@.to_multiset());
        assert(stable_index(orig, out@, idx));
    }
    out
}

/// What a search shows from the answers of the two backends: nothing when
/// both failed, the one list when the other failed, and both lists joined
/// and ordered by seeders when both answered, results with equal
/// seeders keeping their order (PirateBay's first).
pub open spec fn merged_results(
    pirate_bay: Result<Seq<SearchTorrent>, SearchError>,
    torrents_csv: Result<Seq<SearchTorrent>, SearchError>,
    r: Seq<SearchTorrent>,
) -> bool {
    match (pirate_bay, torrents_csv) {
        (Err(_), Err(_)) => r.len() == 0,
        (Err(_), Ok(b)) => r == b,
        (Ok(a), Err(_)) => r == a,
        (Ok(a), Ok(b)) => by_seeders_desc(r) && stable_reordering(a + b, r) && r.to_multiset() == (a + b).to_multiset(),
    }
}

pub open spec fn result_view(r: Result<Vec<SearchTorrent>, SearchError>) -> Result<Seq<SearchTorrent>, SearchError> {
    match r {
        Ok(v) => Ok(v@),
        Err(e) => Err(e),
    }
}

/// Joins the answers of the two backends into the list to show.
pub fn merge_results(
    pirate_bay: Result<Vec<SearchTorrent>, SearchError>,
    torrents_csv: Result<Vec<SearchTorrent>, SearchError>,
) -> (r: Vec<SearchTorrent>)
    ensures
        merged_results(result_view(pirate_bay), result_view(torrents_csv), r@),
{
    match (pirate_bay, torrents_csv) {
        (Err(_), Err(_)) => Vec::new(),
        (Err(_), Ok(b)) => b,
        (Ok(a), Err(_)) => a,
        (Ok(a), Ok(b)) => {
            let mut all = a;
            let mut tail = b;
            let ghost a0 = all@;
            let ghost b0 = tail@;
            all.append(&mut tail);
            proof {
                assert(all@ == a0 + b0);
            }
            sort_by_seeders(all)
        },
    }
}

/// The PirateBay listing address for a search term.
pub fn pirate_bay_search_url(term: &str) -> (r: String)
    ensures
        r@ == "https://apibay.org/q.php?q="@ + term@,
{
    let mut url = String::from_str("https://apibay.org/q.php?q=");
    url.append(term);
    url
}

/// The PirateBay detail address of a torrent.
pub fn pirate_bay_info_url(torrent_id: i64) -> (r: String)
    ensures
        r@ == "https://apibay.org/t.php?id="@ + decimal_text(torrent_id as int),
{
    let mut url = String::from_str("https://apibay.org/t.php?id=");
    url.append(i64_text(torrent_id).as_str());
    url
}

/// The PirateBay file-list address of a torrent.
pub fn pirate_bay_files_url(torrent_id: i64) -> (r: String)
    ensures
        r@ == "https://apibay.org/f.php?id="@ + decimal_text(torrent_id as int),
{
    let mut url = String::from_str("https://apibay.org/f.php?id=");
    url.append(i64_text(torrent_id).as_str());
    url
}

/// The torrents-csv search address for a term, asking for twenty results.
pub fn torrents_csv_search_url(term: &str) -> (r: String)
    ensures
        r@ == "https://torrents-csv.com/service/search?size=20&q="@ + term@,
{
    let mut url = String::from_str("https://torrents-csv.com/service/search?size=20&q=");
    url.append(term);
    url
}

} // verus!
