use crate::dto::{is_blank_but_name, PirateBayInfoTorrent, PirateBayListTorrent, PirateBayTorrentFile, SearchError, SearchTorrent, SearchTorrentFile, TorrentSource, TorrentsCsvTorrent};
use crate::number::{decimal_text, field_i64, field_value, i64_text};
use vstd::prelude::*;

verus! {

/// `t` is the search result made of the PirateBay listing entry `s`.
pub open spec fn from_pirate_bay_list(s: PirateBayListTorrent, t: SearchTorrent) -> bool {
    &&& t.id == s.id
    &&& t.name == s.name
    &&& t.info_hash == s.info_hash
    &&& t.seeders == field_value(s.seeders@)
    &&& t.leechers == field_value(s.leechers@)
    &&& t.size == field_value(s.size@)
    &&& t.created_on == field_value(s.added@)
    &&& t.description@ == Seq::<char>::empty()
    &&& t.descr@ == Seq::<char>::empty()
    &&& t.source == TorrentSource::PirateBay
    &&& t.files@.len() == 0
    &&& !t.is_error
}

/// `t` is the search result made of the torrents-csv entry `s`.
pub open spec fn from_torrents_csv(s: TorrentsCsvTorrent, t: SearchTorrent) -> bool {
    &&& t.id@ == decimal_text(s.id as int)
    &&& t.name == s.name
    &&& t.info_hash == s.info_hash
    &&& t.seeders == s.seeders
    &&& t.leechers == s.leechers
    &&& t.size == s.size_bytes
    &&& t.created_on == s.created_unix
    &&& t.description@ == Seq::<char>::empty()
    &&& t.descr@ == Seq::<char>::empty()
    &&& t.source == TorrentSource::TorrentsCsv
    &&& t.files@.len() == 0
    &&& !t.is_error
}

/// `f` is the file entry made of the PirateBay file record `s`: its first
/// name and first size, or empty and zero where the record has none.
pub open spec fn from_pirate_bay_file(s: PirateBayTorrentFile, f: SearchTorrentFile) -> bool {
    &&& f.name@ == if s.name@.len() > 0 {
        s.name@[0]@
    } else {
        Seq::<char>::empty()
    }
    &&& f.size == if s.size@.len() > 0 {
        s.size@[0]
    } else {
        0
    }
}

/// `t` is the search result made of a PirateBay detail answer and a
/// PirateBay file-list answer.
pub open spec fn from_pirate_bay_detail(
    info: Result<PirateBayInfoTorrent, SearchError>,
    files: Result<Vec<PirateBayTorrentFile>, SearchError>,
    t: SearchTorrent,
) -> bool {
    &&& match info {
        Ok(i) => {
            &&& t.id@ == decimal_text(i.id as int)
            &&& t.name == i.name
            &&& t.info_hash == i.info_hash
            &&& t.seeders == i.seeders
            &&& t.leechers == i.leechers
            &&& t.size == i.size
            &&& t.created_on == i.added
            &&& t.description == i.descr
            &&& t.descr@ == Seq::<char>::empty()
            &&& t.source == TorrentSource::PirateBay
            &&& !t.is_error
        },
        Err(_) => {
            &&& t.name@ == Seq::<char>::empty()
            &&& is_blank_but_name(t)
            &&& t.is_error
        },
    }
    &&& match files {
        Ok(fs) => {
            &&& t.files@.len() == fs@.len()
            &&& forall|j: int| 0 <= j < fs@.len() ==> from_pirate_bay_file(#[trigger] fs@[j], t.files@[j])
        },
        Err(_) => t.files@.len() == 0,
    }
}

/// Turns backend records into search results.
pub struct Mapper {}

impl Mapper {
    /// The search result for a PirateBay listing entry; a numeric field
    /// that does not parse counts as zero.
    pub fn pirate_bay_list_torrent_to_search_torrent(source: &PirateBayListTorrent) -> (r: SearchTorrent)
        ensures
            from_pirate_bay_list(*source, r),
    {
        let mut torrent = SearchTorrent::name_only(source.name.clone());
        torrent.id = source.id.clone();
        torrent.seeders = field_i64(source.seeders.as_str());
        torrent.leechers = field_i64(source.leechers.as_str());
        torrent.size = field_i64(source.size.as_str());
        torrent.created_on = field_i64(source.added.as_str());
        torrent.info_hash = source.info_hash.clone();
        torrent.source = TorrentSource::PirateBay;
        torrent
    }

    /// The search result made of a PirateBay detail answer and file list;
    /// a failed detail answer leaves a blank result marked as an error.
    pub fn pirate_bay_torrent_info_and_files_result_to_search_torrent(
        torrent_info: &Result<PirateBayInfoTorrent, SearchError>,
        torrent_files: &Result<Vec<PirateBayTorrentFile>, SearchError>,
    ) -> (r: SearchTorrent)
        ensures
            from_pirate_bay_detail(*torrent_info, *torrent_files, r),
    {
        let mut torrent = SearchTorrent::name_only(String::new());
        match torrent_info {
            Ok(info) => {
                torrent.id = i64_text(info.id);
                torrent.name = info.name.clone();
                torrent.seeders = info.seeders;
                torrent.leechers = info.leechers;
                torrent.size = info.size;
                torrent.created_on = info.added;
                torrent.info_hash = info.info_hash.clone();
                torrent.description = info.descr.clone();
                torrent.source = TorrentSource::PirateBay;
            },
            Err(_) => torrent.is_error = true,
        }
        match torrent_files {
            Ok(files) => {
                let n = files.len();
                let mut entries: Vec<SearchTorrentFile> = Vec::new();
                let mut i: usize = 0;
                while i < n
                    invariant
                        n == files@.len(),
                        i <= n,
                        entries@.len() == i,
                        forall|j: int| 0 <= j < i ==> from_pirate_bay_file(#[trigger] files@[j], entries@[j]),
                    decreases n - i,
                {
                    let file = &files[i];
                    let name = if file.name.len() > 0 {
                        file.name[0].clone()
                    } else {
                        String::new()
                    };
                    let size = if file.size.len() > 0 {
                        file.size[0]
                    } else {
                        0
                    };
                    entries.push(SearchTorrentFile::new(name, size));
                    i = i + 1;
                }
                torrent.files = entries;
            },
            Err(_) => {},
        }
        torrent
    }

    /// The search result for a torrents-csv entry.
    pub fn torrents_csv_torrent_to_search_torrent(source: &TorrentsCsvTorrent) -> (r: SearchTorrent)
        ensures
            from_torrents_csv(*source, r),
    {
        let mut torrent = SearchTorrent::name_only(source.name.clone());
        torrent.id = i64_text(source.id);
        torrent.info_hash = source.info_hash.clone();
        torrent.seeders = source.seeders;
        torrent.leechers = source.leechers;
        torrent.size = source.size_bytes;
        torrent.created_on = source.created_unix;
        torrent.descr = String::new();
        torrent.source = TorrentSource::TorrentsCsv;
        torrent
    }
}

} // verus!
