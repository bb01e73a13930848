use vstd::prelude::*;

verus! {

/// Which search backend a result came from.
#[derive(Clone, Copy, Debug, PartialEq, Eq, Structural)]
pub enum TorrentSource {
    PirateBay,
    TorrentsCsv,
    Unknown,
}

impl TorrentSource {
    pub open spec fn spec_name(self) -> Seq<char> {
        match self {
            TorrentSource::PirateBay => "PirateBay"@,
            TorrentSource::TorrentsCsv => "TorrentsCsv"@,
            TorrentSource::Unknown => "None"@,
        }
    }

    /// The name of the source as it is shown on screen.
    pub fn name(&self) -> (r: String)
        ensures
            r@ == self.spec_name(),
    {
        match self {
            TorrentSource::PirateBay => String::from_str("PirateBay"),
            TorrentSource::TorrentsCsv => String::from_str("TorrentsCsv"),
            TorrentSource::Unknown => String::from_str("None"),
        }
    }
}

/// Why a search produced no results from a backend.
#[derive(Clone, Copy, Debug, PartialEq, Eq, Structural)]
pub enum SearchError {
    /// The search term was empty.
    Empty,
    /// The search term had fewer than three characters.
    TooShort,
    /// The request to the backend failed or its answer could not be read.
    Request,
}

/// A search result, whichever backend it came from.
#[derive(Clone, Debug)]
pub struct SearchTorrent {
    pub id: String,
    pub name: String,
    pub info_hash: String,
    pub seeders: i64,
    pub leechers: i64,
    pub size: i64,
    pub created_on: i64,
    pub description: String,
    pub source: TorrentSource,
    pub descr: String,
    pub files: Vec<SearchTorrentFile>,
    pub is_error: bool,
}

/// Whether `t` holds no data but possibly its name, files and error flag.
pub open spec fn is_blank_but_name(t: SearchTorrent) -> bool {
    &&& t.id@ == Seq::<char>::empty()
    &&& t.info_hash@ == Seq::<char>::empty()
    &&& t.seeders == 0
    &&& t.leechers == 0
    &&& t.size == 0
    &&& t.created_on == 0
    &&& t.description@ == Seq::<char>::empty()
    &&& t.source == TorrentSource::Unknown
    &&& t.descr@ == Seq::<char>::empty()
}

impl SearchTorrent {
    /// A result that holds only `name`.
    pub fn name_only(name: String) -> (r: SearchTorrent)
        ensures
            r.name == name,
            is_blank_but_name(r),
            r.files@.len() == 0,
            !r.is_error,
    {
        SearchTorrent {
            id: String::new(),
            name,
            info_hash: String::new(),
            seeders: 0,
            leechers: 0,
            size: 0,
            created_on: 0,
            description: String::new(),
            source: TorrentSource::Unknown,
            descr: String::new(),
            files: Vec::new(),
            is_error: false,
        }
    }
}

/// One file of a search result.
#[derive(Clone, Debug)]
pub struct SearchTorrentFile {
    pub name: String,
    pub size: i64,
}

impl SearchTorrentFile {
    pub fn new(name: String, size: i64) -> (r: SearchTorrentFile)
        ensures
            r.name == name,
            r.size == size,
    {
        SearchTorrentFile { name, size }
    }
}

/// An entry of a PirateBay search listing; its numbers come as text.
pub struct PirateBayListTorrent {
    pub id: String,
    pub name: String,
    pub info_hash: String,
    pub seeders: String,
    pub leechers: String,
    pub size: String,
    pub username: String,
    pub added: String,
    pub status: String,
    pub category: String,
    pub imdb: String,
}

/// The detail record of one PirateBay torrent.
pub struct PirateBayInfoTorrent {
    pub id: i64,
    pub category: i64,
    pub status: String,
    pub name: String,
    pub num_files: i64,
    pub size: i64,
    pub seeders: i64,
    pub leechers: i64,
    pub username: String,
    pub added: i64,
    pub imdb: String,
    pub language: i64,
    pub info_hash: String,
    pub descr: String,
}

impl PirateBayInfoTorrent {
    /// A detail record that holds only `name`.
    pub fn name_only(name: String) -> (r: PirateBayInfoTorrent)
        ensures
            r.name == name,
            r.id == 0 && r.category == 0 && r.num_files == 0 && r.size == 0,
            r.seeders == 0 && r.leechers == 0 && r.added == 0 && r.language == 0,
            r.status@ == Seq::<char>::empty() && r.username@ == Seq::<char>::empty(),
            r.imdb@ == Seq::<char>::empty() && r.info_hash@ == Seq::<char>::empty(),
            r.descr@ == Seq::<char>::empty(),
    {
        PirateBayInfoTorrent {
            id: 0,
            category: 0,
            status: String::new(),
            name,
            num_files: 0,
            size: 0,
            seeders: 0,
            leechers: 0,
            username: String::new(),
            added: 0,
            imdb: String::new(),
            language: 0,
            info_hash: String::new(),
            descr: String::new(),
        }
    }
}

/// One file of a PirateBay torrent, as the backend lists it: a name and a
/// size, each wrapped in a list.
pub struct PirateBayTorrentFile {
    pub name: Vec<String>,
    pub size: Vec<i64>,
}

impl PirateBayTorrentFile {
    /// A file entry with `name` and no size.
    pub fn empty(name: String) -> (r: PirateBayTorrentFile)
        ensures
            r.name@ == seq![name],
            r.size@.len() == 0,
    {
        let mut names: Vec<String> = Vec::new();
        names.push(name);
        PirateBayTorrentFile { name: names, size: Vec::new() }
    }
}

/// An entry of a torrents-csv search answer.
pub struct TorrentsCsvTorrent {
    pub info_hash: String,
    pub name: String,
    pub size_bytes: i64,
    pub created_unix: i64,
    pub seeders: i64,
    pub leechers: i64,
    pub completed: i64,
    pub scraped_date: i64,
    pub id: i64,
}

/// A torrents-csv search answer.
pub struct TorrentsCsvResponse {
    pub torrents: Vec<TorrentsCsvTorrent>,
}

} // verus!
