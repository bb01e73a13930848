use rustor::torrent_view::{Eta, TorrentView};
use rustor::config::{Config, ConfigKeyBindingKey, KeyBindingMap};
use rustor::dto::{
    PirateBayInfoTorrent, PirateBayListTorrent, PirateBayTorrentFile, SearchError, SearchTorrent,
    SearchTorrentFile, TorrentSource, TorrentsCsvTorrent,
};
use rustor::mapper::Mapper;
use rustor::number::{field_i64, parse_i64};
use rustor::screen::{AppState, Screen};
use rustor::screens::{Effect, RmScreenArgs, SearchResArgs, SearchResScreen};
use rustor::search::{merge_results, pirate_bay_hits, sort_by_seeders, validate_search_term};
use rustor::service::Service;

fn list_entry(id: &str, seeders: &str) -> PirateBayListTorrent {
    PirateBayListTorrent {
        id: id.to_string(),
        name: format!("name {id}"),
        info_hash: format!("HASH{id}"),
        seeders: seeders.to_string(),
        leechers: "58".to_string(),
        size: "3488057368".to_string(),
        username: "user".to_string(),
        added: "1652002730".to_string(),
        status: "vip".to_string(),
        category: "207".to_string(),
        imdb: "tt1877830".to_string(),
    }
}

fn csv_entry(id: i64, seeders: i64) -> TorrentsCsvTorrent {
    TorrentsCsvTorrent {
        info_hash: format!("csv{id}"),
        name: format!("csv name {id}"),
        size_bytes: 100,
        created_unix: 1650355800,
        seeders,
        leechers: 40,
        completed: 147771,
        scraped_date: 1765419470,
        id,
    }
}

fn with_seeders(name: &str, seeders: i64) -> SearchTorrent {
    let mut t = SearchTorrent::name_only(name.to_string());
    t.seeders = seeders;
    t
}

#[test]
fn parses_decimal_numbers() {
    assert_eq!(parse_i64("356"), Some(356));
    assert_eq!(parse_i64("-12"), Some(-12));
    assert_eq!(parse_i64("+7"), Some(7));
    assert_eq!(parse_i64("0"), Some(0));
    assert_eq!(parse_i64(""), None);
    assert_eq!(parse_i64("-"), None);
    assert_eq!(parse_i64("+"), None);
    assert_eq!(parse_i64("12a"), None);
    assert_eq!(parse_i64(" 1"), None);
    assert_eq!(parse_i64("9223372036854775807"), Some(i64::MAX));
    assert_eq!(parse_i64("9223372036854775808"), None);
    assert_eq!(parse_i64("-9223372036854775808"), Some(i64::MIN));
    assert_eq!(parse_i64("-9223372036854775809"), None);
    assert_eq!(parse_i64("123456789012345678901234567890"), None);
    assert_eq!(field_i64("x"), 0);
}

#[test]
fn maps_pirate_bay_listing_entry() {
    let t = Mapper::pirate_bay_list_torrent_to_search_torrent(&list_entry("58930804", "356"));
    assert_eq!(t.id, "58930804");
    assert_eq!(t.name, "name 58930804");
    assert_eq!(t.info_hash, "HASH58930804");
    assert_eq!(t.seeders, 356);
    assert_eq!(t.leechers, 58);
    assert_eq!(t.size, 3488057368);
    assert_eq!(t.created_on, 1652002730);
    assert_eq!(t.source, TorrentSource::PirateBay);
    assert!(t.files.is_empty());
    let bad = Mapper::pirate_bay_list_torrent_to_search_torrent(&list_entry("1", "many"));
    assert_eq!(bad.seeders, 0);
}

#[test]
fn maps_torrents_csv_entry() {
    let t = Mapper::torrents_csv_torrent_to_search_torrent(&csv_entry(2576, 331));
    assert_eq!(t.id, "2576");
    assert_eq!(t.seeders, 331);
    assert_eq!(t.size, 100);
    assert_eq!(t.created_on, 1650355800);
    assert_eq!(t.info_hash, "csv2576");
    assert_eq!(t.source, TorrentSource::TorrentsCsv);
    let n = Mapper::torrents_csv_torrent_to_search_torrent(&csv_entry(-5, 1));
    assert_eq!(n.id, "-5");
}

#[test]
fn maps_pirate_bay_detail_and_files() {
    let mut info = PirateBayInfoTorrent::name_only("The Batman".to_string());
    info.id = 58930804;
    info.seeders = 425;
    info.leechers = 68;
    info.size = 3488057368;
    info.added = 1652002730;
    info.info_hash = "0C23".to_string();
    info.descr = "about".to_string();
    let files = vec![
        PirateBayTorrentFile { name: vec!["movie.mp4".to_string()], size: vec![3488003784] },
        PirateBayTorrentFile::empty("notes.txt".to_string()),
        PirateBayTorrentFile { name: vec![], size: vec![] },
    ];
    let t = Mapper::pirate_bay_torrent_info_and_files_result_to_search_torrent(&Ok(info), &Ok(files));
    assert_eq!(t.id, "58930804");
    assert_eq!(t.name, "The Batman");
    assert_eq!(t.seeders, 425);
    assert_eq!(t.description, "about");
    assert_eq!(t.source, TorrentSource::PirateBay);
    assert!(!t.is_error);
    assert_eq!(t.files.len(), 3);
    assert_eq!(t.files[0].name, "movie.mp4");
    assert_eq!(t.files[0].size, 3488003784);
    assert_eq!(t.files[1].name, "notes.txt");
    assert_eq!(t.files[1].size, 0);
    assert_eq!(t.files[2].name, "");
    let e = Mapper::pirate_bay_torrent_info_and_files_result_to_search_torrent(&Err(SearchError::Request), &Err(SearchError::Request));
    assert!(e.is_error);
    assert_eq!(e.name, "");
    assert!(e.files.is_empty());
    assert_eq!(e.source, TorrentSource::Unknown);
}

#[test]
fn search_term_checks() {
    assert_eq!(validate_search_term(""), Err(SearchError::Empty));
    assert_eq!(validate_search_term("ab"), Err(SearchError::TooShort));
    assert_eq!(validate_search_term("äb"), Err(SearchError::TooShort));
    assert_eq!(validate_search_term("abc"), Ok(()));
}

#[test]
fn pirate_bay_listing_keeps_twenty() {
    let list: Vec<PirateBayListTorrent> = (0..25).map(|i| list_entry(&i.to_string(), "1")).collect();
    let hits = pirate_bay_hits(&list);
    assert_eq!(hits.len(), 20);
    assert_eq!(hits[19].id, "19");
    let short: Vec<PirateBayListTorrent> = (0..3).map(|i| list_entry(&i.to_string(), "1")).collect();
    assert_eq!(pirate_bay_hits(&short).len(), 3);
}

#[test]
fn results_are_ordered_by_seeders() {
    let v = vec![with_seeders("a", 3), with_seeders("b", 10), with_seeders("c", 3), with_seeders("d", 7)];
    let r = sort_by_seeders(v);
    let seeders: Vec<i64> = r.iter().map(|t| t.seeders).collect();
    assert_eq!(seeders, vec![10, 7, 3, 3]);
    assert!(sort_by_seeders(vec![]).is_empty());
}

#[test]
fn merges_backend_answers() {
    let both = merge_results(Ok(vec![with_seeders("a", 1), with_seeders("b", 5)]), Ok(vec![with_seeders("c", 3)]));
    let names: Vec<String> = both.iter().map(|t| t.name.clone()).collect();
    assert_eq!(names, vec!["b", "c", "a"]);
    let one = merge_results(Err(SearchError::Request), Ok(vec![with_seeders("c", 3), with_seeders("d", 9)]));
    let names: Vec<String> = one.iter().map(|t| t.name.clone()).collect();
    assert_eq!(names, vec!["c", "d"]);
    let other = merge_results(Ok(vec![with_seeders("a", 1)]), Err(SearchError::TooShort));
    assert_eq!(other.len(), 1);
    assert!(merge_results(Err(SearchError::Request), Err(SearchError::Empty)).is_empty());
}

#[test]
fn search_answers_reach_the_results_table() {
    let mut a = rustor::router::App::new(&Config::from_entries(&vec![]));
    a.search_res.cursor.row = 4;
    a.set_search_answers(Ok(vec![list_entry("1", "2"), list_entry("2", "30")]), Ok(vec![csv_entry(9, 12)]));
    let ids: Vec<String> = a.search.get_results().iter().map(|t| t.id.clone()).collect();
    assert_eq!(ids, vec!["2", "9", "1"]);
    assert_eq!(a.search_res.cursor.row, 0);
    a.state.screen = Screen::SearchRes;
    let down = rustor::key::KeyEvent::new(rustor::key::KeyCode::Down, false, false, false, rustor::key::KeyEventKind::Press, None);
    a.handle_key(&down);
    let dl = rustor::key::KeyEvent::new(rustor::key::KeyCode::Char('d'), true, false, false, rustor::key::KeyEventKind::Press, None);
    let step = a.handle_key(&dl);
    match step.effect {
        Some(Effect::AddTorrent(s)) => assert_eq!(s, "magnet:?xt=urn:btih:csv9"),
        _ => panic!("expected a download"),
    }
    assert_eq!(a.state.screen, Screen::Home);
}

#[test]
fn detail_cache_follows_the_row() {
    let kb = KeyBindingMap::defaults();
    let mut s = SearchResScreen::new(kb);
    let mut first = with_seeders("x", 1);
    first.id = "58930804".to_string();
    first.source = TorrentSource::PirateBay;
    let mut second = with_seeders("y", 1);
    second.source = TorrentSource::TorrentsCsv;
    let results = vec![first, second];
    assert_eq!(s.detail_request(&results), Some(58930804));
    s.store_detail(SearchTorrent::name_only("detail".to_string()));
    assert_eq!(s.detail_request(&results), None);
    assert_eq!(s.active_row_torrent(&results).unwrap().name, "detail");
    s.cursor.row = 1;
    assert_eq!(s.detail_request(&results), None);
    assert_eq!(s.active_row_torrent(&results).unwrap().name, "y");
    let args = SearchResArgs::new(results);
    assert_eq!(args.get_torrents().len(), 2);
}

#[test]
fn key_bindings_fill_in_defaults() {
    let config = Config::from_entries(&vec![
        (ConfigKeyBindingKey::KbQuit, 'x'),
        (ConfigKeyBindingKey::KbAdd, 'n'),
        (ConfigKeyBindingKey::KbQuit, 'z'),
    ]);
    let values = config.values();
    let kb = values.key_bindings();
    assert_eq!(kb.get(ConfigKeyBindingKey::KbQuit), 'z');
    assert_eq!(kb.get(ConfigKeyBindingKey::KbAdd), 'n');
    assert_eq!(kb.get(ConfigKeyBindingKey::KbHome), 'b');
    assert_eq!(kb.get(ConfigKeyBindingKey::KbDel), 'd');
    assert_eq!(kb.get(ConfigKeyBindingKey::KbDownload), 'd');
    assert_eq!(kb.get(ConfigKeyBindingKey::KbInfo), 'i');
    assert_eq!(kb.get(ConfigKeyBindingKey::KbHelp), 'h');
    assert_eq!(kb.get(ConfigKeyBindingKey::KbOpen), 'o');
    assert_eq!(kb.get(ConfigKeyBindingKey::KbReAnn), 'r');
    assert_eq!(kb.get(ConfigKeyBindingKey::KbSearch), 's');
}

#[test]
fn daemon_command_lines() {
    let s = Service {};
    assert_eq!(s.torrent_add("magnet:?xt=1".to_string()), "transmission-remote -j -a magnet:?xt=1");
    assert_eq!(s.torrent_remove("4".to_string()), "transmission-remote -j -t 4 -r");
    assert_eq!(s.torrent_list(), "transmission-remote -j -l");
    assert_eq!(s.torrent_start("4".to_string()), "transmission-remote -j -t 4 -s");
    assert_eq!(s.torrent_stop("4".to_string()), "transmission-remote -j -t 4 -S");
    assert_eq!(s.torrent_reannounce("4".to_string()), "transmission-remote -j -t 4 --reannounce");
    assert_eq!(s.torrent_info("4".to_string()), "transmission-remote -j -t 4 -i");
    assert_eq!(s.torrent_files("4".to_string()), "transmission-remote -j -t 4 -f");
    assert_eq!(s.torrent_peers("4".to_string()), "transmission-remote -j -t 4 -ip");
    assert_eq!(s.torrent_trackers("4".to_string()), "transmission-remote -j -t 4 -it");
    assert_eq!(s.torrent_location("/data".to_string()), "xdg-open /data");
    assert_eq!(s.command_for(&Effect::Stop(-12)).unwrap(), "transmission-remote -j -t -12 -S");
    assert_eq!(s.command_for(&Effect::AddTorrent("x".to_string())).unwrap(), "transmission-remote -j -a x");
    assert!(s.command_for(&Effect::ScrollUp).is_none());
    assert!(s.command_for(&Effect::OpenLocation(1)).is_none());
}

#[test]
fn small_constructors() {
    let st = AppState::new(Screen::Popup);
    assert_eq!(st.screen, Screen::Popup);
    assert_eq!(st.popup_msg, "");
    assert!(!Screen::Help.needs_refresh());
    assert!(Screen::Info.needs_refresh());
    assert_eq!(RmScreenArgs::new(3).get_selected_row_index(), 3);
    let f = SearchTorrentFile::new("a".to_string(), 2);
    assert_eq!(f.size, 2);
    assert_eq!(TorrentSource::TorrentsCsv.name(), "TorrentsCsv");
    assert_eq!(TorrentSource::Unknown.name(), "None");
}

#[test]
fn key_binding_labels_follow_configuration() {
    let config = Config::from_entries(&vec![(ConfigKeyBindingKey::KbSearch, 'f')]);
    let block = rustor::key_bindings_block::KeyBindingsBlock::new(*config.values().key_bindings());
    let search = block.cnf_kb_search();
    assert_eq!(search.action, "Search");
    assert_eq!(search.ctrl_and_char, Some('f'));
    let quit = block.cnf_kb_quit();
    assert_eq!(quit.ctrl_and_char, Some('q'));
    assert_eq!(block.cnf_kb_reann().action, "ReAnnounce");
    let cancel = rustor::key_bindings_block::KeyBindingsBlock::kb_cancel();
    assert_eq!(cancel.key_code, Some(rustor::key::KeyCode::Esc));
    assert_eq!(cancel.ctrl_and_char, None);
}

#[test]
fn eta_breakdown() {
    assert_eq!(TorrentView::eta(0, 500), Eta::Done);
    assert_eq!(TorrentView::eta(10, 0), Eta::Unknown);
    assert_eq!(TorrentView::eta(10, -3), Eta::Unknown);
    assert_eq!(TorrentView::eta(10, 3725), Eta::Time { days: 0, hours: 1, minutes: 2, seconds: 5 });
    assert_eq!(TorrentView::eta(10, 2 * 86400 + 61), Eta::Time { days: 2, hours: 48, minutes: 1, seconds: 1 });
}

#[test]
fn equal_seeders_keep_their_order() {
    let v = vec![with_seeders("a", 3), with_seeders("b", 10), with_seeders("c", 3), with_seeders("d", 3)];
    let names: Vec<String> = sort_by_seeders(v).iter().map(|t| t.name.clone()).collect();
    assert_eq!(names, vec!["b", "a", "c", "d"]);
    let both = merge_results(Ok(vec![with_seeders("pb", 5)]), Ok(vec![with_seeders("csv", 5)]));
    let names: Vec<String> = both.iter().map(|t| t.name.clone()).collect();
    assert_eq!(names, vec!["pb", "csv"]);
}

#[test]
fn download_uses_the_detail_shown() {
    let mut a = rustor::router::App::new(&Config::from_entries(&vec![]));
    a.set_search_answers(Ok(vec![list_entry("7", "1")]), Err(SearchError::Request));
    let mut detail = SearchTorrent::name_only("seven".to_string());
    detail.info_hash = "DETAIL".to_string();
    a.search_res.store_detail(detail);
    a.state.screen = Screen::SearchRes;
    let dl = rustor::key::KeyEvent::from_char('d', true, false, false, rustor::key::KeyEventKind::Press);
    let step = a.handle_key(&dl);
    match step.effect {
        Some(Effect::AddTorrent(s)) => assert_eq!(s, "magnet:?xt=urn:btih:DETAIL"),
        _ => panic!("expected a download"),
    }
    let mut s = SearchResScreen::new(KeyBindingMap::defaults());
    let results = vec![with_seeders("r", 1)];
    let h = s.handle_key_event(&dl, &results);
    assert!(!h.stay);
    let other = rustor::key::KeyEvent::from_char('z', true, false, false, rustor::key::KeyEventKind::Press);
    assert!(s.handle_key_event(&other, &results).stay);
}

#[test]
fn daemon_status_and_addresses() {
    let s = Service {};
    assert_eq!(s.daemon_status_command(), "systemctl is-active transmission-daemon.service");
    assert!(s.daemon_is_active("active\n"));
    assert!(!s.daemon_is_active("inactive\n"));
    assert!(!s.daemon_is_active(""));
    assert!(!s.daemon_is_active("failed"));
    assert!(rustor::service::contains_text("xxabcx", "abc"));
    assert!(!rustor::service::contains_text("ab", "abc"));
    assert_eq!(rustor::search::pirate_bay_search_url("batman"), "https://apibay.org/q.php?q=batman");
    assert_eq!(rustor::search::pirate_bay_info_url(58930804), "https://apibay.org/t.php?id=58930804");
    assert_eq!(rustor::search::pirate_bay_files_url(-1), "https://apibay.org/f.php?id=-1");
    assert_eq!(rustor::search::torrents_csv_search_url("abc"), "https://torrents-csv.com/service/search?size=20&q=abc");
}
