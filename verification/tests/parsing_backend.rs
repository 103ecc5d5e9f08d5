use alembic::args::parse_key_val;
use alembic::backend::{
    Backend, BackgroundFetchUpdateMessage, ChatMessage, Client, ClientServerMessage,
    CommunityServers, FetchWrapper, LogEntry, News, NewsEntry, NewsResponse, NewsResponseInner,
    PacketInfo, Statistics, BUFFER_CAPACITY,
};
use alembic::env::EnvVars;
use alembic::format::{u64_decimal, usize_decimal};
use alembic::scanner::{
    ac_search_paths, expand_prefix, find_wine_executable, select_wine_exe, wine_candidates,
    windows_path_from_unix, ScanError, ScannedClient, WhiskyScanner, WindowsScanner, WineScanner,
};
use alembic::settings::ClientConfigType;
use alembic::text::{lines, str_eq, trim_str};
use ringbuffer::RingBuffer;

#[test]
fn key_val_splits_at_first_equals() {
    assert_eq!(parse_key_val("A=b=c").unwrap(), ("A".to_string(), "b=c".to_string()));
    assert_eq!(parse_key_val("=x").unwrap(), ("".to_string(), "x".to_string()));
    assert_eq!(parse_key_val("K=").unwrap(), ("K".to_string(), "".to_string()));
}

#[test]
fn key_val_without_equals_fails() {
    assert_eq!(
        parse_key_val("novalue").unwrap_err(),
        "invalid KEY=value: no `=` found in `novalue`"
    );
}

#[test]
fn decimals() {
    assert_eq!(u64_decimal(0), "0");
    assert_eq!(u64_decimal(7), "7");
    assert_eq!(u64_decimal(1234567890), "1234567890");
    assert_eq!(u64_decimal(u64::MAX), "18446744073709551615");
    assert_eq!(usize_decimal(10), "10");
}

#[test]
fn text_helpers() {
    assert_eq!(trim_str(" \t a b \r\n"), "a b");
    assert!(str_eq("x", "x"));
    assert!(!str_eq("x", "y"));
    assert_eq!(lines("a\r\nb\n\nc"), vec!["a", "b", "", "c"]);
    assert_eq!(lines("a\n"), vec!["a"]);
    assert!(lines("").is_empty());
}

#[test]
fn env_vars_map() {
    let mut e = EnvVars::new();
    e.insert("A".to_string(), "1".to_string());
    e.insert("B".to_string(), "2".to_string());
    e.insert("A".to_string(), "3".to_string());
    assert_eq!(e.len(), 2);
    assert_eq!(e.get(&"A".to_string()).map(|s| s.as_str()), Some("3"));
    assert!(e.remove(&"A".to_string()));
    assert!(!e.remove(&"A".to_string()));
    assert_eq!(e.len(), 1);
}

#[test]
fn unix_to_windows_paths() {
    let w = WineScanner::new("/usr/bin/wine".to_string());
    assert_eq!(
        w.unix_to_windows_path("/home/u/.wine/drive_c/Turbine/Asheron's Call").unwrap(),
        "C:\\Turbine\\Asheron's Call"
    );
    match w.unix_to_windows_path("/tmp/elsewhere") {
        Err(ScanError::NoDriveC(p)) => assert_eq!(p, "/tmp/elsewhere"),
        Ok(_) => panic!("expected an error"),
    }
    assert_eq!(
        WhiskyScanner.unix_to_windows_path("/b/drive_c/x/drive_c/y").unwrap(),
        "C:\\x\\drive_c\\y"
    );
    assert_eq!(windows_path_from_unix("/p/drive_c/").unwrap(), "C:\\");
}

#[test]
fn scanner_names_and_search_lists() {
    assert_eq!(WineScanner::new(String::new()).name(), "Wine");
    assert_eq!(WhiskyScanner.name(), "Whisky");
    assert_eq!(WindowsScanner::new("C:\\x".to_string()).name(), "Windows Registry");
    assert!(WindowsScanner::new("C:\\x".to_string()).scan().is_empty());
    assert_eq!(ac_search_paths()[1], "Program Files/Turbine/Asheron's Call");
    assert_eq!(wine_candidates().len(), 4);
}

#[test]
fn wine_client_found_in_prefix() {
    let w = WineScanner::new("/usr/bin/wine64".to_string());
    let c = w.client_at("/home/u/.wine", "/home/u/.wine/drive_c/Turbine/Asheron's Call").unwrap();
    assert_eq!(c.display_name, "Wine: /home/u/.wine");
    assert_eq!(c.install_path, "C:\\Turbine\\Asheron's Call");
    assert_eq!(c.wine_executable, "/usr/bin/wine64");
    assert_eq!(c.prefix_path, "/home/u/.wine");
}

#[test]
fn whisky_bottle_table() {
    let out = "+------+------+\n| Name | OS |\n+------+------+\n| Game | win10 |\n|  Other  | win7 |\n+------+------+\n";
    assert_eq!(WhiskyScanner.parse_bottle_list(out), vec!["Game", "Other"]);
}

#[test]
fn whisky_shellenv() {
    let out = "export PATH=\"/a/bin:/b/bin\"\nexport WINEPREFIX=\"/bottles/Game\"\nexport OTHER=1\n";
    let env = WhiskyScanner.parse_shellenv(out);
    assert_eq!(env.path_lists.len(), 1);
    assert_eq!(env.path_lists[0], vec!["/a/bin", "/b/bin"]);
    assert_eq!(env.prefix.as_deref(), Some("/bottles/Game"));
}

#[test]
fn wine_exe_selection() {
    assert_eq!(select_wine_exe(&vec![vec![false, true], vec![false, false]]), Some((0, 1)));
    assert_eq!(select_wine_exe(&vec![vec![true], vec![false, true, true]]), Some((1, 1)));
    assert_eq!(select_wine_exe(&vec![vec![false]]), None);
}

#[test]
fn prefix_expansion() {
    assert_eq!(expand_prefix("~/games", Some("/home/u")), "/home/u/games");
    assert_eq!(expand_prefix("~/games", Some("/home/u/")), "/home/u/games");
    assert_eq!(expand_prefix("~/games", None), "~/games");
    assert_eq!(expand_prefix("/abs", Some("/home/u")), "/abs");
}

#[test]
fn packet_and_log_text() {
    let p = PacketInfo { index: 1, timestamp: 5, data: vec![1, 22, 255] };
    assert_eq!(p.display_text(), "[1, 22, 255]");
    assert_eq!(PacketInfo::default().display_text(), "[]");
    let l = LogEntry { timestamp: 42, message: "hello".to_string() };
    assert_eq!(l.display_text(), "42: hello");
}

#[test]
fn statistics_start_at_zero() {
    let s = Statistics::default();
    assert_eq!(s.network.incoming_count, 0);
    assert_eq!(s.network.outgoing_count, 0);
    let p = PacketInfo::default();
    assert_eq!((p.index, p.timestamp, p.data.len()), (0, 0, 0));
}

#[test]
fn backend_counts_and_numbers_packets() {
    let mut b = Backend::new();
    b.handle_message(ClientServerMessage::HandleSendTo(vec![1]), 10);
    b.handle_message(ClientServerMessage::HandleSendTo(vec![2]), 11);
    b.handle_message(ClientServerMessage::HandleRecvFrom(vec![3]), 12);
    assert_eq!(b.statistics.network.outgoing_count, 2);
    assert_eq!(b.statistics.network.incoming_count, 1);
    assert_eq!(b.packets_outgoing.len(), 2);
    assert_eq!(b.packets_outgoing[1].index, 2);
    assert_eq!(b.packets_outgoing[1].timestamp, 11);
    assert_eq!(b.packets_incoming[0].data, vec![3]);
}

#[test]
fn backend_injection_state_and_chat() {
    let mut b = Backend::new();
    assert!(!b.is_injected);
    b.handle_message(ClientServerMessage::ClientInjected, 0);
    assert!(b.is_injected);
    b.handle_message(ClientServerMessage::HandleAddTextToScroll("hi".to_string()), 1);
    b.handle_message(ClientServerMessage::HandleAddTextToScroll("there".to_string()), 2);
    assert_eq!(b.chat_messages[1].index, 1);
    assert_eq!(b.chat_messages[1].text, "there");
    b.handle_message(ClientServerMessage::ClientEjected, 3);
    assert!(!b.is_injected);
}

#[test]
fn backend_log_buffer_drops_oldest_when_full() {
    let mut b = Backend::new();
    for i in 0..(BUFFER_CAPACITY as u64 + 1) {
        b.handle_message(ClientServerMessage::AppendLog(format!("m{}", i)), i);
    }
    assert_eq!(b.logs.len(), BUFFER_CAPACITY);
    assert_eq!(b.logs[0].message, "m1");
    assert_eq!(b.logs[BUFFER_CAPACITY - 1].message, format!("m{}", BUFFER_CAPACITY));
}

#[test]
fn backend_fetch_updates_and_status() {
    let mut b = Backend::new();
    assert_eq!(b.status_text(), "Ready");
    b.handle_fetch_update(BackgroundFetchUpdateMessage::CommunityServersUpdate(
        FetchWrapper::Success(CommunityServers { servers: vec![] }),
    ));
    assert!(matches!(b.community_servers, FetchWrapper::Success(_)));
    assert!(matches!(b.news, FetchWrapper::NotStarted));
    b.status_message = Some("Busy".to_string());
    assert_eq!(b.status_text(), "Busy");
    let failed = FetchWrapper::<News>::from_news_result(Err("offline".to_string()));
    assert!(matches!(failed, FetchWrapper::Failed(ref e) if e == "offline"));
    let entry = NewsEntry {
        subject: "s".to_string(),
        body: "b".to_string(),
        author: "a".to_string(),
        source_url: "u".to_string(),
        created_at: 1,
    };
    let ok = FetchWrapper::<News>::from_news_result(Ok(NewsResponse {
        news: NewsResponseInner { records: vec![entry] },
    }));
    match ok {
        FetchWrapper::Success(n) => assert_eq!(n.entries.len(), 1),
        _ => panic!("expected news"),
    }
}

#[test]
fn client_pid() {
    assert_eq!(Client::new(42).pid(), 42);
    let m = ChatMessage { index: 0, timestamp: 0, text: "x".to_string() };
    assert_eq!(m.text, "x");
}

#[test]
fn wine_executable_lookup() {
    assert_eq!(
        find_wine_executable(&vec![false, true, true, false], None).unwrap(),
        "/opt/homebrew/bin/wine64"
    );
    assert_eq!(
        find_wine_executable(&vec![false; 4], Some(("/x/wine64\n", true))).unwrap(),
        "/x/wine64"
    );
    assert_eq!(
        find_wine_executable(&vec![false; 4], Some(("/x/wine64\n", false))).unwrap_err(),
        "Could not find wine executable"
    );
}

#[test]
fn scanned_client_becomes_wine_client() {
    let c = ScannedClient {
        display_name: "Wine: /p".to_string(),
        install_path: "C:\\AC".to_string(),
        wine_executable: "/usr/bin/wine64".to_string(),
        prefix_path: "/p".to_string(),
    }
    .into_client_config();
    match c {
        ClientConfigType::Wine(w) => {
            assert_eq!(w.name, "Wine: /p");
            assert_eq!(w.client_path, "C:\\AC");
            assert_eq!(w.launch_command.program, "/usr/bin/wine64");
            assert_eq!(
                w.launch_command.env.get(&"WINEPREFIX".to_string()).map(|s| s.as_str()),
                Some("/p")
            );
        }
        _ => panic!("expected a Wine client"),
    }
}

#[test]
fn no_drive_c_error_message() {
    let w = WineScanner::new("/usr/bin/wine".to_string());
    let e = w.unix_to_windows_path("/home/u/.wine/drive_c").unwrap_err();
    assert_eq!(e.message(), "Path does not contain /drive_c/: /home/u/.wine/drive_c");
}
