use alembic::commands::{
    account_add, account_edit, account_list, account_remove, account_reset, account_select,
    accept_scanned_dll, client_add, client_dll_add, client_dll_edit, client_dll_list,
    client_dll_remove, client_dll_select, client_edit, client_list, client_remove,
    client_select, dll_configured, exec_launch, inject_command, is_yes, merge_discovered_clients,
    parse_dll_type, parse_launch_mode, resolve_inject, resolve_launch, server_add, server_edit,
    server_list, server_remove, server_select, client_scan_step, dll_scan_step, AccountListing,
    CommandError, DllEditOutcome, DllSelection, EditOutcome, LaunchMode, ScanOutcome,
};
use alembic::settings::{
    adjust_selection_after_remove, AlembicSettings, ClientConfigType, DllType, InjectConfig,
    WindowsClientConfig,
};

fn windows_client(name: &str, path: &str) -> ClientConfigType {
    ClientConfigType::Windows(WindowsClientConfig {
        name: name.to_string(),
        client_path: path.to_string(),
        dlls: Vec::new(),
        selected_dll: None,
    })
}

fn dll(t: DllType, path: &str) -> InjectConfig {
    InjectConfig { dll_type: t, dll_path: path.to_string(), startup_function: None }
}

fn two_servers() -> AlembicSettings {
    let mut s = AlembicSettings::new();
    server_add(&mut s, "A".to_string(), "a.example".to_string(), "9000".to_string());
    server_add(&mut s, "B".to_string(), "b.example".to_string(), "9001".to_string());
    s
}

#[test]
fn new_settings_are_empty() {
    let s = AlembicSettings::new();
    assert!(!s.is_configured);
    assert!(s.servers.is_empty() && s.accounts.is_empty() && s.clients.is_empty());
    assert_eq!(s.get_selected_client(), None);
}

#[test]
fn first_server_is_selected() {
    let mut s = AlembicSettings::new();
    assert!(server_add(&mut s, "A".to_string(), "h".to_string(), "1".to_string()));
    assert_eq!(s.selected_server, Some(0));
    assert!(!server_add(&mut s, "B".to_string(), "h".to_string(), "2".to_string()));
    assert_eq!(s.selected_server, Some(0));
    let rows = server_list(&s);
    assert_eq!(rows.len(), 2);
}

#[test]
fn account_add_rejects_unknown_server() {
    let mut s = two_servers();
    match account_add(&mut s, 5, "u".to_string(), "p".to_string()) {
        Err(CommandError::InvalidServerIndex(5)) => {}
        other => panic!("unexpected {:?}", other.is_ok()),
    }
    assert!(s.accounts.is_empty());
}

#[test]
fn first_account_is_selected() {
    let mut s = two_servers();
    assert!(account_add(&mut s, 1, "u".to_string(), "p".to_string()).unwrap());
    assert_eq!(s.selected_account, Some(0));
    assert!(!account_add(&mut s, 0, "v".to_string(), "q".to_string()).unwrap());
    assert_eq!(s.selected_account, Some(0));
}

#[test]
fn account_list_filters_by_server() {
    let mut s = two_servers();
    account_add(&mut s, 1, "u".to_string(), "p".to_string()).unwrap();
    account_add(&mut s, 0, "v".to_string(), "q".to_string()).unwrap();
    match account_list(&s, Some(0)).unwrap() {
        AccountListing::Accounts(rows) => {
            assert_eq!(rows.len(), 1);
            assert_eq!(rows[0].index, 1);
            assert_eq!(rows[0].username, "v");
            assert_eq!(rows[0].server_name.as_deref(), Some("A"));
            assert!(!rows[0].selected);
        }
        _ => panic!("expected rows"),
    }
    assert!(matches!(account_list(&s, Some(9)), Err(CommandError::InvalidServerIndex(9))));
    assert!(matches!(account_list(&AlembicSettings::new(), None), Ok(AccountListing::NoServers)));
}

#[test]
fn account_select_and_reset() {
    let mut s = two_servers();
    account_add(&mut s, 0, "u".to_string(), "p".to_string()).unwrap();
    account_add(&mut s, 0, "v".to_string(), "p".to_string()).unwrap();
    assert!(account_select(&mut s, 1).is_ok());
    assert_eq!(s.selected_account, Some(1));
    assert!(matches!(account_select(&mut s, 2), Err(CommandError::InvalidAccountIndex(2))));
    assert!(account_reset(&mut s));
    assert!(!account_reset(&mut s));
}

#[test]
fn account_remove_adjusts_selection() {
    let mut s = two_servers();
    for n in ["a", "b", "c"] {
        account_add(&mut s, 0, n.to_string(), "p".to_string()).unwrap();
    }
    account_select(&mut s, 2).unwrap();
    account_remove(&mut s, 0).unwrap();
    assert_eq!(s.selected_account, Some(1));
    assert_eq!(s.accounts[1].username, "c");
    account_remove(&mut s, 1).unwrap();
    assert_eq!(s.selected_account, None);
    assert!(matches!(account_remove(&mut s, 7), Err(CommandError::InvalidAccountIndex(7))));
}

#[test]
fn account_edit_outcomes() {
    let mut s = two_servers();
    account_add(&mut s, 0, "u".to_string(), "p".to_string()).unwrap();
    assert_eq!(account_edit(&mut s, 0, None, None, None).unwrap(), EditOutcome::NoChanges);
    assert_eq!(
        account_edit(&mut s, 0, Some(1), Some("w".to_string()), None).unwrap(),
        EditOutcome::Updated
    );
    assert_eq!(s.accounts[0].server_index, 1);
    assert_eq!(s.accounts[0].username, "w");
    assert_eq!(s.accounts[0].password, "p");
}

#[test]
fn server_select_edit_remove() {
    let mut s = two_servers();
    assert!(matches!(server_select(&mut s, 3), Err(CommandError::InvalidServerIndex(3))));
    server_select(&mut s, 1).unwrap();
    assert_eq!(
        server_edit(&mut s, 1, None, Some("c.example".to_string()), None).unwrap(),
        EditOutcome::Updated
    );
    assert_eq!(s.servers[1].hostname, "c.example");
    assert_eq!(s.servers[1].name, "B");
    server_remove(&mut s, 0).unwrap();
    assert_eq!(s.selected_server, Some(0));
    assert_eq!(s.servers[0].name, "B");
}

#[test]
fn server_remove_drops_and_reindexes_accounts() {
    let mut s = two_servers();
    account_add(&mut s, 0, "on_a".to_string(), "p".to_string()).unwrap();
    account_add(&mut s, 1, "on_b".to_string(), "p".to_string()).unwrap();
    server_remove(&mut s, 0).unwrap();
    assert_eq!(s.accounts.len(), 1);
    assert_eq!(s.accounts[0].username, "on_b");
    assert_eq!(s.accounts[0].server_index, 0);
}

#[test]
fn launch_mode_names() {
    assert_eq!(parse_launch_mode("wine"), Some(LaunchMode::Wine));
    assert_eq!(parse_launch_mode("windows"), Some(LaunchMode::Windows));
    assert_eq!(parse_launch_mode("WINE"), None);
    assert_eq!(parse_dll_type("decal"), Some(DllType::Decal));
    assert_eq!(parse_dll_type("alembic"), Some(DllType::Alembic));
    assert_eq!(parse_dll_type("other"), None);
}

#[test]
fn client_add_reads_mode_in_any_case() {
    let mut s = AlembicSettings::new();
    let idx = client_add(
        &mut s,
        "WINE",
        "C:\\ac\\acclient.exe".to_string(),
        "/usr/bin/wine".to_string(),
        Some("/home/u/.wine".to_string()),
        vec![("A".to_string(), "1".to_string())],
    )
    .unwrap();
    assert_eq!(idx, 0);
    assert!(s.clients[0].is_wine());
    assert_eq!(s.selected_client, Some(0));
    assert!(s.is_configured);
    match &s.clients[0] {
        ClientConfigType::Wine(w) => {
            assert_eq!(w.launch_command.program, "/usr/bin/wine");
            assert_eq!(
                w.launch_command.env.get(&"WINEPREFIX".to_string()).map(|v| v.as_str()),
                Some("/home/u/.wine")
            );
            assert_eq!(w.launch_command.env.get(&"A".to_string()).map(|v| v.as_str()), Some("1"));
        }
        _ => panic!("expected a Wine client"),
    }
}

#[test]
fn client_add_errors() {
    let mut s = AlembicSettings::new();
    match client_add(&mut s, "dos", "p".to_string(), "l".to_string(), None, vec![]) {
        Err(CommandError::InvalidMode(m)) => assert_eq!(m, "dos"),
        _ => panic!("expected an invalid mode"),
    }
    assert!(matches!(
        client_add(&mut s, "wine", "p".to_string(), "l".to_string(), None, vec![]),
        Err(CommandError::WinePrefixRequired)
    ));
    assert!(s.clients.is_empty());
}

#[test]
fn client_list_select_remove() {
    let mut s = AlembicSettings::new();
    s.add_client(windows_client("one", "C:\\1"), false);
    s.add_client(windows_client("two", "C:\\2"), false);
    client_select(&mut s, 1).unwrap();
    let rows = client_list(&s);
    assert_eq!(rows.len(), 2);
    assert!(rows[1].selected && !rows[0].selected);
    assert_eq!(rows[1].name, "two");
    assert!(!rows[1].is_wine);
    client_remove(&mut s, 1).unwrap();
    assert_eq!(s.selected_client, None);
    assert!(matches!(client_remove(&mut s, 4), Err(CommandError::InvalidClientIndex(4))));
}

#[test]
fn client_edit_rejects_wine_fields_on_windows_client_or_updates() {
    let mut s = AlembicSettings::new();
    s.add_client(windows_client("one", "C:\\1"), true);
    let r = client_edit(
        &mut s,
        0,
        Some("renamed".to_string()),
        None,
        None,
        vec![],
        false,
        vec![],
        vec![],
    );
    assert!(r.is_ok());
    assert_eq!(s.clients[0].name(), "renamed");
    assert!(matches!(
        client_edit(&mut s, 3, None, None, None, vec![], false, vec![], vec![]),
        Err(CommandError::InvalidClientIndex(3))
    ));
}

#[test]
fn dll_commands() {
    let mut s = AlembicSettings::new();
    s.add_client(windows_client("one", "C:\\1"), true);
    client_dll_add(&mut s, 0, "Decal", "C:\\d\\Inject.dll".to_string(), None).unwrap();
    let rows = client_dll_list(&s, 0).unwrap();
    assert_eq!(rows.len(), 1);
    assert_eq!(rows[0].dll_type, DllType::Decal);
    assert_eq!(s.clients[0].dlls()[0].startup_function.as_deref(), Some("DecalStartup"));
    assert_eq!(client_dll_select(&mut s, 0, 0).unwrap(), DllSelection::Selected);
    assert_eq!(client_dll_select(&mut s, 0, 4).unwrap(), DllSelection::NoSuchDll);
    assert!(matches!(
        client_dll_add(&mut s, 0, "exe", "x".to_string(), None),
        Err(CommandError::InvalidDllType(_))
    ));
    assert_eq!(
        client_dll_edit(&mut s, 0, 0, Some("bogus".to_string()), None, Some("none".to_string()))
            .unwrap(),
        DllEditOutcome::Updated { type_ignored: true }
    );
    assert_eq!(s.clients[0].dlls()[0].startup_function, None);
    assert!(client_dll_remove(&mut s, 0, 0));
    assert_eq!(s.clients[0].selected_dll(), None);
    assert!(!client_dll_remove(&mut s, 0, 0));
}

#[test]
fn scanned_dlls_are_skipped_or_accepted() {
    let mut s = AlembicSettings::new();
    s.add_client(windows_client("one", "C:\\1"), true);
    s.add_dll_to_client(0, dll(DllType::Decal, "C:\\d.dll"));
    assert!(dll_configured(&s, 0, &"C:\\d.dll".to_string()));
    assert!(!dll_configured(&s, 0, &"C:\\e.dll".to_string()));
    assert!(!dll_configured(&s, 3, &"C:\\d.dll".to_string()));
    accept_scanned_dll(&mut s, 0, dll(DllType::Alembic, "C:\\e.dll"), true);
    assert_eq!(s.clients[0].dlls().len(), 2);
    assert_eq!(s.clients[0].selected_dll(), Some(0));
    assert!(is_yes("  YES \n"));
    assert!(is_yes("y"));
    assert!(!is_yes("yep"));
    assert!(!is_yes(""));
}

#[test]
fn merge_skips_known_paths_and_selects_first() {
    let mut s = AlembicSettings::new();
    let added = merge_discovered_clients(
        &mut s,
        vec![windows_client("a", "C:\\a"), windows_client("b", "C:\\a"), windows_client("c", "C:\\c")],
    );
    assert_eq!(added, 2);
    assert_eq!(s.selected_client, Some(0));
    assert!(s.is_configured);
    let again = merge_discovered_clients(&mut s, vec![windows_client("d", "C:\\c")]);
    assert_eq!(again, 0);
    assert_eq!(s.clients.len(), 2);
}

#[test]
fn resolve_launch_by_name_and_selection() {
    let mut s = two_servers();
    assert!(matches!(resolve_launch(&s, None, None), Err(CommandError::NoClientSelected)));
    s.add_client(windows_client("one", "C:\\1"), true);
    account_add(&mut s, 1, "u".to_string(), "p".to_string()).unwrap();
    let sel = resolve_launch(&s, Some("B".to_string()), None).unwrap();
    assert_eq!((sel.client, sel.server, sel.account, sel.dll), (0, 1, 0, None));
    match resolve_launch(&s, Some("Z".to_string()), None) {
        Err(CommandError::ServerNotFound(n)) => assert_eq!(n, "Z"),
        _ => panic!("expected a missing server"),
    }
    match resolve_launch(&s, None, Some("nobody".to_string())) {
        Err(CommandError::AccountNotFound(n)) => assert_eq!(n, "nobody"),
        _ => panic!("expected a missing account"),
    }
    assert!(matches!(resolve_inject(&s), Err(CommandError::NotWineClient)));
}

#[test]
fn exec_launch_builds_client_server_account() {
    let (c, srv, acc) = exec_launch(
        "Windows",
        "C:\\ac.exe".to_string(),
        "host".to_string(),
        "9000".to_string(),
        "me".to_string(),
        "pw".to_string(),
        "".to_string(),
        None,
        vec![],
    )
    .unwrap();
    assert_eq!(c.name(), "CLI-specified Windows client");
    assert_eq!(srv.name, "host");
    assert_eq!(srv.hostname, "host");
    assert_eq!(acc.server_index, 0);
    assert_eq!(acc.username, "me");
}

#[test]
fn selection_after_remove_cases() {
    assert_eq!(adjust_selection_after_remove(Some(2), 2), None);
    assert_eq!(adjust_selection_after_remove(Some(3), 1), Some(2));
    assert_eq!(adjust_selection_after_remove(Some(0), 1), Some(0));
    assert_eq!(adjust_selection_after_remove(None, 0), None);
}

#[test]
fn law_removal_keeps_selected_item_example() {
    let mut s = AlembicSettings::new();
    for n in ["a", "b", "c"] {
        s.add_client(windows_client(n, n), false);
    }
    client_select(&mut s, 2).unwrap();
    client_remove(&mut s, 0).unwrap();
    let i = s.selected_client.unwrap();
    assert_eq!(s.clients[i].name(), "c");
}

#[test]
fn law_add_then_remove_restores_servers_example() {
    let mut s = two_servers();
    let before: Vec<String> = s.servers.iter().map(|x| x.name.clone()).collect();
    server_add(&mut s, "C".to_string(), "c".to_string(), "1".to_string());
    server_remove(&mut s, 2).unwrap();
    let after: Vec<String> = s.servers.iter().map(|x| x.name.clone()).collect();
    assert_eq!(before, after);
    assert_eq!(s.selected_server, Some(0));
}

#[test]
fn law_merge_idempotent_example() {
    let mut s = AlembicSettings::new();
    merge_discovered_clients(&mut s, vec![windows_client("a", "C:\\a")]);
    let n = s.clients.len();
    let added = merge_discovered_clients(&mut s, vec![windows_client("a", "C:\\a")]);
    assert_eq!(added, 0);
    assert_eq!(s.clients.len(), n);
}

#[test]
fn inject_runs_cork_under_the_launch_command() {
    let mut s = AlembicSettings::new();
    client_add(
        &mut s,
        "wine",
        "C:\\ac.exe".to_string(),
        "/usr/bin/wine".to_string(),
        Some("/pfx".to_string()),
        vec![],
    )
    .unwrap();
    client_dll_add(&mut s, 0, "decal", "C:\\d.dll".to_string(), None).unwrap();
    client_dll_select(&mut s, 0, 0).unwrap();
    let (c, d) = resolve_inject(&s).unwrap();
    let line = inject_command(&s, c, d, "/bin/cork.exe");
    assert_eq!(line.program, "/usr/bin/wine");
    assert_eq!(line.args, vec!["/bin/cork.exe", "--dll", "C:\\d.dll"]);
    assert_eq!(line.env, vec![("WINEPREFIX".to_string(), "/pfx".to_string())]);
}

#[test]
fn client_scan_steps() {
    let mut s = AlembicSettings::new();
    assert_eq!(client_scan_step(&mut s, windows_client("a", "C:\\a"), false, true, 0), ScanOutcome::Declined);
    assert!(s.clients.is_empty());
    assert_eq!(client_scan_step(&mut s, windows_client("b", "C:\\b"), true, true, 0), ScanOutcome::Added);
    assert_eq!(s.selected_client, Some(0));
    assert!(s.is_configured);
    assert_eq!(client_scan_step(&mut s, windows_client("c", "C:\\c"), true, true, 1), ScanOutcome::Added);
    assert_eq!(s.selected_client, Some(0));
    assert_eq!(
        client_scan_step(&mut s, windows_client("b2", "C:\\b"), true, true, 2),
        ScanOutcome::AlreadyConfigured
    );
    assert_eq!(s.clients.len(), 2);
}

#[test]
fn dll_scan_steps() {
    let mut s = AlembicSettings::new();
    s.add_client(windows_client("one", "C:\\1"), true);
    assert_eq!(dll_scan_step(&mut s, 0, dll(DllType::Decal, "C:\\d.dll"), false, 0), ScanOutcome::Declined);
    assert_eq!(dll_scan_step(&mut s, 0, dll(DllType::Decal, "C:\\d.dll"), true, 0), ScanOutcome::Added);
    assert_eq!(s.clients[0].selected_dll(), Some(0));
    assert_eq!(
        dll_scan_step(&mut s, 0, dll(DllType::Decal, "C:\\d.dll"), true, 1),
        ScanOutcome::AlreadyConfigured
    );
    assert_eq!(dll_scan_step(&mut s, 0, dll(DllType::Alembic, "C:\\e.dll"), true, 1), ScanOutcome::Added);
    assert_eq!(s.clients[0].dlls().len(), 2);
}
