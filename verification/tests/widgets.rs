use alembic::backend::{
    AppModal, Backend, ChatMessage, CommunityServers, CommunityServersServerItem, FetchWrapper,
    News, PacketInfo,
};
use alembic::commands::server_add;
use alembic::dll::{
    chat_hook_message, client_loop_action, hook_bytes_to_copy, shutdown_client, ClientControl,
    ClientLoopAction, ClientLoopEvent, DllLifecycle,
};
use alembic::backend::ClientServerMessage;
use alembic::launch::{
    apply_launch_result, can_launch, check_try_launch, launch_choice,
    launch_client_with_injection, LaunchRefusal, PathCheck,
};
use alembic::settings::{
    Account, AlembicSettings, ClientConfigType, DllType, InjectConfig, WindowsClientConfig,
};
use alembic::widgets::binary_viewer::BinaryViewer;
use alembic::widgets::clients::{
    default_wine_client, SettingsClientsTab, SettingsGameClientPathEdit,
};
use alembic::widgets::community::{
    import_community_server, news_status_text, AccountsCommunityServersTab, FetchSchedule,
    NANOS_PER_SECOND,
};
use alembic::widgets::dlls::{
    add_discovered_dlls, add_new_dll, SettingsDLLPathEdit, SettingsDllsTab,
};
use alembic::widgets::pages::{
    About, AppPage, Navigation, Settings, SettingsTab, SettingsTabContent, Wizard, WizardAction,
    WizardEnd, WizardPage, WizardStart,
};
use alembic::widgets::pickers::{
    truncate_label, AccountPicker, ClientPicker, DllPicker, DllPickerText, ServerPicker,
};
use alembic::widgets::tabs::{
    AccountsMainTab, AccountsServersTab, AccountsTab, AccountsTabContent, DeveloperLogsTab,
    DeveloperNetworkIncomingTab, GameChatTab, GameTab, GameTabContent,
};

fn windows_client(name: &str, path: &str) -> ClientConfigType {
    ClientConfigType::Windows(WindowsClientConfig {
        name: name.to_string(),
        client_path: path.to_string(),
        dlls: Vec::new(),
        selected_dll: None,
    })
}

fn dll(t: DllType, path: &str) -> InjectConfig {
    InjectConfig { dll_type: t, dll_path: path.to_string(), startup_function: None }
}

fn one_client() -> AlembicSettings {
    let mut s = AlembicSettings::new();
    s.add_client(windows_client("one", "C:\\1"), true);
    s
}

fn server_item(name: &str, host: &str) -> CommunityServersServerItem {
    CommunityServersServerItem {
        id: "1".to_string(),
        name: name.to_string(),
        description: String::new(),
        emu: "ACE".to_string(),
        server_host: host.to_string(),
        server_port: "9000".to_string(),
        server_type: "PvE".to_string(),
        status: "up".to_string(),
        website_url: None,
        discord_url: Some("d".to_string()),
    }
}

#[test]
fn new_client_is_default_wine_client() {
    let mut s = AlembicSettings::new();
    let mut tab = SettingsClientsTab::new();
    tab.new_client(&mut s);
    assert_eq!(tab.selected_index, Some(0));
    assert_eq!(s.selected_client, None);
    match &s.clients[0] {
        ClientConfigType::Wine(w) => {
            assert_eq!(w.name, "New Client");
            assert_eq!(w.client_path, "C:\\Turbine\\Asheron's Call\\acclient.exe");
            assert_eq!(w.launch_command.program, "/usr/local/bin/wine64");
            assert_eq!(
                w.launch_command.env.get(&"WINEPREFIX".to_string()).map(|v| v.as_str()),
                Some("/path/to/prefix")
            );
        }
        _ => panic!("expected a Wine client"),
    }
    assert_eq!(SettingsClientsTab::list_label(&s, 0), "New Client (Wine)");
}

#[test]
fn client_type_switch_keeps_name_and_path() {
    let mut s = one_client();
    s.add_dll_to_client(0, dll(DllType::Decal, "C:\\d.dll"));
    assert!(!SettingsClientsTab::set_client_type(&mut s, 0, false));
    assert!(SettingsClientsTab::set_client_type(&mut s, 0, true));
    assert!(s.clients[0].is_wine());
    assert_eq!(s.clients[0].name(), "one");
    assert_eq!(s.clients[0].install_path(), "C:\\1");
    assert!(s.clients[0].dlls().is_empty());
    assert_eq!(SettingsClientsTab::list_label(&s, 0), "one (Wine)");
}

#[test]
fn client_editor_fields() {
    let mut s = one_client();
    SettingsClientsTab::rename_client(&mut s, 0, "renamed".to_string());
    SettingsClientsTab::set_client_path(&mut s, 0, "D:\\ac".to_string());
    assert_eq!(s.clients[0].name(), "renamed");
    assert_eq!(s.clients[0].install_path(), "D:\\ac");
    assert!(!SettingsClientsTab::set_program(&mut s, 0, "wine".to_string()));
    assert!(!SettingsClientsTab::add_argument(&mut s, 0));
    assert!(!SettingsClientsTab::add_env_var(&mut s, 0));
}

#[test]
fn wine_launch_command_editing() {
    let mut s = AlembicSettings::new();
    s.add_client(default_wine_client("w".to_string(), "C:\\w".to_string()), true);
    assert!(SettingsClientsTab::set_program(&mut s, 0, "/usr/bin/wine".to_string()));
    assert!(SettingsClientsTab::add_argument(&mut s, 0));
    assert!(SettingsClientsTab::add_argument(&mut s, 0));
    assert!(SettingsClientsTab::remove_argument(&mut s, 0, 1));
    assert!(!SettingsClientsTab::remove_argument(&mut s, 0, 5));
    assert!(SettingsClientsTab::add_env_var(&mut s, 0));
    assert!(SettingsClientsTab::set_env_value(&mut s, 0, "VAR_1".to_string(), "v".to_string()));
    assert!(SettingsClientsTab::rename_env_var(&mut s, 0, &"VAR_1".to_string(), "X".to_string()));
    assert!(!SettingsClientsTab::rename_env_var(&mut s, 0, &"nope".to_string(), "Y".to_string()));
    assert!(SettingsClientsTab::remove_env_var(&mut s, 0, &"WINEPREFIX".to_string()));
    match &s.clients[0] {
        ClientConfigType::Wine(w) => {
            assert_eq!(w.launch_command.program, "/usr/bin/wine");
            assert_eq!(w.launch_command.args, vec![String::new()]);
            assert_eq!(w.launch_command.env.len(), 1);
            assert_eq!(w.launch_command.env.get(&"X".to_string()).map(|v| v.as_str()), Some("v"));
        }
        _ => panic!("expected a Wine client"),
    }
}

#[test]
fn clamp_and_finish_frame_deletion() {
    let mut s = AlembicSettings::new();
    for n in ["a", "b", "c"] {
        s.add_client(windows_client(n, n), false);
    }
    let mut tab = SettingsClientsTab { selected_index: Some(9) };
    tab.clamp_selection(&s);
    assert_eq!(tab.selected_index, Some(2));
    tab.finish_frame(&mut s, true);
    assert_eq!(s.clients.len(), 2);
    assert_eq!(tab.selected_index, Some(1));
    // The settings took the selection before the deletion.
    assert_eq!(s.selected_client, Some(2));
    tab.selected_index = Some(0);
    tab.finish_frame(&mut s, true);
    assert_eq!(s.clients[0].name(), "b");
    assert_eq!(tab.selected_index, Some(0));
    tab.finish_frame(&mut s, true);
    assert!(s.clients.is_empty());
    assert_eq!(tab.selected_index, None);
}

#[test]
fn wizard_client_table() {
    let mut s = AlembicSettings::new();
    for n in ["a", "b"] {
        s.add_client(windows_client(n, n), false);
    }
    SettingsGameClientPathEdit::select_client(&mut s, 1);
    assert_eq!(s.selected_client, Some(1));
    SettingsGameClientPathEdit::delete_client(&mut s, 0);
    assert_eq!(s.selected_client, Some(0));
    assert_eq!(s.clients[0].name(), "b");
}

#[test]
fn discovered_dlls_select_first_when_none() {
    let mut s = one_client();
    add_discovered_dlls(&mut s, 0, vec![]);
    assert!(s.clients[0].dlls().is_empty());
    add_discovered_dlls(
        &mut s,
        0,
        vec![dll(DllType::Decal, "C:\\a.dll"), dll(DllType::Decal, "C:\\b.dll")],
    );
    assert_eq!(s.clients[0].dlls().len(), 2);
    assert_eq!(s.clients[0].selected_dll(), Some(0));
    s.select_dll_for_client(0, Some(1));
    add_discovered_dlls(&mut s, 0, vec![dll(DllType::Alembic, "C:\\c.dll")]);
    assert_eq!(s.clients[0].selected_dll(), Some(1));
    add_discovered_dlls(&mut s, 5, vec![dll(DllType::Alembic, "C:\\c.dll")]);
    assert_eq!(s.clients.len(), 1);
}

#[test]
fn new_dll_is_alembic_and_selected_when_alone() {
    let mut s = one_client();
    add_new_dll(&mut s, 0);
    let d = &s.clients[0].dlls()[0];
    assert_eq!(d.dll_type, DllType::Alembic);
    assert_eq!(d.dll_path, "C:\\Program Files\\Alembic\\Alembic.dll");
    assert_eq!(d.startup_function, None);
    assert_eq!(s.clients[0].selected_dll(), Some(0));
    s.select_dll_for_client(0, None);
    SettingsDLLPathEdit::new_dll(&mut s);
    assert_eq!(s.clients[0].dlls().len(), 2);
    assert_eq!(s.clients[0].selected_dll(), None);
}

#[test]
fn dll_table_select_and_delete() {
    let mut s = one_client();
    s.add_dll_to_client(0, dll(DllType::Decal, "C:\\a.dll"));
    s.add_dll_to_client(0, dll(DllType::Alembic, "C:\\b.dll"));
    SettingsDLLPathEdit::select_dll(&mut s, 1);
    assert_eq!(s.clients[0].selected_dll(), Some(1));
    SettingsDLLPathEdit::delete_dll(&mut s, 0);
    assert_eq!(s.clients[0].selected_dll(), Some(0));
    assert_eq!(s.clients[0].dlls()[0].dll_path, "C:\\b.dll");
    s.selected_client = None;
    SettingsDLLPathEdit::delete_dll(&mut s, 0);
    assert_eq!(s.clients[0].dlls().len(), 1);
}

#[test]
fn dll_editor_add_edit_delete() {
    let mut s = one_client();
    let mut tab = SettingsDllsTab::new();
    tab.new_decal(&mut s);
    assert_eq!(tab.selected_index, Some(0));
    let d = &s.clients[0].dlls()[0];
    assert_eq!(d.dll_path, "C:\\Program Files (x86)\\Decal 3.0\\Inject.dll");
    assert_eq!(d.startup_function.as_deref(), Some("DecalStartup"));
    assert!(!tab.set_startup_function(&mut s, "X".to_string()));
    tab.new_alembic(&mut s);
    assert_eq!(tab.selected_index, Some(1));
    assert_eq!(s.clients[0].dlls()[1].dll_path, "C:\\path\\to\\alembic.dll");
    assert!(tab.set_startup_function(&mut s, "Start".to_string()));
    assert_eq!(s.clients[0].dlls()[1].startup_function.as_deref(), Some("Start"));
    assert!(tab.set_startup_function(&mut s, String::new()));
    assert_eq!(s.clients[0].dlls()[1].startup_function, None);
    assert!(tab.set_dll_path(&mut s, "C:\\new.dll".to_string()));
    assert_eq!(s.clients[0].dlls()[1].dll_path, "C:\\new.dll");
    assert!(tab.delete_selected(&mut s));
    assert_eq!(tab.selected_index, Some(0));
    assert!(tab.delete_selected(&mut s));
    assert_eq!(tab.selected_index, None);
    assert!(!tab.delete_selected(&mut s));
    assert_eq!(SettingsDllsTab::dll_count(&s), 0);
}

#[test]
fn dll_editor_clamps() {
    let mut s = one_client();
    s.add_dll_to_client(0, dll(DllType::Decal, "C:\\a.dll"));
    let mut tab = SettingsDllsTab { selected_index: Some(4) };
    tab.clamp_selection(&s);
    assert_eq!(tab.selected_index, Some(0));
}

#[test]
fn account_picker_filters_by_server() {
    let mut s = AlembicSettings::new();
    server_add(&mut s, "A".to_string(), "a".to_string(), "1".to_string());
    server_add(&mut s, "B".to_string(), "b".to_string(), "2".to_string());
    for (srv, n) in [(0, "x"), (1, "y"), (1, "z")] {
        s.accounts.push(Account { server_index: srv, username: n.to_string(), password: String::new() });
    }
    let none = AccountPicker { selected_server: None };
    assert!(none.names(&s).is_empty());
    assert_eq!(none.selected_text(&s), "Pick a server");
    let p = AccountPicker { selected_server: Some(1) };
    assert_eq!(p.names(&s), vec!["y", "z"]);
    assert_eq!(p.selected_text(&s), "Pick an account");
    AccountPicker::pick(&mut s, 1);
    assert_eq!(s.selected_account, Some(1));
    assert_eq!(p.selected_text(&s), "z");
}

#[test]
fn server_and_client_pickers() {
    let mut s = AlembicSettings::new();
    assert_eq!(ServerPicker::selected_text(&s), "No servers");
    assert_eq!(ClientPicker::selected_text(&s), "No clients");
    server_add(&mut s, "Main".to_string(), "h".to_string(), "1".to_string());
    assert_eq!(ServerPicker::selected_text(&s), "Main");
    s.selected_server = Some(4);
    assert_eq!(ServerPicker::selected_text(&s), "Pick a server");
    ServerPicker::pick(&mut s, 0);
    assert_eq!(s.selected_server, Some(0));
    s.add_client(windows_client("c", "p"), false);
    assert_eq!(ClientPicker::selected_text(&s), "Pick a client");
    ClientPicker::pick(&mut s, 0);
    assert_eq!(ClientPicker::selected_text(&s), "c");
    assert_eq!(ClientPicker::names(&s), vec!["c"]);
}

#[test]
fn client_label_truncation() {
    assert_eq!(truncate_label("short"), "short");
    assert_eq!(truncate_label("exactly twenty bytes"), "exactly twenty bytes");
    assert_eq!(truncate_label("a name that is too long"), "a name that is to...");
    assert_eq!(truncate_label("éééééééé_long_name"), "éééééééé_...");
}

#[test]
fn law_client_label_fits_example() {
    let label = truncate_label("a rather long client name, longer still");
    assert!(label.len() <= 20);
}

#[test]
fn dll_picker_texts() {
    let mut s = AlembicSettings::new();
    assert_eq!(DllPicker::selected_text(&s), DllPickerText::PickClientFirst);
    s.add_client(windows_client("c", "p"), true);
    assert_eq!(DllPicker::selected_text(&s), DllPickerText::NoDlls);
    s.add_dll_to_client(0, dll(DllType::Decal, "d"));
    assert_eq!(DllPicker::selected_text(&s), DllPickerText::NoDllSelected);
    DllPicker::pick(&mut s, Some(0));
    assert_eq!(DllPicker::selected_text(&s), DllPickerText::Selected(DllType::Decal));
    assert_eq!(DllPicker::options(&s), vec![DllType::Decal]);
    DllPicker::pick(&mut s, None);
    assert_eq!(s.clients[0].selected_dll(), None);
}

#[test]
fn binary_viewer_cells() {
    let v = BinaryViewer::new("p".to_string(), vec![0x00, 0x4f, 0xab, b'A', 200]);
    assert_eq!(v.width, 8);
    assert_eq!(v.hex_text(0), "00");
    assert_eq!(v.hex_text(1), "4F");
    assert_eq!(v.hex_text(2), "AB");
    assert_eq!(v.ascii_text(3), "A");
    assert_eq!(v.ascii_text(4), ".");
    assert!(!v.ends_row(6));
    assert!(v.ends_row(7));
}

#[test]
fn wizard_steps() {
    let mut s = AlembicSettings::new();
    let mut nav = Navigation::initial(false);
    assert_eq!(nav.app_page, AppPage::Wizard);
    assert_eq!(nav.wizard_page, WizardPage::Start);
    let w = Wizard::new();
    w.click(&mut nav, &mut s, WizardAction::Continue);
    assert_eq!(nav.wizard_page, WizardPage::Start);
    w.click(&mut nav, &mut s, WizardAction::GetStarted);
    assert_eq!(nav.wizard_page, WizardPage::Client);
    w.click(&mut nav, &mut s, WizardAction::Finish);
    assert_eq!(nav.wizard_page, WizardPage::Client);
    w.click(&mut nav, &mut s, WizardAction::Continue);
    assert_eq!(nav.wizard_page, WizardPage::Done);
    assert!(!s.is_configured);
    w.click(&mut nav, &mut s, WizardAction::Finish);
    assert!(s.is_configured);
    assert_eq!(nav.app_page, AppPage::Main);
}

#[test]
fn pages_navigation() {
    let mut nav = Navigation::initial(true);
    assert_eq!(nav.app_page, AppPage::Main);
    nav.open_settings();
    assert_eq!(nav.app_page, AppPage::Settings);
    nav.back_to_main();
    nav.open_about();
    assert_eq!(nav.app_page, AppPage::About);
    let _ = (About::new(), WizardStart::new(), WizardEnd::new());
    assert_eq!(About::version_text(), "Version 0.1.0");
    let mut s = AlembicSettings::new();
    let mut n2 = Navigation::initial(false);
    Wizard::new().click(&mut n2, &mut s, WizardAction::ExitSetup);
    assert!(s.is_configured);
    assert_eq!(n2.app_page, AppPage::Main);
}

#[test]
fn settings_window_tabs() {
    let w = Settings::new();
    assert_eq!(w.settings_tab.selected_tab, 0);
    assert_eq!(w.settings_tab.tabs.len(), 2);
    assert_eq!(SettingsTab::label(&w.settings_tab.tabs[0]), "Clients");
    assert_eq!(SettingsTab::label(&w.settings_tab.tabs[1]), "DLLs");
    assert!(matches!(w.settings_tab.tabs[1], SettingsTabContent::Dlls(_)));
}

#[test]
fn main_page_tabs() {
    let a = AccountsTab::new();
    let labels: Vec<&str> = a.tabs.iter().map(AccountsTab::label).collect();
    assert_eq!(labels, vec!["Accounts", "Servers", "Community Servers"]);
    assert!(matches!(a.tabs[0], AccountsTabContent::Main(_)));
    let g = GameTab::new();
    let labels: Vec<&str> = g.tabs.iter().map(GameTab::label).collect();
    assert_eq!(labels, vec!["Main", "Chat"]);
    assert!(matches!(g.tabs[1], GameTabContent::Chat(_)));
    assert_eq!(GameChatTab::default().current_message, "");
    let m = ChatMessage { index: 0, timestamp: 0, text: "hi".to_string() };
    assert_eq!(GameChatTab::line_text(&m), "[TODO] hi");
}

#[test]
fn accounts_and_servers_test_buttons() {
    let mut s = AlembicSettings::new();
    let tab = AccountsMainTab { selected_server: None };
    assert_eq!(tab.picker_text(), "nothing");
    tab.add_test_account(&mut s);
    assert_eq!(s.accounts[0].server_index, 0);
    assert_eq!(s.accounts[0].username, "Test");
    assert_eq!(AccountsMainTab::count_text(&s), "n accounts: 1");
    AccountsServersTab::add_test_server(&mut s);
    assert_eq!(s.servers[0].hostname, "test");
    assert_eq!(s.servers[0].port, "9000");
    assert_eq!(AccountsServersTab::count_text(&s), "n servers: 1");
}

#[test]
fn incoming_packets_tab() {
    let mut t = DeveloperNetworkIncomingTab::default();
    assert_eq!(t.selected_packet, None);
    t.select_packet(3);
    assert_eq!(t.selected_packet, Some(3));
    let p = PacketInfo { index: 1, timestamp: 1700000000, data: vec![] };
    assert_eq!(DeveloperNetworkIncomingTab::packet_label(&p), "1700000000");
}

#[test]
fn fetch_schedule_retries() {
    let mut s = FetchSchedule::default();
    assert_eq!(s.retry_interval, 60 * NANOS_PER_SECOND);
    assert!(s.poll(false, 1000));
    assert!(!s.poll(false, 1000 + 60 * NANOS_PER_SECOND));
    assert!(s.poll(false, 1001 + 60 * NANOS_PER_SECOND));
    assert!(s.poll(false, 1002 + 120 * NANOS_PER_SECOND));
    assert_eq!(s.num_retry_attempts, 3);
    assert!(!s.poll(false, 1000 * 60 * NANOS_PER_SECOND));
}

#[test]
fn law_poll_quiet_after_arrival_example() {
    let mut s = FetchSchedule::default();
    assert!(s.poll(true, 5));
    assert!(s.is_resolved);
    assert!(!s.poll(false, 5 + 3600 * NANOS_PER_SECOND));
    assert_eq!(s.num_retry_attempts, 1);
}

#[test]
fn community_tab_texts_and_import() {
    let t = AccountsCommunityServersTab::default();
    assert_eq!(t.fetch.max_retry_attempts, 3);
    assert_eq!(
        AccountsCommunityServersTab::status_text(&FetchWrapper::NotStarted).as_deref(),
        Some("Not yet fetched...")
    );
    assert_eq!(
        AccountsCommunityServersTab::status_text(&FetchWrapper::Success(CommunityServers {
            servers: vec![]
        }))
        .as_deref(),
        Some("No servers to show")
    );
    assert_eq!(
        AccountsCommunityServersTab::status_text(&FetchWrapper::Failed("boom".to_string()))
            .as_deref(),
        Some("Error fetching community servers list: boom")
    );
    assert_eq!(
        AccountsCommunityServersTab::status_text(&FetchWrapper::Success(CommunityServers {
            servers: vec![server_item("a", "h")]
        })),
        None
    );
    assert_eq!(AccountsCommunityServersTab::link_text(&None), "None");
    assert_eq!(news_status_text(&FetchWrapper::<News>::Retrying(1)).as_deref(), Some("Retrying..."));
    assert_eq!(
        news_status_text(&FetchWrapper::<News>::Failed("x".to_string())).as_deref(),
        Some("Error fetching news: x")
    );
    let mut s = AlembicSettings::new();
    server_add(&mut s, "Other".to_string(), "o".to_string(), "1".to_string());
    import_community_server(&mut s, &server_item("Leafcull", "leaf.example"));
    assert_eq!(s.servers.len(), 2);
    import_community_server(&mut s, &server_item("Leafcull", "new.example"));
    assert_eq!(s.servers.len(), 2);
    assert_eq!(s.servers[1].hostname, "new.example");
    assert_eq!(s.servers[1].port, "9000");
}

#[test]
fn launch_from_main_page() {
    let mut s = AlembicSettings::new();
    assert!(!can_launch(&s));
    let c = launch_choice(&s);
    assert_eq!(check_try_launch(&s, &c, false), Err(LaunchRefusal::NoClient));
    s.add_client(windows_client("c", "p"), true);
    let c = launch_choice(&s);
    assert_eq!(check_try_launch(&s, &c, false), Err(LaunchRefusal::WindowsElsewhere));
    assert_eq!(check_try_launch(&s, &c, true), Err(LaunchRefusal::NoServer));
    server_add(&mut s, "S".to_string(), "h".to_string(), "1".to_string());
    let c = launch_choice(&s);
    assert_eq!(check_try_launch(&s, &c, true), Err(LaunchRefusal::NoAccount));
    assert_eq!(LaunchRefusal::NoAccount.message(), "No account selected.");
    s.accounts.push(Account { server_index: 0, username: "u".to_string(), password: String::new() });
    s.selected_account = Some(0);
    assert!(can_launch(&s));
    let c = launch_choice(&s);
    assert_eq!(check_try_launch(&s, &c, true), Ok(()));
}

#[test]
fn launch_outcome_shown() {
    let mut b = Backend::new();
    apply_launch_result(&mut b, Ok(1234));
    assert_eq!(b.client.as_ref().map(|c| c.pid()), Some(1234));
    assert!(b.is_injected);
    let mut b = Backend::new();
    apply_launch_result(&mut b, Err("no wine".to_string()));
    let m: &AppModal = b.current_modal.as_ref().unwrap();
    assert_eq!(m.title, "Error Launching");
    assert_eq!(
        m.text,
        "The following error was encountered when trying to launch:\n\nno wine\n\nPlease check your settings and try again."
    );
    b.close_modal();
    assert!(b.current_modal.is_none());
}

#[test]
fn cork_launch_checks_paths() {
    let ok = PathCheck { exists: true, is_file: true };
    let missing = PathCheck { exists: false, is_file: false };
    let dir = PathCheck { exists: true, is_file: false };
    let l = launch_client_with_injection("c.exe", "h", "9000", "me", "pw", None, None, ok, missing)
        .unwrap();
    assert_eq!(l.arguments, "-h h -p 9000 -a me -v pw");
    assert!(l.dll.is_none());
    let l = launch_client_with_injection(
        "c.exe", "h", "1", "a", "b", Some("x.dll"), Some("Start"),
        PathCheck { exists: true, is_file: true }, PathCheck { exists: true, is_file: true },
    )
    .unwrap();
    assert_eq!(l.dll, Some(("x.dll".to_string(), Some("Start".to_string()))));
    assert_eq!(
        launch_client_with_injection("c.exe", "h", "1", "a", "b", None, None, missing, ok)
            .unwrap_err(),
        "ERROR: AC client executable not found at path: c.exe\nPlease verify the --client path is correct."
    );
    assert_eq!(
        launch_client_with_injection("c.exe", "h", "1", "a", "b", None, None, dir, ok).unwrap_err(),
        "ERROR: AC client path exists but is not a file: c.exe\nPlease provide a path to acclient.exe"
    );
    assert_eq!(
        launch_client_with_injection(
            "c.exe", "h", "1", "a", "b", Some("x.dll"), None,
            PathCheck { exists: true, is_file: true }, PathCheck { exists: false, is_file: false },
        )
        .unwrap_err(),
        "ERROR: DLL not found at path: x.dll\nPlease verify the --dll path is correct."
    );
    assert_eq!(
        launch_client_with_injection(
            "c.exe", "h", "1", "a", "b", Some("x.dll"), None,
            PathCheck { exists: true, is_file: true }, PathCheck { exists: true, is_file: false },
        )
        .unwrap_err(),
        "ERROR: DLL path exists but is not a file: x.dll\nPlease provide a path to a valid DLL file."
    );
}

#[test]
fn dll_client_loop() {
    let mut c = ClientControl::new();
    assert!(!c.should_stop());
    assert!(shutdown_client(&mut c).is_ok());
    assert!(c.should_stop());
    c.ensure_client();
    assert!(!c.should_stop());
    assert!(matches!(
        client_loop_action(ClientLoopEvent::Received(ClientServerMessage::HandleSendTo(vec![1]))),
        ClientLoopAction::ForwardSendTo(ref v) if v == &vec![1u8]
    ));
    assert!(matches!(
        client_loop_action(ClientLoopEvent::Received(ClientServerMessage::HandleAddTextToScroll(
            "t".to_string()
        ))),
        ClientLoopAction::ForwardChat(ref t) if t == "t"
    ));
    assert!(matches!(client_loop_action(ClientLoopEvent::Empty), ClientLoopAction::Wait));
    assert!(matches!(client_loop_action(ClientLoopEvent::Disconnected), ClientLoopAction::Stop));
}

#[test]
fn dll_lifecycle() {
    let mut d = DllLifecycle::new();
    assert!(!d.begin_shutdown());
    assert!(!d.shutdown_requested);
    assert!(d.needs_startup());
    d.finish_startup();
    assert!(!d.needs_startup());
    assert!(d.begin_shutdown());
    assert!(d.shutdown_requested);
    d.finish_shutdown();
    assert!(!d.is_initialized);
}

#[test]
fn dll_hook_decisions() {
    assert_eq!(hook_bytes_to_copy(12), Some(12));
    assert_eq!(hook_bytes_to_copy(0), None);
    assert_eq!(hook_bytes_to_copy(-1), None);
    assert!(matches!(
        chat_hook_message("  hello \n", true),
        ClientServerMessage::HandleAddTextToScroll(ref t) if t == "hello"
    ));
    assert!(matches!(
        chat_hook_message("  hello", false),
        ClientServerMessage::HandleAddTextToScroll(ref t) if t == "  hello"
    ));
}

#[test]
fn backend_views() {
    let mut b = Backend::new();
    b.handle_message(ClientServerMessage::AppendLog("started".to_string()), 7);
    b.handle_message(ClientServerMessage::HandleAddTextToScroll("hello".to_string()), 8);
    b.handle_message(ClientServerMessage::HandleRecvFrom(vec![1, 2]), 9);
    b.handle_message(ClientServerMessage::HandleRecvFrom(vec![3]), 10);
    assert_eq!(DeveloperLogsTab::lines(&b), vec!["7: started"]);
    assert_eq!(GameChatTab::lines(&b), vec!["[TODO] hello"]);
    assert_eq!(DeveloperNetworkIncomingTab::labels(&b), vec!["9", "10"]);
    let mut t = DeveloperNetworkIncomingTab::default();
    assert_eq!(t.detail(&b), None);
    t.select_packet(1);
    assert_eq!(t.detail(&b).as_deref(), Some("[3]"));
    t.select_packet(2);
    assert_eq!(t.detail(&b).as_deref(), Some("[1, 2]"));
}

#[test]
fn env_rename_onto_existing_name_follows_name_order() {
    let mut s = AlembicSettings::new();
    s.add_client(default_wine_client("w".to_string(), "C:\\w".to_string()), true);
    SettingsClientsTab::set_env_value(&mut s, 0, "A".to_string(), "1".to_string());
    SettingsClientsTab::set_env_value(&mut s, 0, "B".to_string(), "2".to_string());
    assert!(SettingsClientsTab::rename_env_var(&mut s, 0, &"A".to_string(), "B".to_string()));
    match &s.clients[0] {
        ClientConfigType::Wine(w) => {
            assert_eq!(w.launch_command.env.get(&"A".to_string()), None);
            assert_eq!(w.launch_command.env.get(&"B".to_string()).map(|v| v.as_str()), Some("2"));
        }
        _ => panic!("expected a Wine client"),
    }
    SettingsClientsTab::set_env_value(&mut s, 0, "A".to_string(), "1".to_string());
    assert!(SettingsClientsTab::rename_env_var(&mut s, 0, &"B".to_string(), "A".to_string()));
    match &s.clients[0] {
        ClientConfigType::Wine(w) => {
            assert_eq!(w.launch_command.env.get(&"B".to_string()), None);
            assert_eq!(w.launch_command.env.get(&"A".to_string()).map(|v| v.as_str()), Some("2"));
        }
        _ => panic!("expected a Wine client"),
    }
}

#[test]
fn law_poll_from_start_example() {
    let mut s = FetchSchedule::default();
    let mut sent = vec![];
    for i in 0..1000u128 {
        let now = i * 10 * NANOS_PER_SECOND;
        if s.poll(false, now) {
            sent.push(now);
        }
    }
    assert_eq!(sent.len(), 3);
    assert!(sent.windows(2).all(|w| w[0] + 60 * NANOS_PER_SECOND < w[1]));
    assert!(s.num_retry_attempts <= s.max_retry_attempts);
}
