use std::path::PathBuf;

use warpgate_connect::app::{
    App, AppEvent, AppInputs, AppScreen, Command, Connection, ConnectionType, InputSlot, Modal, Outcome, Task,
    WarpgateSettingsScreenInput,
};
use warpgate_connect::config::{AppConfig, FetchError, ListError, DEFAULT_WARPGATE_PORT};
use warpgate_connect::filter::filter_targets;
use warpgate_connect::fuzzy::{rank_names, sorted_unique};
use warpgate_connect::groups::{count_groups, count_ssh_targets};
use warpgate_connect::input::{clear_text_area, first_line, trimmed_line};
use warpgate_connect::keys::{KeyCode, KeyEvent, KeyModifiers};
use warpgate_connect::numbers::{parse_u16, u16_to_string, usize_to_string};
use warpgate_connect::screens::{
    check_url_for_known_path, current_status, empty_body, empty_body_top_padding, fitted_width,
    group_color, group_label, group_picker_visible_rows, highlighted_name, needs_scrollbar,
    target_column_widths, target_counter, token_input_is_valid, url_input_is_valid, EmptyBody,
    GroupColor, NameRun, Status, Tone,
};
use warpgate_connect::selection::{clamp_selection, TableSelection};
use warpgate_connect::text::trimmed_text;
use warpgate_connect::update::{check_for_newer_version, release_if_newer};
use warpgate_connect::warpgate::{WarpgateTarget, WarpgateTargetGroup};

fn ssh(name: &str, group: Option<&str>) -> WarpgateTarget {
    WarpgateTarget {
        description: None,
        group: group.map(|g| WarpgateTargetGroup { name: g.to_string(), color: None }),
        kind: "Ssh".to_string(),
        name: name.to_string(),
    }
}

fn http(name: &str) -> WarpgateTarget {
    WarpgateTarget { kind: "Http".to_string(), ..ssh(name, None) }
}

fn configured() -> AppConfig {
    AppConfig {
        warpgate_api_url: Some("https://warpgate.example.com/@warpgate/api/targets".to_string()),
        warpgate_token: Some("secret".to_string()),
        warpgate_username: Some("admin".to_string()),
        warpgate_port: Some(2022),
        path: PathBuf::from("config.toml"),
    }
}

fn key(code: KeyCode) -> KeyEvent {
    KeyEvent::new(code, KeyModifiers::none())
}

fn ctrl(c: char) -> KeyEvent {
    KeyEvent::new(KeyCode::Char(c), KeyModifiers::control())
}

fn text_of(app_input: &warpgate_connect::input::TextInput) -> String {
    first_line(app_input)
}

// ---- ports, both ways ----

#[test]
fn written_ports_read_back() {
    for port in [0u16, 7, 10, 22, 2222, 9999, 10000, 65535] {
        let text = u16_to_string(port);
        assert_eq!(text, port.to_string());
        assert_eq!(parse_u16(&text), Some(port));
    }
}

#[test]
fn ports_parse_as_the_standard_library_does() {
    for text in ["", "+", "+22", "-1", "22a", " 22", "65535", "65536", "0000022", "99999999999", "٣"] {
        assert_eq!(parse_u16(text), text.parse::<u16>().ok(), "parsing {text:?}");
    }
}

// ---- settings ----

#[test]
fn loading_fills_in_the_default_port_and_asks_to_save_when_incomplete() {
    let mut config = AppConfig { warpgate_port: None, ..configured() };
    assert!(!config.settle_loaded());
    assert_eq!(config.warpgate_port, Some(DEFAULT_WARPGATE_PORT));

    let mut config = AppConfig::default();
    assert!(config.settle_loaded());
    assert_eq!(config.warpgate_port, Some(2222));
    assert!(!config.are_all_required_fields_set());
}

#[test]
fn a_fetch_needs_a_url_then_a_usable_token() {
    let request = configured().fetch_request().expect("everything is configured");
    assert_eq!(request.url, "https://warpgate.example.com/@warpgate/api/targets");
    assert_eq!(request.token, "secret");

    let no_url = AppConfig { warpgate_api_url: None, warpgate_token: None, ..configured() };
    assert_eq!(no_url.fetch_request().unwrap_err(), FetchError::MissingUrl);

    let no_token = AppConfig { warpgate_token: None, ..configured() };
    assert_eq!(no_token.fetch_request().unwrap_err(), FetchError::MissingToken);

    let bad_token = AppConfig { warpgate_token: Some("line\nbreak".to_string()), ..configured() };
    assert_eq!(bad_token.fetch_request().unwrap_err(), FetchError::InvalidToken);

    let tab_token = AppConfig { warpgate_token: Some("a\tb é".to_string()), ..configured() };
    assert!(tab_token.fetch_request().is_ok());

    assert_eq!(FetchError::MissingUrl.message(), "Warpgate API URL is not configured");
    assert_eq!(FetchError::MissingToken.message(), "Warpgate token is not configured");
    assert_eq!(
        FetchError::InvalidToken.message(),
        "Warpgate token is not a valid HTTP header value"
    );
}

#[test]
fn a_listing_needs_a_url_a_username_and_a_host() {
    let request = configured().list_request().expect("everything is configured");
    assert_eq!(request.username, "admin");
    assert_eq!(request.host, "warpgate.example.com");
    assert_eq!(request.port, 2022);

    let default_port = AppConfig { warpgate_port: None, ..configured() };
    assert_eq!(default_port.list_request().unwrap().port, 2222);

    let no_url = AppConfig { warpgate_api_url: None, ..configured() };
    assert_eq!(no_url.list_request().unwrap_err(), ListError::MissingUrl);

    let no_user = AppConfig { warpgate_username: None, ..configured() };
    assert_eq!(no_user.list_request().unwrap_err(), ListError::MissingUsername);

    let no_host = AppConfig { warpgate_api_url: Some("warpgate.example.com".to_string()), ..configured() };
    assert_eq!(
        no_host.list_request().unwrap_err(),
        ListError::NoHost("warpgate.example.com".to_string())
    );
}

#[test]
fn trimming_drops_unicode_whitespace_and_blank_values() {
    assert_eq!(trimmed_text("  a b \t"), Some("a b".to_string()));
    assert_eq!(trimmed_text("\u{3000}x\u{a0}"), Some("x".to_string()));
    assert_eq!(trimmed_text(" \n "), None);
    assert_eq!(trimmed_text(""), None);
}

#[test]
fn saving_the_settings_trims_parses_and_goes_back() {
    let mut app = App::new(AppConfig::default(), true);
    assert_eq!(app.screen, AppScreen::Settings);
    app.ui_inputs.warpgate_url_input.text_area.insert_str("  https://host.example/@warpgate/api/targets ");
    app.ui_inputs.warpgate_token_input.text_area.insert_str("tok");
    app.ui_inputs.warpgate_username_input.text_area.insert_str("   ");
    app.ui_inputs.warpgate_port_input.text_area.select_all();
    app.ui_inputs.warpgate_port_input.text_area.cut();
    app.ui_inputs.warpgate_port_input.text_area.insert_str(" 2200 ");

    let commands = app.handle_key_global(key(KeyCode::Enter));

    assert_eq!(commands.len(), 1);
    assert!(matches!(commands[0], Command::SaveConfig));
    assert_eq!(app.screen, AppScreen::Settings, "the screen waits for the save");
    assert_eq!(
        app.config.warpgate_api_url.as_deref(),
        Some("https://host.example/@warpgate/api/targets")
    );
    assert_eq!(app.config.warpgate_token.as_deref(), Some("tok"));
    assert_eq!(app.config.warpgate_username, None);
    assert_eq!(app.config.warpgate_port, Some(2200));
    assert_eq!(app.warpgate_host, "host.example");

    app.loading_targets = false;
    let task = app.handle_app_event(AppEvent::ConfigSaved);
    assert_eq!(app.screen, AppScreen::Targets);
    assert!(app.loading_targets);
    match task {
        Some(Task::FetchTargets(Ok(request))) => {
            assert_eq!(request.url, "https://host.example/@warpgate/api/targets");
            assert_eq!(request.token, "tok");
        },
        other => panic!("expected a fetch with the saved settings, got {other:?}"),
    }
}

#[test]
fn the_token_input_is_masked_from_the_start() {
    let app = App::new(configured(), true);
    assert_eq!(app.ui_inputs.warpgate_token_input.text_area.mask_char(), Some('●'));
    assert_eq!(app.ui_inputs.warpgate_url_input.text_area.mask_char(), None);
    assert_eq!(first_line(&app.ui_inputs.warpgate_token_input), "secret");
}

#[test]
fn alt_with_an_unbound_character_changes_nothing() {
    let mut app = App::new(configured(), true);
    app.handle_key_global(KeyEvent::new(KeyCode::Char('a'), KeyModifiers::none()));
    let alt = KeyModifiers { control: false, shift: false, alt: true };
    app.handle_key_global(KeyEvent::new(KeyCode::Char('x'), alt));
    app.handle_key_global(KeyEvent::new(KeyCode::Left, alt));
    assert_eq!(text_of(&app.ui_inputs.search_input), "a");
    assert_eq!(app.ui_inputs.search_input.text_area.cursor(), (0, 1));
}

#[test]
fn a_port_that_does_not_parse_is_saved_as_none() {
    let mut app = App::new(configured(), true);
    app.screen = AppScreen::Settings;
    app.ui_inputs.warpgate_port_input.text_area.insert_str("x");
    app.handle_key_global(key(KeyCode::Enter));
    assert_eq!(app.config.warpgate_port, None);
}

#[test]
fn esc_on_the_settings_screen_keeps_the_settings() {
    let mut app = App::new(configured(), true);
    app.screen = AppScreen::Settings;
    app.handle_key_global(KeyEvent::new(KeyCode::Char('Z'), KeyModifiers::shift()));
    let commands = app.handle_key_global(key(KeyCode::Esc));
    assert!(commands.is_empty());
    assert_eq!(app.screen, AppScreen::Targets);
    assert_eq!(app.config.warpgate_api_url, configured().warpgate_api_url);
    assert_eq!(text_of(&app.ui_inputs.warpgate_url_input), "Zhttps://warpgate.example.com/@warpgate/api/targets");
}

// ---- the client as it opens ----

#[test]
fn a_configured_client_opens_on_the_targets() {
    let app = App::new(configured(), false);
    assert_eq!(app.screen, AppScreen::Targets);
    assert!(app.running);
    assert!(app.loading_targets);
    assert_eq!(app.warpgate_host, "warpgate.example.com");
    assert_eq!(text_of(&app.ui_inputs.warpgate_port_input), "2022");
    assert_eq!(text_of(&app.ui_inputs.warpgate_username_input), "admin");
    assert_eq!(app.table_connection_selection_state.selected, Some(0));
    let events = app.startup_events();
    assert_eq!(events.len(), 2);
    assert!(matches!(events[0], AppEvent::RefreshTargets));
    assert!(matches!(events[1], AppEvent::CheckForUpdate));
    assert_eq!(app.into_outcome(), Outcome::Quit);
}

#[test]
fn an_unconfigured_client_shows_the_default_port() {
    let app = App::new(AppConfig::default(), true);
    assert_eq!(text_of(&app.ui_inputs.warpgate_port_input), "2222");
    assert_eq!(app.startup_events().len(), 1);
}

// ---- events ----

#[test]
fn a_fetch_is_asked_for_with_the_configured_request() {
    let mut app = App::new(configured(), true);
    app.loading_targets = false;
    let task = app.handle_app_event(AppEvent::RefreshTargets);
    assert!(app.loading_targets);
    match task {
        Some(Task::FetchTargets(Ok(request))) => assert_eq!(request.token, "secret"),
        other => panic!("expected a fetch, got {other:?}"),
    }

    let mut unconfigured = App::new(AppConfig::default(), true);
    let task = unconfigured.handle_app_event(AppEvent::RefreshTargets);
    assert!(matches!(task, Some(Task::FetchTargets(Err(FetchError::MissingUrl)))));
}

#[test]
fn fetched_targets_are_filtered_and_counted() {
    let mut app = App::new(configured(), true);
    let task = app.handle_app_event(AppEvent::TargetsFetched(Ok(vec![
        ssh("alpha", Some("prod")),
        http("panel"),
        ssh("beta", None),
    ])));
    assert!(task.is_none());
    assert!(!app.loading_targets);
    assert_eq!(app.total_ssh_targets, 2);
    assert_eq!(app.filtered_targets.len(), 2);
    assert_eq!(app.table_targets_selection_state.selected, Some(0));

    app.handle_app_event(AppEvent::TargetsFetched(Err("connection refused".to_string())));
    assert!(app.filtered_targets.is_empty());
    assert_eq!(app.total_ssh_targets, 0);
    assert_eq!(app.table_targets_selection_state.selected, None);
    assert_eq!(current_status(&app), Status::Error);
    assert_eq!(empty_body(&app), EmptyBody::FetchFailed("connection refused".to_string()));
}

#[test]
fn a_refetch_keeps_the_group_filter() {
    let mut app = App::new(configured(), true);
    app.group_filter = Some(WarpgateTargetGroup { name: "prod".to_string(), color: None });
    app.handle_app_event(AppEvent::TargetsFetched(Ok(vec![
        ssh("alpha", Some("prod")),
        ssh("beta", Some("dev")),
        ssh("gamma", None),
    ])));
    let names: Vec<&str> = app.filtered_targets.iter().map(|m| m.target.name.as_str()).collect();
    assert_eq!(names, ["alpha"]);
}

#[test]
fn choosing_a_target_opens_the_connect_dialog() {
    let mut app = App::new(configured(), true);
    app.handle_app_event(AppEvent::TargetsFetched(Ok(vec![ssh("alpha", None), ssh("beta", None)])));
    app.table_targets_selection_state.selected = Some(1);
    app.table_connection_selection_state.selected = Some(1);
    let commands = app.handle_key_global(key(KeyCode::Enter));
    assert!(matches!(commands[0], Command::Send(AppEvent::TargetSelected)));
    app.handle_app_event(AppEvent::TargetSelected);
    assert_eq!(app.modal, Some(Modal::Connect));
    assert_eq!(app.selected_target.as_ref().map(|t| t.name.as_str()), Some("beta"));
    assert_eq!(app.table_connection_selection_state.selected, Some(0));

    app.handle_app_event(AppEvent::ConnectionTypeSelected(ConnectionType::Sftp));
    assert!(!app.running);
    match app.into_outcome() {
        Outcome::Connect(connection) => {
            assert_eq!(connection.target_name, "beta");
            assert_eq!(connection.ssh_username, "admin:beta");
            assert_eq!(connection.host, "warpgate.example.com");
            assert_eq!(connection.port, 2022);
            assert_eq!(connection.connection_type, ConnectionType::Sftp);
        },
        other => panic!("expected a connection, got {other:?}"),
    }
}

#[test]
fn choosing_a_target_without_a_highlight_does_nothing() {
    let mut app = App::new(configured(), true);
    app.handle_app_event(AppEvent::TargetSelected);
    assert!(app.modal.is_none());
    assert!(app.selected_target.is_none());
}

#[test]
fn a_connection_needs_the_username_and_host() {
    let mut app = App::new(AppConfig { warpgate_port: None, ..configured() }, true);
    assert_eq!(app.build_outcome(ConnectionType::Ssh), Outcome::Quit);
    app.selected_target = Some(ssh("alpha", None));
    match app.build_outcome(ConnectionType::Ssh) {
        Outcome::Connect(connection) => assert_eq!(connection.port, 2222, "the port defaults to 2222"),
        other => panic!("expected a connection, got {other:?}"),
    }
    app.config.warpgate_port = Some(22);
    assert!(matches!(app.build_outcome(ConnectionType::Ssh), Outcome::Connect(c) if c.port == 22));
    app.config.warpgate_username = None;
    assert_eq!(app.build_outcome(ConnectionType::Ssh), Outcome::MissingConfiguration);
    app.config.warpgate_username = Some("admin".to_string());
    app.config.warpgate_api_url = Some("ftp://host".to_string());
    assert_eq!(app.build_outcome(ConnectionType::Ssh), Outcome::MissingConfiguration);
}

#[test]
fn update_events() {
    let mut app = App::new(configured(), false);
    assert!(matches!(app.handle_app_event(AppEvent::CheckForUpdate), Some(Task::CheckForUpdate)));
    assert!(app.handle_key_global(ctrl('u')).is_empty(), "no update to install yet");
    assert!(app.handle_app_event(AppEvent::UpdateAvailable("9.9.9".to_string())).is_none());
    assert_eq!(app.update_available.as_deref(), Some("9.9.9"));
    let commands = app.handle_key_global(ctrl('U'));
    assert!(matches!(commands[0], Command::Send(AppEvent::TriggerUpdate)));
    app.handle_app_event(AppEvent::TriggerUpdate);
    assert!(!app.running);
    assert_eq!(app.into_outcome(), Outcome::Update);
}

#[test]
fn quit_and_refresh_shortcuts() {
    let mut app = App::new(configured(), true);
    assert!(matches!(app.handle_key_global(ctrl('C'))[0], Command::Send(AppEvent::Quit)));
    assert!(matches!(app.handle_key_global(ctrl('r'))[0], Command::Send(AppEvent::RefreshTargets)));
    assert!(app.handle_app_event(AppEvent::Quit).is_none());
    assert!(!app.running);
}

// ---- keys ----

#[test]
fn tab_and_back_tab_undo_each_other() {
    let mut app = App::new(configured(), true);
    app.screen = AppScreen::Settings;
    for input in WarpgateSettingsScreenInput::all() {
        app.warpgate_selected_input = input;
        app.handle_key_global(key(KeyCode::Tab));
        assert_ne!(app.warpgate_selected_input, input);
        app.handle_key_global(key(KeyCode::BackTab));
        assert_eq!(app.warpgate_selected_input, input);
        app.handle_key_global(key(KeyCode::Down));
        app.handle_key_global(key(KeyCode::Up));
        assert_eq!(app.warpgate_selected_input, input);
    }
}

#[test]
fn the_settings_fields_have_labels_in_display_order() {
    let labels: Vec<&str> = WarpgateSettingsScreenInput::all().into_iter().map(|i| i.label()).collect();
    assert_eq!(labels, ["URL", "Username", "Token", "Port"]);
    for (index, input) in WarpgateSettingsScreenInput::all().into_iter().enumerate() {
        assert_eq!(input.index(), index);
        assert_eq!(WarpgateSettingsScreenInput::from_index(index), input);
    }
    let app = App::new(configured(), true);
    assert_eq!(
        first_line(app.get_warpgate_input_by_enum(WarpgateSettingsScreenInput::Username)),
        "admin"
    );
}

#[test]
fn connection_types_follow_the_dialog_rows() {
    assert_eq!(ConnectionType::from_row(0), Some(ConnectionType::Ssh));
    assert_eq!(ConnectionType::from_row(1), Some(ConnectionType::Sftp));
    assert_eq!(ConnectionType::from_row(2), None);
    assert_eq!(ConnectionType::Ssh.name(), "SSH");
    assert_eq!(ConnectionType::Sftp.name(), "SFTP");
    assert!(!ConnectionType::Ssh.description().is_empty());
}

#[test]
fn a_dialog_row_past_the_types_sends_nothing() {
    let mut app = App::new(configured(), true);
    app.modal = Some(Modal::Connect);
    app.table_connection_selection_state.selected = Some(5);
    assert!(app.handle_key_global(key(KeyCode::Enter)).is_empty());
}

#[test]
fn control_chords_leave_the_search_alone() {
    let mut app = App::new(configured(), true);
    app.handle_key_global(KeyEvent::new(KeyCode::Char('a'), KeyModifiers::none()));
    app.handle_key_global(ctrl('x'));
    app.handle_key_global(ctrl('n'));
    app.handle_key_global(ctrl('n'));
    app.handle_key_global(ctrl('n'));
    assert_eq!(app.screen, AppScreen::Targets);
    assert_eq!(text_of(&app.ui_inputs.search_input), "a");
}

#[test]
fn backspace_after_control_a_empties_the_search() {
    let mut app = App::new(configured(), true);
    for c in ['a', 'b'] {
        app.handle_key_global(KeyEvent::new(KeyCode::Char(c), KeyModifiers::none()));
    }
    app.handle_key_global(ctrl('a'));
    assert_eq!(text_of(&app.ui_inputs.search_input), "ab");
    app.handle_key_global(key(KeyCode::Backspace));
    assert_eq!(text_of(&app.ui_inputs.search_input), "");
}

#[test]
fn arrows_and_backspace_edit_the_search() {
    let mut app = App::new(configured(), true);
    for c in ['a', 'c'] {
        app.handle_key_global(KeyEvent::new(KeyCode::Char(c), KeyModifiers::none()));
    }
    app.handle_key_global(key(KeyCode::Left));
    app.handle_key_global(KeyEvent::new(KeyCode::Char('b'), KeyModifiers::none()));
    assert_eq!(text_of(&app.ui_inputs.search_input), "abc");
    app.handle_key_global(key(KeyCode::Right));
    app.handle_key_global(key(KeyCode::Backspace));
    assert_eq!(text_of(&app.ui_inputs.search_input), "ab");
}

#[test]
fn the_help_dialog_takes_the_keys() {
    let mut app = App::new(configured(), true);
    app.handle_key_global(key(KeyCode::F(1)));
    app.handle_key_global(KeyEvent::new(KeyCode::Char('x'), KeyModifiers::none()));
    app.handle_key_global(ctrl('n'));
    assert_eq!(app.screen, AppScreen::Targets, "Ctrl+N waits for the dialog to close");
    assert_eq!(text_of(&app.ui_inputs.search_input), "");
    app.handle_key_global(key(KeyCode::Esc));
    assert!(app.modal.is_none());
}

#[test]
fn esc_closes_the_group_picker_without_choosing() {
    let mut app = App::new(configured(), true);
    app.handle_app_event(AppEvent::TargetsFetched(Ok(vec![ssh("a", Some("g"))])));
    app.handle_key_global(ctrl('g'));
    assert_eq!(app.modal, Some(Modal::GroupPicker));
    app.handle_key_global(key(KeyCode::Down));
    app.handle_key_global(key(KeyCode::Esc));
    assert!(app.modal.is_none());
    assert!(app.group_filter.is_none());
}

#[test]
fn reopening_the_picker_highlights_the_current_group() {
    let mut app = App::new(configured(), true);
    app.handle_app_event(AppEvent::TargetsFetched(Ok(vec![
        ssh("a", Some("beta")),
        ssh("b", Some("alpha")),
    ])));
    app.handle_key_global(ctrl('g'));
    let names: Vec<Option<&str>> =
        app.group_picker_rows.iter().map(|r| r.group.as_ref().map(|g| g.name.as_str())).collect();
    assert_eq!(names, [None, Some("alpha"), Some("beta")]);
    assert_eq!(app.table_group_picker_state.selected, Some(0));
    app.handle_key_global(key(KeyCode::End));
    app.handle_key_global(key(KeyCode::Enter));
    assert_eq!(app.group_filter.as_ref().map(|g| g.name.as_str()), Some("beta"));

    app.handle_key_global(ctrl('g'));
    assert_eq!(app.table_group_picker_state.selected, Some(2));
    assert_eq!(first_line(&app.ui_inputs.group_picker_input), "");
}

#[test]
fn the_focused_input_follows_the_screen_and_the_picker() {
    let mut app = App::new(configured(), true);
    assert_eq!(app.focused_input(), Some(InputSlot::Search));
    app.screen = AppScreen::Settings;
    app.warpgate_selected_input = WarpgateSettingsScreenInput::Port;
    assert_eq!(app.focused_input(), Some(InputSlot::Port));
    app.screen = AppScreen::Logs;
    assert_eq!(app.focused_input(), None);
    app.modal = Some(Modal::GroupPicker);
    assert_eq!(app.focused_input(), Some(InputSlot::GroupPicker));
}

// ---- highlights and selection ----

#[test]
fn clamping_a_highlight() {
    let mut state = TableSelection::new();
    clamp_selection(&mut state, 3);
    assert_eq!(state.selected, Some(0));
    state.selected = Some(7);
    clamp_selection(&mut state, 3);
    assert_eq!(state.selected, Some(2));
    clamp_selection(&mut state, 3);
    assert_eq!(state.selected, Some(2), "clamping twice changes nothing");
    clamp_selection(&mut state, 0);
    assert_eq!(state.selected, None);
    assert_eq!(state.offset, 0);
}

#[test]
fn the_connect_dialog_moves_its_highlight_as_the_table_state_does() {
    let mut app = App::new(configured(), true);
    app.modal = Some(Modal::Connect);
    app.table_connection_selection_state = TableSelection::new();
    app.handle_key_global(key(KeyCode::Down));
    assert_eq!(app.table_connection_selection_state.selected, Some(0));
    app.handle_key_global(key(KeyCode::Down));
    assert_eq!(app.table_connection_selection_state.selected, Some(1));
    app.handle_key_global(key(KeyCode::Up));
    app.handle_key_global(key(KeyCode::Up));
    assert_eq!(app.table_connection_selection_state.selected, Some(0));
    // The dialog's rows are fixed, so nothing pulls these back into range.
    app.handle_key_global(key(KeyCode::End));
    assert_eq!(app.table_connection_selection_state.selected, Some(usize::MAX));
    app.handle_key_global(key(KeyCode::Down));
    assert_eq!(app.table_connection_selection_state.selected, Some(usize::MAX));
    app.handle_key_global(key(KeyCode::Home));
    assert_eq!(app.table_connection_selection_state.selected, Some(0));
    app.table_connection_selection_state = TableSelection::new();
    app.handle_key_global(key(KeyCode::Up));
    assert_eq!(app.table_connection_selection_state.selected, Some(usize::MAX));
}

// ---- ranking ----

#[test]
fn rank_names_keeps_the_matching_names() {
    let names = vec!["alpha".to_string(), "beta".to_string(), "gamma".to_string()];
    assert_eq!(rank_names(&names, "bet"), [1]);
    assert_eq!(rank_names(&names, ""), [0, 1, 2]);
    assert!(rank_names(&names, "zzz").is_empty());
}

#[test]
fn matched_positions_count_characters() {
    let targets = vec![ssh("züri-db", None)];
    let filtered = filter_targets(&targets, None, "db");
    assert_eq!(filtered[0].name_indices, [5, 6]);
}

#[test]
fn sorted_unique_sorts_and_drops_repeats() {
    assert_eq!(sorted_unique(&vec![5, 1, 5, 3, 1]), [1, 3, 5]);
    assert!(sorted_unique(&vec![]).is_empty());
}

#[test]
fn groups_are_counted_by_name_in_name_order() {
    let targets = vec![
        ssh("a", Some("web")),
        ssh("b", Some("db")),
        ssh("c", Some("web")),
        http("d"),
        ssh("e", None),
        WarpgateTarget { kind: "Http".to_string(), ..ssh("f", Some("mail")) },
    ];
    assert_eq!(count_ssh_targets(&targets), 4);
    let rows: Vec<(String, usize)> = count_groups(&targets)
        .into_iter()
        .map(|r| (r.group.unwrap().name, r.count))
        .collect();
    assert_eq!(rows, [("db".to_string(), 1), ("web".to_string(), 2)]);
}

// ---- what the screens show ----

#[test]
fn status_follows_the_fetch() {
    let mut app = App::new(configured(), true);
    assert_eq!(current_status(&app), Status::Loading);
    assert_eq!(empty_body(&app), EmptyBody::Loading);
    app.handle_app_event(AppEvent::TargetsFetched(Ok(vec![ssh("a", None)])));
    assert_eq!(current_status(&app), Status::Ready);
    app.handle_app_event(AppEvent::RefreshTargets);
    assert_eq!(current_status(&app), Status::Refreshing);
    assert!(current_status(&app).is_busy());
    assert_eq!(Status::Refreshing.label(), "refreshing");
    assert_eq!(Status::Loading.tone(), Tone::Warning);
    assert_eq!(Status::Ready.tone(), Tone::Success);
    assert_eq!(Status::Error.tone(), Tone::Failure);
    assert!(!Status::Ready.is_busy());
}

#[test]
fn the_empty_table_explains_itself() {
    let mut app = App::new(configured(), true);
    app.handle_app_event(AppEvent::TargetsFetched(Ok(vec![])));
    assert_eq!(empty_body(&app), EmptyBody::NoTargets { group: None });
    app.handle_key_global(KeyEvent::new(KeyCode::Char('q'), KeyModifiers::none()));
    assert_eq!(empty_body(&app), EmptyBody::NoMatch { query: "q".to_string(), group: None });
    let group = WarpgateTargetGroup { name: "prod".to_string(), color: Some("Danger".to_string()) };
    app.group_filter = Some(group.clone());
    assert_eq!(
        empty_body(&app),
        EmptyBody::NoMatch { query: "q".to_string(), group: Some(group) }
    );
}

#[test]
fn the_empty_body_is_centred_on_its_wrapped_height() {
    // Three lines of 10, 0 and 25 columns in an area 10 wide take 1 + 1 + 3 rows.
    assert_eq!(empty_body_top_padding(&vec![10, 0, 25], 10, 11), 3);
    assert_eq!(empty_body_top_padding(&vec![10, 0, 25], 10, 5), 0);
    assert_eq!(empty_body_top_padding(&vec![10, 0, 25], 10, 4), 0);
    // A zero-width area counts as one column wide.
    assert_eq!(empty_body_top_padding(&vec![3], 0, 9), 3);
    assert_eq!(empty_body_top_padding(&vec![], 80, 7), 3);
    assert_eq!(empty_body_top_padding(&vec![usize::MAX, usize::MAX], 1, u16::MAX), 0);
}

#[test]
fn layout_helpers() {
    assert!(needs_scrollbar(5, 5));
    assert!(!needs_scrollbar(4, 5));
    assert!(needs_scrollbar(1, 0));
    assert!(!needs_scrollbar(0, 0));
    assert_eq!(fitted_width(12, 80), 12);
    assert_eq!(fitted_width(120, 80), 80);
    assert_eq!(fitted_width(usize::MAX, u16::MAX), u16::MAX);
}

#[test]
fn the_prompt_names_the_group_and_counts_the_targets() {
    assert_eq!(group_label(&None), "all");
    let group = WarpgateTargetGroup { name: "prod".to_string(), color: None };
    assert_eq!(group_label(&Some(group)), "prod");
    assert_eq!(target_counter(3, 12), "3/12");
    assert_eq!(target_counter(0, 0), "0/0");
    assert_eq!(usize_to_string(usize::MAX), usize::MAX.to_string());
}

#[test]
fn the_session_command_line() {
    let connection = Connection {
        target_name: "prod-db".to_string(),
        connection_type: ConnectionType::Ssh,
        ssh_username: "admin:prod-db".to_string(),
        host: "warpgate.example.com".to_string(),
        port: 2222,
    };
    let (program, arguments) = connection.command_line();
    assert_eq!(program, "ssh");
    assert_eq!(arguments, ["-p", "2222", "-o", "User=admin:prod-db", "warpgate.example.com"]);

    let sftp = Connection { connection_type: ConnectionType::Sftp, ..connection };
    let (program, arguments) = sftp.command_line();
    assert_eq!(program, "sftp");
    assert_eq!(arguments[0], "-P");
}

#[test]
fn list_errors_name_what_is_missing() {
    assert_eq!(
        ListError::MissingUrl.message("/etc/c.toml"),
        "Warpgate API URL is not configured in /etc/c.toml"
    );
    assert_eq!(
        ListError::MissingUsername.message("c.toml"),
        "Warpgate username is not configured in c.toml"
    );
    assert_eq!(
        ListError::NoHost("ftp://x".to_string()).message("c.toml"),
        "Could not derive a hostname from ftp://x"
    );
}

#[test]
fn group_colours() {
    assert_eq!(group_color(Some("Primary")), GroupColor::Blue);
    assert_eq!(group_color(Some("Danger")), GroupColor::Red);
    assert_eq!(group_color(Some("Warning")), GroupColor::Yellow);
    assert_eq!(group_color(Some("Success")), GroupColor::Green);
    assert_eq!(group_color(Some("danger")), GroupColor::Gray);
    assert_eq!(group_color(None), GroupColor::Gray);
}

#[test]
fn the_url_check_warns_about_the_dashboard_url() {
    assert_eq!(check_url_for_known_path(" https://h/@warpgate/api/targets  "), None);
    assert_eq!(
        check_url_for_known_path("https://h/@warpgate"),
        Some("! should end with /@warpgate/api/targets".to_string())
    );
    assert!(url_input_is_valid(" https://h"));
    assert!(url_input_is_valid("http://h"));
    assert!(!url_input_is_valid("ftp://h"));
    assert!(!url_input_is_valid("   "));
    assert!(token_input_is_valid(" t "));
    assert!(!token_input_is_valid(" \t "));
}

#[test]
fn highlighted_names_split_into_runs() {
    let runs = highlighted_name("prod-db", &vec![0, 1, 5]);
    assert_eq!(
        runs,
        [
            NameRun { text: "pr".to_string(), matched: true },
            NameRun { text: "od-".to_string(), matched: false },
            NameRun { text: "d".to_string(), matched: true },
            NameRun { text: "b".to_string(), matched: false },
        ]
    );
    assert_eq!(
        highlighted_name("züri", &vec![]),
        [NameRun { text: "züri".to_string(), matched: false }]
    );
    assert_eq!(
        highlighted_name("zü", &vec![1]),
        [
            NameRun { text: "z".to_string(), matched: false },
            NameRun { text: "ü".to_string(), matched: true },
        ]
    );
}

#[test]
fn column_widths_fit_the_longest_entry() {
    let mut app = App::new(configured(), true);
    assert_eq!(target_column_widths(&app.filtered_targets), (4, 6));
    app.handle_app_event(AppEvent::TargetsFetched(Ok(vec![
        ssh("a", Some("production")),
        ssh("longer-name", None),
    ])));
    assert_eq!(target_column_widths(&app.filtered_targets), (13, 12));
}

#[test]
fn the_group_picker_shows_one_to_eight_rows() {
    assert_eq!(group_picker_visible_rows(0), 1);
    assert_eq!(group_picker_visible_rows(3), 3);
    assert_eq!(group_picker_visible_rows(8), 8);
    assert_eq!(group_picker_visible_rows(9), 8);
    assert_eq!(group_picker_visible_rows(usize::MAX), 8);
}

// ---- text inputs ----

#[test]
fn text_inputs_start_with_their_value_and_clear_to_nothing() {
    let mut inputs = AppInputs::new("hello", "token", "user", "22");
    assert_eq!(first_line(&inputs.warpgate_url_input), "hello");
    assert_eq!(first_line(&inputs.warpgate_port_input), "22");
    assert_eq!(first_line(&inputs.search_input), "");
    assert_eq!(trimmed_line(&inputs.warpgate_token_input), Some("token".to_string()));
    clear_text_area(&mut inputs.warpgate_url_input);
    assert_eq!(first_line(&inputs.warpgate_url_input), "");
    assert_eq!(trimmed_line(&inputs.warpgate_url_input), None);
}

// ---- updates ----

#[test]
fn only_a_greater_release_is_offered() {
    assert_eq!(check_for_newer_version("1.0.0", Some("1.1.0".to_string())), Some("1.1.0".to_string()));
    assert_eq!(check_for_newer_version("1.2.3", Some("1.2.3".to_string())), None);
    assert_eq!(check_for_newer_version("1.2.3", Some("1.2.2".to_string())), None);
    assert_eq!(check_for_newer_version("1.2.3", Some("not a version".to_string())), None);
    assert_eq!(check_for_newer_version("1.2.3", None), None);
    assert_eq!(release_if_newer(Some(true), "2.0.0".to_string()), Some("2.0.0".to_string()));
    assert_eq!(release_if_newer(Some(false), "2.0.0".to_string()), None);
    assert_eq!(release_if_newer(None, "2.0.0".to_string()), None);
}

#[test]
fn only_ssh_targets_can_be_chosen_for_connecting() {
    let mut app = App::new(configured(), true);
    app.handle_app_event(AppEvent::TargetsFetched(Ok(vec![http("panel"), ssh("box", None)])));
    assert_eq!(app.filtered_targets.len(), 1);
    app.handle_key_global(key(KeyCode::End));
    app.handle_app_event(AppEvent::TargetSelected);
    assert_eq!(app.selected_target.as_ref().map(|t| t.name.as_str()), Some("box"));
    assert!(app.selected_target.as_ref().unwrap().is_ssh());
}

#[test]
fn a_character_typed_over_select_all_replaces_the_text() {
    let mut app = App::new(configured(), true);
    app.screen = AppScreen::Settings;
    app.handle_key_global(ctrl('a'));
    app.handle_key_global(KeyEvent::new(KeyCode::Char('x'), KeyModifiers::none()));
    assert_eq!(text_of(&app.ui_inputs.warpgate_url_input), "x");
    app.handle_key_global(ctrl('a'));
    app.handle_key_global(key(KeyCode::Backspace));
    assert_eq!(text_of(&app.ui_inputs.warpgate_url_input), "");
}

#[test]
fn a_name_whose_graphemes_start_ascii_is_matched_by_byte() {
    // "e" followed by a combining acute accent: every grapheme starts with an ASCII character, so
    // the matcher reads the name's bytes and the position of "x" is its byte offset.
    let targets = vec![ssh("e\u{301}x", None)];
    let filtered = filter_targets(&targets, None, "x");
    assert_eq!(filtered[0].name_indices, [3]);
    assert_eq!("e\u{301}x".chars().count(), 3);
}

#[test]
fn keys_leave_the_chosen_target_alone() {
    let mut app = App::new(configured(), true);
    app.handle_app_event(AppEvent::TargetsFetched(Ok(vec![ssh("alpha", None), ssh("beta", None)])));
    app.handle_app_event(AppEvent::TargetSelected);
    assert_eq!(app.selected_target.as_ref().map(|t| t.name.as_str()), Some("alpha"));
    for event in [key(KeyCode::Down), key(KeyCode::Esc), key(KeyCode::Down), ctrl('g'), key(KeyCode::Esc)] {
        app.handle_key_global(event);
    }
    assert_eq!(app.selected_target.as_ref().map(|t| t.name.as_str()), Some("alpha"));
}

#[test]
fn shift_arrows_select_and_typing_replaces_the_selection() {
    let mut app = App::new(configured(), true);
    for c in ['a', 'b', 'c'] {
        app.handle_key_global(KeyEvent::new(KeyCode::Char(c), KeyModifiers::none()));
    }
    let shift_left = KeyEvent::new(KeyCode::Left, KeyModifiers::shift());
    app.handle_key_global(shift_left);
    app.handle_key_global(shift_left);
    assert_eq!(app.ui_inputs.search_input.text_area.cursor(), (0, 1));
    app.handle_key_global(KeyEvent::new(KeyCode::Char('X'), KeyModifiers::none()));
    assert_eq!(text_of(&app.ui_inputs.search_input), "aX");
    assert_eq!(app.ui_inputs.search_input.text_area.cursor(), (0, 2));
}

#[test]
fn arrows_move_the_cursor_one_step_and_stop_at_the_ends() {
    let mut app = App::new(configured(), true);
    for c in ['a', 'b'] {
        app.handle_key_global(KeyEvent::new(KeyCode::Char(c), KeyModifiers::none()));
    }
    app.handle_key_global(key(KeyCode::Right));
    assert_eq!(app.ui_inputs.search_input.text_area.cursor(), (0, 2));
    app.handle_key_global(key(KeyCode::Left));
    assert_eq!(app.ui_inputs.search_input.text_area.cursor(), (0, 1));
    app.handle_key_global(key(KeyCode::Left));
    app.handle_key_global(key(KeyCode::Left));
    assert_eq!(app.ui_inputs.search_input.text_area.cursor(), (0, 0));
    let shift_right = KeyEvent::new(KeyCode::Right, KeyModifiers::shift());
    app.handle_key_global(shift_right);
    app.handle_key_global(key(KeyCode::Backspace));
    assert_eq!(text_of(&app.ui_inputs.search_input), "b");
}

#[test]
fn highlighted_names_accept_repeated_positions() {
    assert_eq!(
        highlighted_name("ab", &vec![1, 1]),
        [
            NameRun { text: "a".to_string(), matched: false },
            NameRun { text: "b".to_string(), matched: true },
        ]
    );
}

#[test]
fn equally_good_matches_keep_their_order() {
    let names = vec!["ab".to_string(), "zz".to_string(), "ab".to_string()];
    assert_eq!(rank_names(&names, "ab"), [0, 2]);
}

#[test]
fn a_name_starting_with_a_non_ascii_character_is_matched_by_character() {
    let targets = vec![ssh("édb", None)];
    let filtered = filter_targets(&targets, None, "db");
    assert_eq!(filtered[0].name_indices, [1, 2]);
}
