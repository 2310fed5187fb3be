use warpgate_connect::app::{
    App, AppEvent, AppScreen, Command, ConnectionType, Modal, WarpgateSettingsScreenInput,
};
use warpgate_connect::config::AppConfig;
use warpgate_connect::input::TextInput;
use warpgate_connect::keys::{KeyCode, KeyEvent, KeyModifiers};
use warpgate_connect::warpgate::{WarpgateTarget, WarpgateTargetGroup};

fn target(name: &str) -> WarpgateTarget {
    WarpgateTarget {
        description: None,
        group: None,
        kind: "Ssh".to_string(),
        name: name.to_string(),
    }
}

fn grouped_target(name: &str, group: &str) -> WarpgateTarget {
    WarpgateTarget {
        group: Some(WarpgateTargetGroup {
            name: group.to_string(),
            color: None,
        }),
        ..target(name)
    }
}

/// `AppConfig::default()` keeps this away from the real config file on disk.
fn test_app() -> App {
    App::new(AppConfig::default(), true)
}

fn text_of(input: &TextInput) -> String {
    input.text_area.lines().first().cloned().unwrap_or_default()
}

fn set_search_query(app: &mut App, query: &str) {
    app.ui_inputs.search_input.text_area.select_all();
    app.ui_inputs.search_input.text_area.cut();
    app.ui_inputs.search_input.text_area.insert_str(query);
}

fn press(app: &mut App, code: KeyCode, modifiers: KeyModifiers) -> Vec<Command> {
    app.handle_key_global(KeyEvent::new(code, modifiers))
}

/// Guards the regression where narrowing the list left the highlight past its end, so `Enter`
/// resolved to no target yet still advanced to the connection screen.
#[test]
fn narrowing_the_list_keeps_the_highlight_in_range() {
    let mut app = test_app();
    app.warpgate_targets = Ok(vec![target("alpha"), target("beta"), target("gamma")]);

    app.recalculate_filtered_targets();
    app.table_targets_selection_state.selected = Some(2);

    set_search_query(&mut app, "alpha");
    app.recalculate_filtered_targets();

    let selected = app
        .table_targets_selection_state
        .selected
        .expect("a highlight should survive the narrowing");
    assert!(
        app.filtered_targets.get(selected).is_some(),
        "highlight {selected} is outside a list of {}",
        app.filtered_targets.len()
    );
}

#[test]
fn an_empty_result_leaves_nothing_highlighted() {
    let mut app = test_app();
    app.warpgate_targets = Ok(vec![target("alpha")]);

    app.recalculate_filtered_targets();
    assert_eq!(app.table_targets_selection_state.selected, Some(0));

    set_search_query(&mut app, "no-such-target");
    app.recalculate_filtered_targets();

    assert!(app.filtered_targets.is_empty());
    assert_eq!(app.table_targets_selection_state.selected, None);
}

#[test]
fn the_first_target_is_highlighted_once_a_fetch_lands() {
    let mut app = test_app();
    assert_eq!(app.table_targets_selection_state.selected, None);

    app.warpgate_targets = Ok(vec![target("alpha"), target("beta")]);
    app.recalculate_filtered_targets();

    assert_eq!(app.table_targets_selection_state.selected, Some(0));
}

/// Guards the regression where the global shortcuts sat on bare uppercase letters, so a token
/// containing `Q`, `R`, `N` or `U` could not be typed — `Shift+Q` quit the app mid-edit.
#[test]
fn uppercase_letters_reach_the_focused_settings_input() {
    let mut app = test_app();
    app.screen = AppScreen::Settings;
    app.warpgate_selected_input = WarpgateSettingsScreenInput::Token;

    for character in ['Q', 'R', 'N', 'U', 'G'] {
        press(&mut app, KeyCode::Char(character), KeyModifiers::shift());
    }

    assert_eq!(text_of(&app.ui_inputs.warpgate_token_input), "QRNUG");
    assert_eq!(app.screen, AppScreen::Settings);
}

#[test]
fn uppercase_letters_reach_the_search_box() {
    let mut app = test_app();
    app.screen = AppScreen::Targets;

    press(&mut app, KeyCode::Char('G'), KeyModifiers::shift());

    assert_eq!(text_of(&app.ui_inputs.search_input), "G");
    assert!(app.group_filter.is_none(), "Shift+G must not filter groups");
}

#[test]
fn control_chords_are_shortcuts_rather_than_text() {
    let mut app = test_app();
    app.screen = AppScreen::Settings;
    app.warpgate_selected_input = WarpgateSettingsScreenInput::Token;

    let commands = press(&mut app, KeyCode::Char('q'), KeyModifiers::control());

    assert_eq!(
        text_of(&app.ui_inputs.warpgate_token_input),
        "",
        "a Control chord must not be typed into the input"
    );

    let command = commands.first().expect("Ctrl+Q should have queued an event");
    assert!(matches!(command, Command::Send(AppEvent::Quit)));
}

#[test]
fn control_n_cycles_screens() {
    let mut app = test_app();
    app.screen = AppScreen::Targets;

    press(&mut app, KeyCode::Char('n'), KeyModifiers::control());
    assert_eq!(app.screen, AppScreen::Settings);

    press(&mut app, KeyCode::Char('n'), KeyModifiers::control());
    assert_eq!(app.screen, AppScreen::Logs);

    press(&mut app, KeyCode::Char('n'), KeyModifiers::control());
    assert_eq!(app.screen, AppScreen::Targets);
}

/// The settings inputs are walked in the order they are drawn, not in an order written out a
/// second time by hand.
#[test]
fn tab_walks_the_settings_inputs_in_display_order() {
    let mut app = test_app();
    app.screen = AppScreen::Settings;

    let mut visited = vec![app.warpgate_selected_input];
    for _ in 0..4 {
        press(&mut app, KeyCode::Tab, KeyModifiers::none());
        visited.push(app.warpgate_selected_input);
    }

    assert_eq!(
        visited,
        [
            WarpgateSettingsScreenInput::Url,
            WarpgateSettingsScreenInput::Username,
            WarpgateSettingsScreenInput::Token,
            WarpgateSettingsScreenInput::Port,
            WarpgateSettingsScreenInput::Url,
        ]
    );

    press(&mut app, KeyCode::BackTab, KeyModifiers::none());
    assert_eq!(app.warpgate_selected_input, WarpgateSettingsScreenInput::Port);
}

/// The modal is layered over the targets screen, so a key that reaches it must not also land in
/// the search box underneath.
#[test]
fn an_open_modal_takes_the_keys_from_the_screen_beneath_it() {
    let mut app = test_app();
    app.screen = AppScreen::Targets;
    app.modal = Some(Modal::Connect);

    press(&mut app, KeyCode::Char('x'), KeyModifiers::none());
    assert_eq!(
        text_of(&app.ui_inputs.search_input),
        "",
        "a key handled by the modal must not be typed into the search box"
    );

    press(&mut app, KeyCode::Esc, KeyModifiers::none());
    assert!(app.modal.is_none(), "Esc should close the modal");
}

#[test]
fn esc_clears_the_search_on_the_main_screen() {
    let mut app = test_app();
    app.screen = AppScreen::Targets;
    app.warpgate_targets = Ok(vec![target("alpha"), target("beta")]);

    set_search_query(&mut app, "alpha");
    app.recalculate_filtered_targets();
    assert_eq!(app.filtered_targets.len(), 1);

    press(&mut app, KeyCode::Esc, KeyModifiers::none());

    assert_eq!(text_of(&app.ui_inputs.search_input), "");
    assert_eq!(app.filtered_targets.len(), 2);
}

/// The modal decodes its highlighted row back into a `ConnectionType` by index, so this guards the
/// row order against a reordering of the enum.
#[test]
fn the_connect_modal_decodes_the_highlighted_row() {
    let mut app = test_app();
    app.modal = Some(Modal::Connect);

    for (row, expected) in [(0, ConnectionType::Ssh), (1, ConnectionType::Sftp)] {
        app.table_connection_selection_state.selected = Some(row);
        let commands = press(&mut app, KeyCode::Enter, KeyModifiers::none());

        let command = commands.first().expect("Enter should have queued an event");
        assert!(
            matches!(command, Command::Send(AppEvent::ConnectionTypeSelected(got)) if *got == expected),
            "row {row} decoded to {command:?}, expected {expected:?}"
        );
    }
}

/// Guards the whole picker path: the counts it offers, the filter Enter applies, and the
/// highlight clamping that narrowing the list behind it forces.
#[test]
fn the_group_picker_applies_a_filter_and_clamps_the_highlight() {
    let mut app = test_app();
    app.screen = AppScreen::Targets;
    app.warpgate_targets = Ok(vec![
        grouped_target("prod-db", "production"),
        grouped_target("prod-web", "production"),
        grouped_target("staging-db", "staging"),
        target("orphan"),
    ]);
    app.recalculate_filtered_targets();
    app.table_targets_selection_state.selected = Some(3);

    press(&mut app, KeyCode::Char('g'), KeyModifiers::control());
    assert_eq!(app.modal, Some(Modal::GroupPicker));

    let offered: Vec<(Option<&str>, usize)> = app
        .group_picker_rows
        .iter()
        .map(|row| (row.group.as_ref().map(|g| g.name.as_str()), row.count))
        .collect();
    assert_eq!(
        offered,
        [(None, 4), (Some("production"), 2), (Some("staging"), 1),]
    );

    // Typing narrows the rows without leaving the highlight past the end of them.
    press(&mut app, KeyCode::Char('s'), KeyModifiers::none());
    press(&mut app, KeyCode::Char('t'), KeyModifiers::none());
    let selected = app
        .table_group_picker_state
        .selected
        .expect("a row should stay highlighted");
    assert!(selected < app.group_picker_matches.len());

    press(&mut app, KeyCode::Enter, KeyModifiers::none());

    assert!(app.modal.is_none());
    assert_eq!(
        app.group_filter.as_ref().map(|g| g.name.as_str()),
        Some("staging")
    );
    assert_eq!(app.filtered_targets.len(), 1);
    assert_eq!(app.table_targets_selection_state.selected, Some(0));
}

#[test]
fn the_group_picker_can_go_back_to_every_group() {
    let mut app = test_app();
    app.screen = AppScreen::Targets;
    app.warpgate_targets = Ok(vec![
        grouped_target("prod-db", "production"),
        target("orphan"),
    ]);
    app.recalculate_filtered_targets();

    press(&mut app, KeyCode::Char('g'), KeyModifiers::control());
    press(&mut app, KeyCode::Down, KeyModifiers::none());
    press(&mut app, KeyCode::Enter, KeyModifiers::none());
    assert_eq!(
        app.group_filter.as_ref().map(|g| g.name.as_str()),
        Some("production")
    );

    press(&mut app, KeyCode::Char('g'), KeyModifiers::control());
    press(&mut app, KeyCode::Home, KeyModifiers::none());
    press(&mut app, KeyCode::Enter, KeyModifiers::none());

    assert!(
        app.group_filter.is_none(),
        "the `all` row clears the filter"
    );
    assert_eq!(app.filtered_targets.len(), 2);
}

/// The footer advertises F1 on every screen, including the ones whose text fields would swallow a
/// printable key.
#[test]
fn f1_toggles_the_help_overlay_from_anywhere() {
    let mut app = test_app();

    for screen in [AppScreen::Targets, AppScreen::Settings, AppScreen::Logs] {
        app.screen = screen;

        press(&mut app, KeyCode::F(1), KeyModifiers::none());
        assert_eq!(
            app.modal,
            Some(Modal::Help),
            "F1 should open help on {screen:?}"
        );

        press(&mut app, KeyCode::F(1), KeyModifiers::none());
        assert!(app.modal.is_none(), "F1 should close help on {screen:?}");
    }

    press(&mut app, KeyCode::F(1), KeyModifiers::none());
    press(&mut app, KeyCode::Esc, KeyModifiers::none());
    assert!(app.modal.is_none(), "Esc should close help too");
}

#[test]
fn esc_leaves_the_settings_screen() {
    let mut app = test_app();
    app.screen = AppScreen::Settings;

    press(&mut app, KeyCode::Esc, KeyModifiers::none());

    assert_eq!(app.screen, AppScreen::Targets);
}

/// Guards the regression where starting on the settings screen queued no fetch, so reaching the
/// targets screen left it stuck on `loading` with nothing explaining why.
#[test]
fn an_unconfigured_start_still_asks_for_targets() {
    let app = test_app();
    assert_eq!(
        app.screen,
        AppScreen::Settings,
        "an empty config should open the settings screen"
    );

    let events = app.startup_events();
    let event = events.first().expect("startup should have queued an event");

    assert!(matches!(event, AppEvent::RefreshTargets));
}

/// Navigation keys do not re-rank the list, so the clamp they rely on has to hold on its own:
/// `select_last` parks the selection past the end until something pulls it back.
#[test]
fn navigation_keys_keep_the_highlight_inside_the_list() {
    let mut app = test_app();
    app.screen = AppScreen::Targets;
    app.warpgate_targets = Ok(vec![target("alpha"), target("beta"), target("gamma")]);
    app.recalculate_filtered_targets();

    press(&mut app, KeyCode::End, KeyModifiers::none());
    assert_eq!(app.table_targets_selection_state.selected, Some(2));

    for _ in 0..3 {
        press(&mut app, KeyCode::Down, KeyModifiers::none());
    }
    assert_eq!(
        app.table_targets_selection_state.selected,
        Some(2),
        "Down at the bottom must not walk past the last row"
    );

    set_search_query(&mut app, "no-such-target");
    app.recalculate_filtered_targets();
    press(&mut app, KeyCode::Down, KeyModifiers::none());
    assert_eq!(
        app.table_targets_selection_state.selected,
        None,
        "an empty list has nothing to highlight"
    );
}
