//! What holds of the client across key presses and events, stated over the contracts of
//! `App::handle_key_global` and `App::handle_app_event`.
use vstd::prelude::*;
use crate::app::{
    app_event_spec, cycled_input, filtered_recalculated, first_position, focused_slot,
    global_key_spec, input_at, search_query, targets_or_empty, App, AppEvent, AppScreen, Command,
    InputSlot, Modal, Task, WarpgateSettingsScreenInput,
};
use crate::filter::{candidates, group_name_of, is_candidate, lemma_candidates_admitted, lemma_candidates_from};
use crate::input::{text_area_lines, text_input_effect, EditKey};
use crate::list::{listing_header, render_spec, rows_spec};
use crate::warpgate::{is_ssh_spec, WarpgateTarget};
use crate::keys::{KeyCode, KeyEvent};
use crate::numbers::{all_digits, decimal_spec, digit_char, digit_value, digits_value, parse_u16_spec};
use crate::selection::{clamp_spec, TableSelection};
use crate::config::AppConfig;
use crate::filter::is_filter_result;
use crate::groups::{count_named, count_ssh, ssh_groups};
use crate::input::first_line_spec;
use crate::text::{trim_end_spec, trim_spec, trim_start_spec, unicode_white_space};
use crate::warpgate::{opt_or_empty, opt_view};

verus! {

/// The highlight fits a list of `len` rows: nothing is highlighted in an empty list, and
/// otherwise one of its rows is.
pub open spec fn highlight_in_range(s: TableSelection, len: usize) -> bool {
    &&& (len == 0 <==> s.selected is None)
    &&& (s.selected matches Some(i) ==> i < len)
}

/// The target list's highlight fits the list.
pub open spec fn target_highlight_ok(a: App) -> bool {
    highlight_in_range(a.table_targets_selection_state, a.filtered_targets.len())
}

/// Keeping a highlight inside a list twice changes nothing the first time did not.
pub proof fn clamping_twice_is_clamping_once(selected: Option<usize>, len: usize)
    ensures
        clamp_spec(clamp_spec(selected, len), len) == clamp_spec(selected, len),
{
}

/// After the targets are filtered anew, the highlight fits the new list: nothing is
/// highlighted when nothing matched, a highlight past the end moves to the last row, and the
/// first row is highlighted where nothing was.
pub proof fn refiltering_keeps_the_highlight_in_range(before: App, after: App)
    requires
        filtered_recalculated(before, after),
    ensures
        target_highlight_ok(after),
        before.table_targets_selection_state.selected is None && after.filtered_targets.len() > 0
            ==> after.table_targets_selection_state.selected == Some(0usize),
        before.table_targets_selection_state.selected is Some
            && before.table_targets_selection_state.selected.unwrap() < after.filtered_targets.len()
            ==> after.table_targets_selection_state.selected == before.table_targets_selection_state.selected,
        before.table_targets_selection_state.selected is Some
            && before.table_targets_selection_state.selected.unwrap() >= after.filtered_targets.len()
            && after.filtered_targets.len() > 0
            ==> after.table_targets_selection_state.selected == Some((after.filtered_targets.len() - 1) as usize),
{
}

/// Whatever key is pressed, a target highlight that fits the list still fits it afterwards.
#[verifier::rlimit(40)]
pub proof fn keys_keep_the_target_highlight_in_range(a: App, b: App, key: KeyEvent, cmds: Seq<Command>)
    requires
        global_key_spec(a, b, key, cmds),
        target_highlight_ok(a),
    ensures
        target_highlight_ok(b),
{
}

/// Whatever event arrives, a target highlight that fits the list still fits it afterwards.
pub proof fn events_keep_the_target_highlight_in_range(a: App, b: App, event: AppEvent, task: Option<Task>)
    requires
        app_event_spec(a, b, event, task),
        target_highlight_ok(a),
    ensures
        target_highlight_ok(b),
{
}

/// `Ctrl+N`, pressed three times with no dialog open, comes back to the screen it started on
/// and leaves everything else as it was.
pub proof fn control_n_three_times_comes_back(
    a: App,
    b: App,
    c: App,
    d: App,
    key: KeyEvent,
    cmds1: Seq<Command>,
    cmds2: Seq<Command>,
    cmds3: Seq<Command>,
)
    requires
        key.code == KeyCode::Char('n') || key.code == KeyCode::Char('N'),
        key.modifiers.control,
        a.modal is None,
        global_key_spec(a, b, key, cmds1),
        global_key_spec(b, c, key, cmds2),
        global_key_spec(c, d, key, cmds3),
    ensures
        b.screen != a.screen,
        c.screen != a.screen,
        d == a,
        cmds1.len() == 0 && cmds2.len() == 0 && cmds3.len() == 0,
{
}

/// On the settings screen, `Tab` and then `Shift+Tab` (or `Down` and then `Up`) come back to the
/// field they started on.
pub proof fn tab_then_back_tab_comes_back(
    a: App,
    b: App,
    c: App,
    forward: KeyEvent,
    backward: KeyEvent,
    cmds1: Seq<Command>,
    cmds2: Seq<Command>,
)
    requires
        a.screen == AppScreen::Settings,
        a.modal is None,
        forward.code == KeyCode::Tab || forward.code == KeyCode::Down,
        backward.code == KeyCode::BackTab || backward.code == KeyCode::Up,
        global_key_spec(a, b, forward, cmds1),
        global_key_spec(b, c, backward, cmds2),
    ensures
        b.warpgate_selected_input != a.warpgate_selected_input,
        c == a,
{
}

/// Walking the settings fields forward visits each of the four once and comes back after four
/// steps; backward undoes forward.
pub proof fn the_settings_fields_go_round(input: WarpgateSettingsScreenInput)
    ensures
        cycled_input(cycled_input(cycled_input(cycled_input(input, true), true), true), true) == input,
        cycled_input(cycled_input(input, true), false) == input,
        cycled_input(cycled_input(input, false), true) == input,
        cycled_input(input, true) != input,
{
}

/// `F1` opens the key reference and `F1` again closes it, on any screen, leaving everything
/// else as it was.
pub proof fn f1_twice_comes_back(
    a: App,
    b: App,
    c: App,
    key: KeyEvent,
    cmds1: Seq<Command>,
    cmds2: Seq<Command>,
)
    requires
        key.code == KeyCode::F(1),
        a.modal is None,
        global_key_spec(a, b, key, cmds1),
        global_key_spec(b, c, key, cmds2),
    ensures
        b.modal == Some(Modal::Help),
        c == a,
{
}

/// `Esc` closes whatever dialog is open, and does nothing else.
pub proof fn esc_closes_the_dialog(a: App, b: App, key: KeyEvent, cmds: Seq<Command>)
    requires
        key.code == KeyCode::Esc,
        a.modal is Some,
        global_key_spec(a, b, key, cmds),
    ensures
        b == (App { modal: None, ..a }),
        cmds.len() == 0,
{
}

/// `Esc` on the settings screen goes back to the targets without saving: the settings, and
/// what was typed, stay as they were.
pub proof fn esc_leaves_the_settings_unsaved(a: App, b: App, key: KeyEvent, cmds: Seq<Command>)
    requires
        key.code == KeyCode::Esc,
        a.modal is None,
        a.screen == AppScreen::Settings,
        global_key_spec(a, b, key, cmds),
    ensures
        b == (App { screen: AppScreen::Targets, ..a }),
        cmds.len() == 0,
{
}

/// A key held with Control is a shortcut, never text: the focused input's text is the same
/// afterwards.
#[verifier::rlimit(40)]
pub proof fn control_chords_are_not_text(
    a: App,
    b: App,
    key: KeyEvent,
    cmds: Seq<Command>,
    slot: InputSlot,
    c: char,
)
    requires
        key.code == KeyCode::Char(c),
        key.modifiers.control,
        focused_slot(a) == Some(slot),
        global_key_spec(a, b, key, cmds),
    ensures
        text_area_lines(input_at(b, slot)) == text_area_lines(input_at(a, slot)),
{
}

/// A character typed without Control, upper case included, goes to the focused input, where no
/// dialog other than the group picker is open; it never changes the group filter.
#[verifier::rlimit(40)]
pub proof fn typed_characters_reach_the_focused_input(
    a: App,
    b: App,
    key: KeyEvent,
    cmds: Seq<Command>,
    slot: InputSlot,
    c: char,
)
    requires
        key.code == KeyCode::Char(c),
        !key.modifiers.control,
        a.modal is None || a.modal == Some(Modal::GroupPicker),
        focused_slot(a) == Some(slot),
        global_key_spec(a, b, key, cmds),
    ensures
        text_input_effect(input_at(a, slot), input_at(b, slot), EditKey::Char(c), false, key.modifiers.alt, key.modifiers.shift),
        b.group_filter == a.group_filter,
        b.screen == a.screen,
        cmds.len() == 0,
{
}

/// While a dialog is open it takes the keys: a key without Control, other than `F1`, neither
/// changes the screen beneath nor reaches its search input.
#[verifier::rlimit(40)]
pub proof fn an_open_dialog_takes_the_keys(a: App, b: App, key: KeyEvent, cmds: Seq<Command>)
    requires
        a.modal is Some,
        !key.modifiers.control,
        key.code != KeyCode::F(1),
        global_key_spec(a, b, key, cmds),
    ensures
        b.screen == a.screen,
        b.ui_inputs.search_input == a.ui_inputs.search_input,
{
}

/// Every listed target is one of the fetched targets, reachable over SSH, and in the group the
/// filter names.
pub open spec fn listing_ok(a: App) -> bool {
    forall|k: int| 0 <= k < a.filtered_targets@.len() ==> {
        &&& is_candidate(#[trigger] a.filtered_targets@[k].target, group_name_of(a.group_filter))
        &&& targets_or_empty(a.warpgate_targets).contains(a.filtered_targets@[k].target)
    }
}

/// Filtering anew lists only fetched SSH targets of the filter's group.
pub proof fn refiltering_lists_only_ssh_targets_of_the_group(before: App, after: App)
    requires
        filtered_recalculated(before, after),
    ensures
        listing_ok(after),
{
    let ts = targets_or_empty(before.warpgate_targets);
    let g = group_name_of(before.group_filter);
    lemma_candidates_admitted(ts, g);
    lemma_candidates_from(ts, g);
    assert forall|k: int| 0 <= k < after.filtered_targets@.len()
        implies is_candidate(#[trigger] after.filtered_targets@[k].target, group_name_of(after.group_filter))
            && targets_or_empty(after.warpgate_targets).contains(after.filtered_targets@[k].target) by {
        assert(after.filtered_targets@[k] == after.filtered_targets@[k]);
    }
}

/// Whatever key is pressed, the target list still holds only fetched SSH targets of the chosen
/// group.
#[verifier::rlimit(40)]
pub proof fn keys_keep_the_listing_to_the_group(a: App, b: App, key: KeyEvent, cmds: Seq<Command>)
    requires
        global_key_spec(a, b, key, cmds),
        listing_ok(a),
    ensures
        listing_ok(b),
{
    assert forall|x: App, y: App| #[trigger] filtered_recalculated(x, y) implies listing_ok(y) by {
        refiltering_lists_only_ssh_targets_of_the_group(x, y);
    }
}

/// Whatever event arrives, the target list still holds only fetched SSH targets of the chosen
/// group.
pub proof fn events_keep_the_listing_to_the_group(a: App, b: App, event: AppEvent, task: Option<Task>)
    requires
        app_event_spec(a, b, event, task),
        listing_ok(a),
    ensures
        listing_ok(b),
{
    assert forall|x: App, y: App| #[trigger] filtered_recalculated(x, y) implies listing_ok(y) by {
        refiltering_lists_only_ssh_targets_of_the_group(x, y);
    }
}

/// The target chosen for connecting, if any, is reachable over SSH.
pub open spec fn chosen_ok(a: App) -> bool {
    a.selected_target matches Some(t) ==> is_ssh_spec(t@)
}

/// Whatever event arrives, the target chosen for connecting is reachable over SSH, given that
/// the list it is chosen from holds only SSH targets: the client never connects to another kind.
pub proof fn events_choose_only_ssh_targets(a: App, b: App, event: AppEvent, task: Option<Task>)
    requires
        app_event_spec(a, b, event, task),
        listing_ok(a),
        chosen_ok(a),
    ensures
        chosen_ok(b),
        b.outcome != a.outcome && b.outcome is Connect ==> (b.selected_target matches Some(t)
            && t.name == b.outcome->Connect_0.target_name && is_ssh_spec(t@)),
{
}

/// No key press changes which target is chosen for connecting.
#[verifier::rlimit(40)]
pub proof fn keys_keep_the_chosen_target(a: App, b: App, key: KeyEvent, cmds: Seq<Command>)
    requires
        global_key_spec(a, b, key, cmds),
    ensures
        b.selected_target == a.selected_target,
{
}

/// A listing of targets none of which is reachable over SSH is the header alone.
pub proof fn a_listing_without_ssh_targets_is_the_header(
    ts: Seq<WarpgateTarget>,
    user: Seq<char>,
    host: Seq<char>,
    port: u16,
)
    requires
        forall|i: int| 0 <= i < ts.len() ==> !is_ssh_spec((#[trigger] ts[i])@),
    ensures
        render_spec(ts, user, host, port) == listing_header(),
    decreases ts.len(),
{
    if ts.len() > 0 {
        let rest = ts.drop_last();
        assert forall|i: int| 0 <= i < rest.len() implies !is_ssh_spec((#[trigger] rest[i])@) by {
            assert(rest[i] == ts[i]);
        }
        a_listing_without_ssh_targets_is_the_header(rest, user, host, port);
        assert(!is_ssh_spec(ts[ts.len() - 1]@));
    }
    assert(rows_spec(ts, user, host, port) =~= Seq::<char>::empty());
}

/// `Esc` on the targets screen empties the search, and the list shows every SSH target of the
/// chosen group again, in the order they came, with nothing marked as matched. (The bounds are
/// those of a text area whose cursor `select_all` can reach.)
pub proof fn esc_clears_the_search(a: App, b: App, key: KeyEvent, cmds: Seq<Command>)
    requires
        key.code == KeyCode::Esc,
        a.modal is None,
        a.screen == AppScreen::Targets,
        text_area_lines(a.ui_inputs.search_input).len() <= 65536,
        text_area_lines(a.ui_inputs.search_input).last().len() <= 65535,
        global_key_spec(a, b, key, cmds),
    ensures
        search_query(b) == Seq::<char>::empty(),
        ({
            let c = candidates(targets_or_empty(a.warpgate_targets), group_name_of(a.group_filter));
            &&& b.filtered_targets@.len() == c.len()
            &&& forall|k: int| 0 <= k < c.len() ==> (#[trigger] b.filtered_targets@[k]).target == c[k]
                && b.filtered_targets@[k].name_indices@.len() == 0
        }),
        cmds.len() == 0,
{
}

/// `Enter` in the group picker makes the highlighted row's group the filter and closes the
/// picker; the list then holds only SSH targets of that group, and where the `all` row was
/// chosen and the search is blank, every SSH target again, in the order they came.
pub proof fn choosing_a_group_filters_the_list(a: App, b: App, key: KeyEvent, cmds: Seq<Command>, p: usize)
    requires
        key.code == KeyCode::Enter,
        a.modal == Some(Modal::GroupPicker),
        a.table_group_picker_state.selected == Some(p),
        p < a.group_picker_matches@.len(),
        a.group_picker_matches@[p as int] < a.group_picker_rows@.len(),
        global_key_spec(a, b, key, cmds),
    ensures
        b.group_filter == a.group_picker_rows@[a.group_picker_matches@[p as int] as int].group,
        b.modal is None,
        listing_ok(b),
        b.group_filter is None && crate::fuzzy::is_blank_query(search_query(a)) ==> {
            let c = candidates(targets_or_empty(a.warpgate_targets), None);
            &&& b.filtered_targets@.len() == c.len()
            &&& forall|k: int| 0 <= k < c.len() ==> (#[trigger] b.filtered_targets@[k]).target == c[k]
        },
        cmds.len() == 0,
{
    let row = a.group_picker_rows@[a.group_picker_matches@[p as int] as int];
    let chosen = App { group_filter: row.group, ..a };
    refiltering_lists_only_ssh_targets_of_the_group(chosen, App { modal: a.modal, ..b });
}

/// The group picker's highlight fits its list of matches.
pub open spec fn picker_highlight_ok(a: App) -> bool {
    highlight_in_range(a.table_group_picker_state, a.group_picker_matches.len())
}

proof fn lemma_first_position_in_range(s: Seq<usize>, v: usize)
    ensures
        first_position(s, v) is Some ==> first_position(s, v).unwrap() < s.len(),
    decreases s.len(),
{
    if s.len() > 0 {
        lemma_first_position_in_range(s.drop_last(), v);
    }
}

/// Whatever key is pressed, the group picker's highlight fits its matches afterwards, where it
/// did before: opening the picker highlights one of its rows, and typing and moving keep the
/// highlight inside the rows that match. (The bounds are those of a text area whose cursor
/// `select_all` can reach.)
#[verifier::rlimit(40)]
pub proof fn keys_keep_the_picker_highlight_in_range(a: App, b: App, key: KeyEvent, cmds: Seq<Command>)
    requires
        global_key_spec(a, b, key, cmds),
        picker_highlight_ok(a),
        text_area_lines(a.ui_inputs.group_picker_input).len() <= 65536,
        text_area_lines(a.ui_inputs.group_picker_input).last().len() <= 65535,
    ensures
        picker_highlight_ok(b),
{
    assert forall|s: Seq<usize>, v: usize| #[trigger] first_position(s, v) is Some implies first_position(s, v).unwrap() < s.len() by {
        lemma_first_position_in_range(s, v);
    }
}

/// `Ctrl+A` and then a character (typed without Control or Alt) leave just that character in
/// the focused input; `Ctrl+A` and then `Backspace` leave it empty. (The bounds are those of a
/// text area whose cursor `select_all` can reach.)
#[verifier::rlimit(60)]
pub proof fn typing_over_select_all_replaces_the_text(
    a: App,
    b: App,
    c: App,
    select_all: KeyEvent,
    key: KeyEvent,
    cmds1: Seq<Command>,
    cmds2: Seq<Command>,
    slot: InputSlot,
)
    requires
        select_all.code == KeyCode::Char('a'),
        select_all.modifiers.control,
        !key.modifiers.control,
        !key.modifiers.alt,
        a.modal is None || a.modal == Some(Modal::GroupPicker),
        focused_slot(a) == Some(slot),
        crate::input::text_area_wf(input_at(a, slot)),
        text_area_lines(input_at(a, slot)).len() <= 65536,
        text_area_lines(input_at(a, slot)).last().len() <= 65535,
        global_key_spec(a, b, select_all, cmds1),
        global_key_spec(b, c, key, cmds2),
    ensures
        key.code matches KeyCode::Char(ch) ==> ((ch != '\n' && ch != '\r')
            ==> text_area_lines(input_at(c, slot)) == seq![seq![ch]]),
        key.code == KeyCode::Backspace ==> text_area_lines(input_at(c, slot)) == seq![Seq::<char>::empty()],
{
    assert(focused_slot(b) == Some(slot));
    let t = input_at(b, slot);
    assert(crate::input::whole_text_selected(t));
    crate::input::lemma_whole_text_span(t);
    let empty_line = seq![Seq::<char>::empty()];
    if let KeyCode::Char(ch) = key.code {
        assert(crate::input::insert_char_spec(Seq::<char>::empty(), 0, ch) =~= seq![ch]);
        assert(empty_line.update(0, seq![ch]) =~= seq![seq![ch]]);
    }
}

/// `Enter` on the settings screen takes the settings from the inputs but stays on the screen
/// until the save is reported: nothing is fetched before then. `ConfigSaved` then shows the
/// targets and fetches them with the settings just taken.
pub proof fn saving_the_settings_waits_for_the_save(
    a: App,
    b: App,
    c: App,
    key: KeyEvent,
    cmds: Seq<Command>,
    task: Option<Task>,
)
    requires
        key.code == KeyCode::Enter,
        a.modal is None,
        a.screen == AppScreen::Settings,
        global_key_spec(a, b, key, cmds),
        app_event_spec(b, c, AppEvent::ConfigSaved, task),
    ensures
        b.screen == AppScreen::Settings,
        b.loading_targets == a.loading_targets,
        cmds.len() == 1 && cmds[0] is SaveConfig,
        c == (App { screen: AppScreen::Targets, loading_targets: true, ..b }),
        task matches Some(Task::FetchTargets(r)) && crate::app::fetch_result_matches(r, b.config),
{
}

/// The list shows the filter result of the fetched targets for the chosen group and the text in
/// the search input.
pub open spec fn listing_current(a: App) -> bool {
    is_filter_result(a.filtered_targets@, targets_or_empty(a.warpgate_targets), group_name_of(a.group_filter), search_query(a))
}

/// Typing a character or pressing Backspace in the search on the targets screen re-filters the
/// list: afterwards it is the filter result for the new search text.
#[verifier::rlimit(40)]
pub proof fn editing_the_search_refilters_the_list(a: App, b: App, key: KeyEvent, cmds: Seq<Command>)
    requires
        a.modal is None,
        a.screen == AppScreen::Targets,
        (key.code is Char && !key.modifiers.control) || key.code == KeyCode::Backspace,
        global_key_spec(a, b, key, cmds),
    ensures
        listing_current(b),
        b.total_ssh_targets == candidates(targets_or_empty(b.warpgate_targets), None).len(),
{
    lemma_count_ssh_is_candidates(targets_or_empty(a.warpgate_targets));
}

/// Whatever key is pressed, a list that showed the filter result for the current search, group
/// and targets still does.
#[verifier::rlimit(60)]
pub proof fn keys_keep_the_listing_current(a: App, b: App, key: KeyEvent, cmds: Seq<Command>)
    requires
        global_key_spec(a, b, key, cmds),
        listing_current(a),
    ensures
        listing_current(b),
{
}

/// Whatever event arrives, a list that showed the filter result for the current search, group
/// and targets still does; newly fetched targets are filtered at once.
pub proof fn events_keep_the_listing_current(a: App, b: App, event: AppEvent, task: Option<Task>)
    requires
        app_event_spec(a, b, event, task),
        listing_current(a) || event is TargetsFetched,
    ensures
        listing_current(b),
{
}

/// The SSH targets are the targets offered without a group filter.
pub proof fn lemma_count_ssh_is_candidates(ts: Seq<WarpgateTarget>)
    ensures
        count_ssh(ts) == candidates(ts, None).len(),
    decreases ts.len(),
{
    if ts.len() > 0 {
        lemma_count_ssh_is_candidates(ts.drop_last());
    }
}

/// The SSH targets in a group with a given name are the targets offered with that group filter.
pub proof fn lemma_count_named_is_candidates(ts: Seq<WarpgateTarget>, name: Seq<char>)
    ensures
        count_named(ssh_groups(ts), name) == candidates(ts, Some(name)).len(),
    decreases ts.len(),
{
    if ts.len() > 0 {
        let rest = ts.drop_last();
        lemma_count_named_is_candidates(rest, name);
        let t = ts.last();
        if is_ssh_spec(t@) && t.group is Some {
            assert(ssh_groups(ts).drop_last() == ssh_groups(rest));
        }
    }
}

/// `Ctrl+G` on the targets screen opens the group picker. Its first row is the `all` row, whose
/// count is the number of targets listed without a group filter (the SSH targets); every other
/// row is a group, whose count is the number of targets listed when that group is chosen.
#[verifier::rlimit(40)]
pub proof fn the_group_picker_counts_what_each_choice_lists(a: App, b: App, key: KeyEvent, cmds: Seq<Command>)
    requires
        key.code == KeyCode::Char('g') || key.code == KeyCode::Char('G'),
        key.modifiers.control,
        a.modal is None,
        a.screen == AppScreen::Targets,
        global_key_spec(a, b, key, cmds),
    ensures
        b.modal == Some(Modal::GroupPicker),
        b.group_picker_rows@.len() >= 1,
        b.group_picker_rows@[0].group is None,
        b.group_picker_rows@[0].count == candidates(targets_or_empty(a.warpgate_targets), None).len(),
        forall|i: int| 1 <= i < b.group_picker_rows@.len() ==> (#[trigger] b.group_picker_rows@[i]).group is Some
            && b.group_picker_rows@[i].count
                == candidates(targets_or_empty(a.warpgate_targets), Some(b.group_picker_rows@[i].group.unwrap().name@)).len(),
{
    let ts = targets_or_empty(a.warpgate_targets);
    let rows = b.group_picker_rows@;
    lemma_count_ssh_is_candidates(ts);
    assert forall|i: int| 1 <= i < rows.len() implies (#[trigger] rows[i]).group is Some
        && rows[i].count == candidates(ts, Some(rows[i].group.unwrap().name@)).len() by {
        let tally = rows.subrange(1, rows.len() as int);
        assert(tally[i - 1] == rows[i]);
        lemma_count_named_is_candidates(ts, rows[i].group.unwrap().name@);
    }
}

proof fn lemma_trim_start_front(s: Seq<char>)
    ensures
        trim_start_spec(s).len() > 0 ==> !unicode_white_space(trim_start_spec(s)[0]),
    decreases s.len(),
{
    if s.len() > 0 && unicode_white_space(s[0]) {
        lemma_trim_start_front(s.drop_first());
    }
}

proof fn lemma_trim_end_back(s: Seq<char>)
    ensures
        trim_end_spec(s).len() <= s.len(),
        trim_end_spec(s) == s.subrange(0, trim_end_spec(s).len() as int),
        trim_end_spec(s).len() > 0 ==> !unicode_white_space(trim_end_spec(s).last()),
    decreases s.len(),
{
    if s.len() > 0 && unicode_white_space(s.last()) {
        lemma_trim_end_back(s.drop_last());
        assert(s.drop_last().subrange(0, trim_end_spec(s).len() as int) =~= s.subrange(0, trim_end_spec(s).len() as int));
    } else {
        assert(s.subrange(0, s.len() as int) =~= s);
    }
}

/// A trimmed text that is not empty starts and ends with a character other than whitespace.
pub proof fn lemma_trimmed_edges(s: Seq<char>)
    ensures
        trim_spec(s).len() > 0 ==> {
            &&& !unicode_white_space(trim_spec(s)[0])
            &&& !unicode_white_space(trim_spec(s).last())
        },
{
    lemma_trim_start_front(s);
    lemma_trim_end_back(trim_start_spec(s));
    if trim_spec(s).len() > 0 {
        assert(trim_spec(s)[0] == trim_start_spec(s)[0]);
    }
}

/// What a setting is saved as from its input: the input's first line without its leading and
/// trailing whitespace, or nothing where that leaves nothing.
pub open spec fn saved_text(line: Seq<char>) -> Option<Seq<char>> {
    if trim_spec(line).len() == 0 { None } else { Some(trim_spec(line)) }
}

/// A saved text setting is not empty and neither starts nor ends with whitespace.
pub open spec fn clean_setting(o: Option<String>) -> bool {
    o matches Some(t) ==> t@.len() > 0 && !unicode_white_space(t@[0]) && !unicode_white_space(t@.last())
}

/// `Enter` on the settings screen saves the URL, the token and the username as the trimmed first
/// lines of their inputs (nothing where that is empty), and the port as the trimmed first line of
/// its input read as a number; so no saved text setting starts or ends with whitespace.
#[verifier::rlimit(40)]
pub proof fn saved_settings_are_the_trimmed_inputs(a: App, b: App, key: KeyEvent, cmds: Seq<Command>)
    requires
        key.code == KeyCode::Enter,
        a.modal is None,
        a.screen == AppScreen::Settings,
        global_key_spec(a, b, key, cmds),
    ensures
        opt_view(b.config.warpgate_api_url) == saved_text(first_line_spec(text_area_lines(a.ui_inputs.warpgate_url_input))),
        opt_view(b.config.warpgate_token) == saved_text(first_line_spec(text_area_lines(a.ui_inputs.warpgate_token_input))),
        opt_view(b.config.warpgate_username) == saved_text(first_line_spec(text_area_lines(a.ui_inputs.warpgate_username_input))),
        b.config.warpgate_port == match saved_text(first_line_spec(text_area_lines(a.ui_inputs.warpgate_port_input))) {
            Some(p) => parse_u16_spec(p),
            None => None,
        },
        clean_setting(b.config.warpgate_api_url),
        clean_setting(b.config.warpgate_token),
        clean_setting(b.config.warpgate_username),
{
    lemma_trimmed_edges(first_line_spec(text_area_lines(a.ui_inputs.warpgate_url_input)));
    lemma_trimmed_edges(first_line_spec(text_area_lines(a.ui_inputs.warpgate_token_input)));
    lemma_trimmed_edges(first_line_spec(text_area_lines(a.ui_inputs.warpgate_username_input)));
}

/// The client opens on the settings screen exactly when the URL, the token or the username is
/// missing or empty, and on the targets screen otherwise.
pub proof fn the_client_opens_on_settings_exactly_when_a_setting_is_missing(config: AppConfig)
    ensures
        (crate::app::start_screen(config) == AppScreen::Settings) <==> (
            config.warpgate_api_url is None || config.warpgate_api_url.unwrap()@.len() == 0
            || config.warpgate_token is None || config.warpgate_token.unwrap()@.len() == 0
            || config.warpgate_username is None || config.warpgate_username.unwrap()@.len() == 0),
        crate::app::start_screen(config) == AppScreen::Settings || crate::app::start_screen(config) == AppScreen::Targets,
{
}

/// The arrow, `Home` and `End` keys on the target list: `Up` moves the highlight one row up
/// (staying on the first row), `Down` one row down (staying on the last), `Home` to the first
/// row and `End` to the last, whatever modifiers are held.
#[verifier::rlimit(40)]
pub proof fn arrow_keys_move_the_target_highlight_one_row(a: App, b: App, key: KeyEvent, cmds: Seq<Command>, i: usize)
    requires
        a.modal is None,
        a.screen == AppScreen::Targets,
        a.table_targets_selection_state.selected == Some(i),
        i < a.filtered_targets.len(),
        global_key_spec(a, b, key, cmds),
    ensures
        key.code == KeyCode::Up ==> b.table_targets_selection_state.selected == Some(if i > 0 { (i - 1) as usize } else { 0usize }),
        key.code == KeyCode::Down ==> b.table_targets_selection_state.selected
            == Some(if i + 1 < a.filtered_targets.len() { (i + 1) as usize } else { i }),
        key.code == KeyCode::Home ==> b.table_targets_selection_state.selected == Some(0usize),
        key.code == KeyCode::End ==> b.table_targets_selection_state.selected == Some((a.filtered_targets.len() - 1) as usize),
        (key.code == KeyCode::Up || key.code == KeyCode::Down || key.code == KeyCode::Home || key.code == KeyCode::End)
            ==> b.filtered_targets == a.filtered_targets && cmds.len() == 0,
{
}

proof fn lemma_digit_char(d: nat)
    requires
        d < 10,
    ensures
        '0' <= digit_char(d) <= '9',
        digit_value(digit_char(d)) == d,
{
}

proof fn lemma_decimal_digits(n: nat)
    ensures
        decimal_spec(n).len() > 0,
        all_digits(decimal_spec(n)),
        digits_value(decimal_spec(n)) == n,
    decreases n,
{
    lemma_digit_char(n % 10);
    if n >= 10 {
        lemma_decimal_digits(n / 10);
        let s = decimal_spec(n);
        assert(s.drop_last() == decimal_spec(n / 10));
        assert(s.last() == digit_char(n % 10));
        assert(digits_value(s) == digits_value(decimal_spec(n / 10)) * 10 + digit_value(s.last()));
        assert((n / 10) * 10 + n % 10 == n);
        assert forall|i: int| 0 <= i < s.len() implies crate::numbers::is_digit(#[trigger] s[i]) by {
            if i < s.len() - 1 {
                assert(s[i] == decimal_spec(n / 10)[i]);
            }
        }
    } else {
        let s = decimal_spec(n);
        assert(s.drop_last() =~= Seq::<char>::empty());
        assert(digits_value(s.drop_last()) == 0);
    }
}

/// The decimal text of a port reads back as that port.
pub proof fn a_written_port_reads_back(port: u16)
    ensures
        parse_u16_spec(decimal_spec(port as nat)) == Some(port),
{
    lemma_decimal_digits(port as nat);
    lemma_digit_char(0);
    let s = decimal_spec(port as nat);
    assert(crate::numbers::is_digit(s[0]));
}

} // verus!
