//! The state of the terminal client and how each key press and each event changes it.
use vstd::prelude::*;
use crate::config::{fetch_request_spec, unwrap_port, AppConfig, FetchError, FetchRequest, DEFAULT_WARPGATE_PORT};
use crate::filter::{candidates, filter_targets, group_name_of, is_filter_result, MatchedTarget};
use crate::fuzzy::{fuzzy_rank, identity_order, is_blank_query, is_score_ranking, rank_names, views};
use crate::groups::{count_groups, count_ssh, count_ssh_targets, is_group_tally, ssh_groups, GroupRow};
use crate::input::{
    clear_text_area, first_line, first_line_spec, select_all_cursor, new_text_area, text_area_cursor, text_area_input,
    text_area_lines, text_area_select_all, text_area_selection, text_area_wf, text_input_effect, trimmed_line, set_mask, text_area_mask, text_area_wraps,
    EditKey, TextInput,
};
use crate::keys::{KeyCode, KeyEvent};
use crate::numbers::{decimal_spec, parse_u16, parse_u16_spec, u16_to_string};
use crate::selection::{clamp_selection, clamp_spec, next_row, previous_row, select_spec, TableSelection};
use crate::text::trimmed_spec;
use crate::utils::{domain_spec, get_domain_from_warpgate_url, ssh_username_spec, warpgate_ssh_username};
use crate::warpgate::{copy_opt_group, opt_or_empty, opt_view, WarpgateTarget, WarpgateTargetGroup};

verus! {

/// How to reach the target once the client exits.
#[derive(Debug, Clone, Copy, PartialEq, Eq, Structural)]
pub enum ConnectionType {
    Ssh,
    Sftp,
}

impl ConnectionType {
    pub open spec fn description_spec(self) -> Seq<char> {
        match self {
            ConnectionType::Ssh => "interactive shell"@,
            ConnectionType::Sftp => "file transfer"@,
        }
    }

    pub open spec fn name_spec(self) -> Seq<char> {
        match self {
            ConnectionType::Ssh => "SSH"@,
            ConnectionType::Sftp => "SFTP"@,
        }
    }

    pub fn description(self) -> (s: &'static str)
        ensures
            s@ == self.description_spec(),
    {
        proof {
            reveal_strlit("interactive shell");
            reveal_strlit("file transfer");
        }
        match self {
            ConnectionType::Ssh => "interactive shell",
            ConnectionType::Sftp => "file transfer",
        }
    }

    /// The name shown for the connection type, in capitals.
    pub fn name(self) -> (s: &'static str)
        ensures
            s@ == self.name_spec(),
    {
        proof {
            reveal_strlit("SSH");
            reveal_strlit("SFTP");
        }
        match self {
            ConnectionType::Ssh => "SSH",
            ConnectionType::Sftp => "SFTP",
        }
    }

    /// The connection type in a given row of the connect dialog: the rows follow the order in
    /// which the types are declared.
    pub open spec fn from_row_spec(index: usize) -> Option<ConnectionType> {
        if index == 0 {
            Some(ConnectionType::Ssh)
        } else if index == 1 {
            Some(ConnectionType::Sftp)
        } else {
            None
        }
    }

    pub fn from_row(index: usize) -> (r: Option<ConnectionType>)
        ensures
            r == Self::from_row_spec(index),
    {
        if index == 0 {
            Some(ConnectionType::Ssh)
        } else if index == 1 {
            Some(ConnectionType::Sftp)
        } else {
            None
        }
    }
}

/// Everything the `ssh`/`sftp` spawn needs, resolved while the config is still in hand.
#[derive(Debug, Clone, PartialEq, Eq)]
pub struct Connection {
    pub target_name: String,
    pub connection_type: ConnectionType,
    pub ssh_username: String,
    pub host: String,
    pub port: u16,
}

/// The program that opens a session of each connection type.
pub open spec fn program_spec(t: ConnectionType) -> Seq<char> {
    match t {
        ConnectionType::Ssh => "ssh"@,
        ConnectionType::Sftp => "sftp"@,
    }
}

/// The flag that gives that program the port: `ssh` takes `-p`, `sftp` takes `-P`.
pub open spec fn port_flag_spec(t: ConnectionType) -> Seq<char> {
    match t {
        ConnectionType::Ssh => "-p"@,
        ConnectionType::Sftp => "-P"@,
    }
}

impl Connection {
    /// The program to spawn and its arguments: the port flag and the port, `-o User=<login>`,
    /// and the bastion host.
    pub fn command_line(&self) -> (command: (String, Vec<String>))
        ensures
            command.0@ == program_spec(self.connection_type),
            command.1@.len() == 5,
            command.1@[0]@ == port_flag_spec(self.connection_type),
            command.1@[1]@ == decimal_spec(self.port as nat),
            command.1@[2]@ == "-o"@,
            command.1@[3]@ == "User="@ + self.ssh_username@,
            command.1@[4]@ == self.host@,
    {
        proof {
            reveal_strlit("ssh");
            reveal_strlit("sftp");
            reveal_strlit("-p");
            reveal_strlit("-P");
            reveal_strlit("-o");
            reveal_strlit("User=");
        }
        let (program, flag) = match self.connection_type {
            ConnectionType::Ssh => (String::from_str("ssh"), String::from_str("-p")),
            ConnectionType::Sftp => (String::from_str("sftp"), String::from_str("-P")),
        };
        let mut user = String::from_str("User=");
        user.append(self.ssh_username.as_str());
        let mut arguments: Vec<String> = Vec::new();
        arguments.push(flag);
        arguments.push(u16_to_string(self.port));
        arguments.push(String::from_str("-o"));
        arguments.push(user);
        arguments.push(self.host.clone());
        (program, arguments)
    }
}

/// What the client leaves behind for `main` to act on once the terminal is restored.
#[derive(Debug, Clone, PartialEq, Eq)]
pub enum Outcome {
    Quit,
    MissingConfiguration,
    Connect(Connection),
    Update,
}

#[derive(Debug, Clone, Copy, PartialEq, Eq, Structural)]
pub enum AppScreen {
    Targets,
    Settings,
    Logs,
}

/// Layered over the current screen rather than replacing it, so the user keeps sight of what they
/// picked and `Esc` always has somewhere to go back to.
#[derive(Debug, Clone, Copy, PartialEq, Eq, Structural)]
pub enum Modal {
    Connect,
    GroupPicker,
    Help,
}

/// The inputs of the settings screen. Their order is the order they are drawn in and the order
/// `Tab` walks them.
#[derive(Debug, Clone, Copy, PartialEq, Eq, Structural)]
pub enum WarpgateSettingsScreenInput {
    Url,
    Username,
    Token,
    Port,
}

impl WarpgateSettingsScreenInput {
    pub open spec fn label_spec(self) -> Seq<char> {
        match self {
            WarpgateSettingsScreenInput::Url => "URL"@,
            WarpgateSettingsScreenInput::Username => "Username"@,
            WarpgateSettingsScreenInput::Token => "Token"@,
            WarpgateSettingsScreenInput::Port => "Port"@,
        }
    }

    pub fn label(self) -> (s: &'static str)
        ensures
            s@ == self.label_spec(),
    {
        proof {
            reveal_strlit("URL");
            reveal_strlit("Username");
            reveal_strlit("Token");
            reveal_strlit("Port");
        }
        match self {
            WarpgateSettingsScreenInput::Url => "URL",
            WarpgateSettingsScreenInput::Username => "Username",
            WarpgateSettingsScreenInput::Token => "Token",
            WarpgateSettingsScreenInput::Port => "Port",
        }
    }

    /// The position of the input in display order.
    pub open spec fn index_spec(self) -> nat {
        match self {
            WarpgateSettingsScreenInput::Url => 0,
            WarpgateSettingsScreenInput::Username => 1,
            WarpgateSettingsScreenInput::Token => 2,
            WarpgateSettingsScreenInput::Port => 3,
        }
    }

    pub open spec fn from_index_spec(index: nat) -> WarpgateSettingsScreenInput {
        if index == 0 {
            WarpgateSettingsScreenInput::Url
        } else if index == 1 {
            WarpgateSettingsScreenInput::Username
        } else if index == 2 {
            WarpgateSettingsScreenInput::Token
        } else {
            WarpgateSettingsScreenInput::Port
        }
    }

    /// All inputs, in display order.
    pub fn all() -> (v: Vec<WarpgateSettingsScreenInput>)
        ensures
            v@.len() == 4,
            forall|i: int| 0 <= i < 4 ==> v@[i] == Self::from_index_spec(i as nat),
    {
        vec![
            WarpgateSettingsScreenInput::Url,
            WarpgateSettingsScreenInput::Username,
            WarpgateSettingsScreenInput::Token,
            WarpgateSettingsScreenInput::Port,
        ]
    }

    pub fn index(self) -> (i: usize)
        ensures
            i == self.index_spec(),
    {
        match self {
            WarpgateSettingsScreenInput::Url => 0,
            WarpgateSettingsScreenInput::Username => 1,
            WarpgateSettingsScreenInput::Token => 2,
            WarpgateSettingsScreenInput::Port => 3,
        }
    }

    pub fn from_index(index: usize) -> (r: WarpgateSettingsScreenInput)
        ensures
            r == Self::from_index_spec(index as nat),
    {
        if index == 0 {
            WarpgateSettingsScreenInput::Url
        } else if index == 1 {
            WarpgateSettingsScreenInput::Username
        } else if index == 2 {
            WarpgateSettingsScreenInput::Token
        } else {
            WarpgateSettingsScreenInput::Port
        }
    }
}

/// The input `Tab` (forward) or `Shift+Tab` moves to: the next or previous one in display order,
/// wrapping around.
pub open spec fn cycled_input(current: WarpgateSettingsScreenInput, forward: bool) -> WarpgateSettingsScreenInput {
    WarpgateSettingsScreenInput::from_index_spec(
        ((current.index_spec() + if forward { 1nat } else { 3nat }) % 4) as nat,
    )
}

/// The screen `Ctrl+N` moves to: targets, settings, logs, and round again.
pub open spec fn next_screen(screen: AppScreen) -> AppScreen {
    match screen {
        AppScreen::Targets => AppScreen::Settings,
        AppScreen::Settings => AppScreen::Logs,
        AppScreen::Logs => AppScreen::Targets,
    }
}

pub struct AppInputs {
    pub search_input: TextInput,
    pub group_picker_input: TextInput,
    pub warpgate_url_input: TextInput,
    pub warpgate_token_input: TextInput,
    pub warpgate_username_input: TextInput,
    pub warpgate_port_input: TextInput,
}

impl AppInputs {
    pub open spec fn wf(&self) -> bool {
        &&& text_area_wf(self.search_input)
        &&& text_area_wf(self.group_picker_input)
        &&& text_area_wf(self.warpgate_url_input)
        &&& text_area_wf(self.warpgate_token_input)
        &&& text_area_wf(self.warpgate_username_input)
        &&& text_area_wf(self.warpgate_port_input)
    }

    /// The inputs filled with the configured values; the search and group filter inputs start
    /// empty. The token is drawn masked with `●`; no input wraps.
    pub fn new(
        warpgate_url: &str,
        warpgate_token: &str,
        warpgate_username: &str,
        warpgate_port: &str,
    ) -> (inputs: Self)
        ensures
            inputs.wf(),
            text_area_lines(inputs.search_input) == seq![Seq::<char>::empty()],
            text_area_lines(inputs.group_picker_input) == seq![Seq::<char>::empty()],
            text_area_lines(inputs.warpgate_url_input) == seq![warpgate_url@],
            text_area_lines(inputs.warpgate_token_input) == seq![warpgate_token@],
            text_area_lines(inputs.warpgate_username_input) == seq![warpgate_username@],
            text_area_lines(inputs.warpgate_port_input) == seq![warpgate_port@],
            text_area_cursor(inputs.search_input) == (0nat, 0nat),
            text_area_selection(inputs.search_input) is None,
            text_area_cursor(inputs.group_picker_input) == (0nat, 0nat),
            text_area_selection(inputs.group_picker_input) is None,
            text_area_cursor(inputs.warpgate_url_input) == (0nat, 0nat),
            text_area_selection(inputs.warpgate_url_input) is None,
            text_area_cursor(inputs.warpgate_token_input) == (0nat, 0nat),
            text_area_selection(inputs.warpgate_token_input) is None,
            text_area_cursor(inputs.warpgate_username_input) == (0nat, 0nat),
            text_area_selection(inputs.warpgate_username_input) is None,
            text_area_cursor(inputs.warpgate_port_input) == (0nat, 0nat),
            text_area_selection(inputs.warpgate_port_input) is None,
            text_area_mask(inputs.warpgate_token_input) == Some('\u{25CF}'),
            text_area_mask(inputs.search_input) is None,
            text_area_mask(inputs.group_picker_input) is None,
            text_area_mask(inputs.warpgate_url_input) is None,
            text_area_mask(inputs.warpgate_username_input) is None,
            text_area_mask(inputs.warpgate_port_input) is None,
            !text_area_wraps(inputs.search_input),
            !text_area_wraps(inputs.group_picker_input),
            !text_area_wraps(inputs.warpgate_url_input),
            !text_area_wraps(inputs.warpgate_token_input),
            !text_area_wraps(inputs.warpgate_username_input),
            !text_area_wraps(inputs.warpgate_port_input),
    {
        let search_input = new_text_area("");
        let group_picker_input = new_text_area("");
        proof {
            reveal_strlit("");
            assert(""@ =~= Seq::<char>::empty());
        }
        let mut warpgate_token_input = new_text_area(warpgate_token);
        set_mask(&mut warpgate_token_input, '\u{25CF}');
        AppInputs {
            search_input,
            group_picker_input,
            warpgate_url_input: new_text_area(warpgate_url),
            warpgate_token_input,
            warpgate_username_input: new_text_area(warpgate_username),
            warpgate_port_input: new_text_area(warpgate_port),
        }
    }
}

/// What the event loop is asked to do next.
#[derive(Debug)]
pub enum AppEvent {
    Quit,
    TargetSelected,
    ConnectionTypeSelected(ConnectionType),
    RefreshTargets,
    /// The targets, or the message of the error that kept them from arriving.
    TargetsFetched(Result<Vec<WarpgateTarget>, String>),
    CheckForUpdate,
    UpdateAvailable(String),
    TriggerUpdate,
    /// The settings were written to their file.
    ConfigSaved,
}

/// What a key press asks of the front end: an event to queue, or the settings to save (after
/// which the front end sends `AppEvent::ConfigSaved`).
#[derive(Debug)]
pub enum Command {
    Send(AppEvent),
    SaveConfig,
}

/// Work that runs outside the event loop and answers with an event.
#[derive(Debug)]
pub enum Task {
    /// Fetch the targets with this request, or report why it cannot be made.
    FetchTargets(Result<FetchRequest, FetchError>),
    CheckForUpdate,
}

pub struct App {
    pub running: bool,
    pub screen: AppScreen,
    pub modal: Option<Modal>,
    pub table_targets_selection_state: TableSelection,
    pub table_connection_selection_state: TableSelection,
    pub config: AppConfig,
    /// The fetched targets, or the message of the error that kept them from arriving.
    pub warpgate_targets: Result<Vec<WarpgateTarget>, String>,
    pub loading_targets: bool,
    pub selected_target: Option<WarpgateTarget>,
    pub update_available: Option<String>,
    pub group_filter: Option<WarpgateTargetGroup>,
    pub group_picker_rows: Vec<GroupRow>,
    /// Indices into `group_picker_rows`, in the order the picker's own query ranked them.
    pub group_picker_matches: Vec<usize>,
    pub table_group_picker_state: TableSelection,
    pub ui_inputs: AppInputs,
    pub warpgate_selected_input: WarpgateSettingsScreenInput,
    pub filtered_targets: Vec<MatchedTarget>,
    pub total_ssh_targets: usize,
    /// Cached so the header does not re-parse the URL every frame.
    pub warpgate_host: String,
    pub skip_update: bool,
    pub outcome: Outcome,
}

/// The fetched targets, or none where the fetch failed.
pub open spec fn targets_or_empty(r: Result<Vec<WarpgateTarget>, String>) -> Seq<WarpgateTarget> {
    match r {
        Ok(v) => v@,
        Err(_) => Seq::empty(),
    }
}

/// The search query: the first line of the search input.
pub open spec fn search_query(a: App) -> Seq<char> {
    first_line_spec(text_area_lines(a.ui_inputs.search_input))
}

/// The group picker's query: the first line of its input.
pub open spec fn group_query(a: App) -> Seq<char> {
    first_line_spec(text_area_lines(a.ui_inputs.group_picker_input))
}

/// `after` is `before` with the target list filtered anew: the SSH targets counted, the
/// targets in the chosen group ranked against the search query, and the highlight kept inside
/// the new list. Nothing else changes.
pub open spec fn filtered_recalculated(before: App, after: App) -> bool {
    &&& after == (App {
        filtered_targets: after.filtered_targets,
        total_ssh_targets: after.total_ssh_targets,
        table_targets_selection_state: after.table_targets_selection_state,
        ..before
    })
    &&& after.total_ssh_targets == count_ssh(targets_or_empty(before.warpgate_targets))
    &&& is_filter_result(
        after.filtered_targets@,
        targets_or_empty(before.warpgate_targets),
        group_name_of(before.group_filter),
        search_query(before),
    )
    &&& after.table_targets_selection_state == select_spec(
        before.table_targets_selection_state,
        clamp_spec(before.table_targets_selection_state.selected, after.filtered_targets.len()),
    )
    &&& is_blank_query(search_query(before)) ==> {
        let c = candidates(targets_or_empty(before.warpgate_targets), group_name_of(before.group_filter));
        &&& after.filtered_targets@.len() == c.len()
        &&& forall|k: int| 0 <= k < c.len() ==> (#[trigger] after.filtered_targets@[k]).target == c[k]
            && after.filtered_targets@[k].name_indices@.len() == 0
    }
}

/// What the group picker ranks a row by: the group's name, or `all`.
pub open spec fn row_label(r: GroupRow) -> Seq<char> {
    match r.group {
        Some(g) => g.name@,
        None => "all"@,
    }
}

pub open spec fn row_labels(rows: Seq<GroupRow>) -> Seq<Seq<char>> {
    rows.map_values(|r: GroupRow| row_label(r))
}

/// `after` is `before` with the group picker's rows ranked anew against its query and its
/// highlight kept inside the result. Nothing else changes.
pub open spec fn group_matches_recalculated(before: App, after: App) -> bool {
    &&& after == (App {
        group_picker_matches: after.group_picker_matches,
        table_group_picker_state: after.table_group_picker_state,
        ..before
    })
    &&& after.group_picker_matches@ == fuzzy_rank(row_labels(before.group_picker_rows@), group_query(before))
    &&& is_score_ranking(after.group_picker_matches@, row_labels(before.group_picker_rows@), group_query(before))
    &&& is_blank_query(group_query(before)) ==> after.group_picker_matches@ == identity_order(before.group_picker_rows@.len())
    &&& after.table_group_picker_state == select_spec(
        before.table_group_picker_state,
        clamp_spec(before.table_group_picker_state.selected, after.group_picker_matches.len()),
    )
}

/// The host the configured URL names, if it names one.
pub open spec fn configured_host(c: AppConfig) -> Option<Seq<char>> {
    match c.warpgate_api_url {
        Some(url) => domain_spec(url@),
        None => None,
    }
}

/// `o` is what `main` should do for `connection_type`: quit without a chosen target; connect
/// where the username and a URL that names a host are configured, on the configured port or
/// else the default one; otherwise report the missing configuration.
pub open spec fn is_outcome_for(o: Outcome, a: App, connection_type: ConnectionType) -> bool {
    match a.selected_target {
        None => o == Outcome::Quit,
        Some(target) => {
            if a.config.warpgate_username is Some && configured_host(a.config) is Some {
                o matches Outcome::Connect(d) && {
                    &&& d.target_name == target.name
                    &&& d.connection_type == connection_type
                    &&& d.port == unwrap_port(a.config.warpgate_port)
                    &&& d.ssh_username@ == ssh_username_spec(a.config.warpgate_username.unwrap()@, target.name@)
                    &&& Some(d.host@) == configured_host(a.config)
                }
            } else {
                o == Outcome::MissingConfiguration
            }
        },
    }
}

/// The settings screen is where the client opens when the URL, the token or the username is
/// missing or empty.
pub open spec fn start_screen(config: AppConfig) -> AppScreen {
    if opt_or_empty(opt_view(config.warpgate_api_url)).len() == 0
        || opt_or_empty(opt_view(config.warpgate_token)).len() == 0
        || opt_or_empty(opt_view(config.warpgate_username)).len() == 0 {
        AppScreen::Settings
    } else {
        AppScreen::Targets
    }
}

fn string_or_empty(o: &Option<String>) -> (s: String)
    ensures
        s@ == opt_or_empty(opt_view(*o)),
{
    match o {
        Some(s) => s.clone(),
        None => String::new(),
    }
}

impl App {
    /// Every input of the client is a well-formed text area.
    pub open spec fn wf(&self) -> bool {
        self.ui_inputs.wf()
    }

    /// The client as it opens: on the settings screen where the URL, the token or the username
    /// is missing, otherwise on the targets screen, still waiting for the targets.
    pub fn new(config: AppConfig, skip_update: bool) -> (app: Self)
        ensures
            app.wf(),
            app.running,
            app.screen == start_screen(config),
            (app.screen == AppScreen::Settings) <==> (
                config.warpgate_api_url is None || config.warpgate_api_url.unwrap()@.len() == 0
                || config.warpgate_token is None || config.warpgate_token.unwrap()@.len() == 0
                || config.warpgate_username is None || config.warpgate_username.unwrap()@.len() == 0),
            app.screen == AppScreen::Settings || app.screen == AppScreen::Targets,
            app.modal is None,
            app.table_targets_selection_state == (TableSelection { selected: None, offset: 0 }),
            app.table_connection_selection_state == (TableSelection { selected: Some(0), offset: 0 }),
            app.config == config,
            (app.warpgate_targets matches Ok(v) && v@.len() == 0),
            app.loading_targets,
            app.selected_target is None,
            app.update_available is None,
            app.group_filter is None,
            app.group_picker_rows@.len() == 0,
            app.group_picker_matches@.len() == 0,
            app.table_group_picker_state == (TableSelection { selected: None, offset: 0 }),
            text_area_lines(app.ui_inputs.search_input) == seq![Seq::<char>::empty()],
            text_area_lines(app.ui_inputs.group_picker_input) == seq![Seq::<char>::empty()],
            text_area_lines(app.ui_inputs.warpgate_url_input) == seq![opt_or_empty(opt_view(config.warpgate_api_url))],
            text_area_lines(app.ui_inputs.warpgate_token_input) == seq![opt_or_empty(opt_view(config.warpgate_token))],
            text_area_lines(app.ui_inputs.warpgate_username_input) == seq![opt_or_empty(opt_view(config.warpgate_username))],
            text_area_lines(app.ui_inputs.warpgate_port_input) == seq![decimal_spec(unwrap_port(config.warpgate_port) as nat)],
            text_area_cursor(app.ui_inputs.search_input) == (0nat, 0nat),
            text_area_selection(app.ui_inputs.search_input) is None,
            text_area_cursor(app.ui_inputs.group_picker_input) == (0nat, 0nat),
            text_area_selection(app.ui_inputs.group_picker_input) is None,
            text_area_cursor(app.ui_inputs.warpgate_url_input) == (0nat, 0nat),
            text_area_selection(app.ui_inputs.warpgate_url_input) is None,
            text_area_cursor(app.ui_inputs.warpgate_token_input) == (0nat, 0nat),
            text_area_selection(app.ui_inputs.warpgate_token_input) is None,
            text_area_cursor(app.ui_inputs.warpgate_username_input) == (0nat, 0nat),
            text_area_selection(app.ui_inputs.warpgate_username_input) is None,
            text_area_cursor(app.ui_inputs.warpgate_port_input) == (0nat, 0nat),
            text_area_selection(app.ui_inputs.warpgate_port_input) is None,
            text_area_mask(app.ui_inputs.warpgate_token_input) == Some('\u{25CF}'),
            text_area_mask(app.ui_inputs.search_input) is None,
            text_area_mask(app.ui_inputs.group_picker_input) is None,
            text_area_mask(app.ui_inputs.warpgate_url_input) is None,
            text_area_mask(app.ui_inputs.warpgate_username_input) is None,
            text_area_mask(app.ui_inputs.warpgate_port_input) is None,
            !text_area_wraps(app.ui_inputs.search_input),
            !text_area_wraps(app.ui_inputs.group_picker_input),
            !text_area_wraps(app.ui_inputs.warpgate_url_input),
            !text_area_wraps(app.ui_inputs.warpgate_token_input),
            !text_area_wraps(app.ui_inputs.warpgate_username_input),
            !text_area_wraps(app.ui_inputs.warpgate_port_input),
            app.warpgate_selected_input == WarpgateSettingsScreenInput::Url,
            app.filtered_targets@.len() == 0,
            app.total_ssh_targets == 0,
            app.warpgate_host@ == opt_or_empty(domain_spec(opt_or_empty(opt_view(config.warpgate_api_url)))),
            app.skip_update == skip_update,
            app.outcome == Outcome::Quit,
    {
        let warpgate_url = string_or_empty(&config.warpgate_api_url);
        let warpgate_token = string_or_empty(&config.warpgate_token);
        let warpgate_username = string_or_empty(&config.warpgate_username);
        let port = match config.warpgate_port {
            Some(p) => p,
            None => DEFAULT_WARPGATE_PORT,
        };
        let warpgate_port = u16_to_string(port);
        let screen = if warpgate_url.as_str().unicode_len() == 0
            || warpgate_token.as_str().unicode_len() == 0
            || warpgate_username.as_str().unicode_len() == 0 {
            AppScreen::Settings
        } else {
            AppScreen::Targets
        };
        let mut table_connection_selection_state = TableSelection::new();
        table_connection_selection_state.select_first();
        let warpgate_host = match get_domain_from_warpgate_url(warpgate_url.as_str()) {
            Some(host) => host,
            None => String::new(),
        };
        let ui_inputs = AppInputs::new(
            warpgate_url.as_str(),
            warpgate_token.as_str(),
            warpgate_username.as_str(),
            warpgate_port.as_str(),
        );
        App {
            running: true,
            screen,
            modal: None,
            table_targets_selection_state: TableSelection::new(),
            table_connection_selection_state,
            config,
            warpgate_targets: Ok(Vec::new()),
            loading_targets: true,
            selected_target: None,
            update_available: None,
            group_filter: None,
            group_picker_rows: Vec::new(),
            group_picker_matches: Vec::new(),
            table_group_picker_state: TableSelection::new(),
            ui_inputs,
            warpgate_selected_input: WarpgateSettingsScreenInput::Url,
            filtered_targets: Vec::new(),
            total_ssh_targets: 0,
            warpgate_host,
            skip_update,
            outcome: Outcome::Quit,
        }
    }

    /// The events the client queues as it starts: a fetch of the targets, whatever screen it
    /// opens on, then an update check unless that was switched off.
    pub fn startup_events(&self) -> (events: Vec<AppEvent>)
        ensures
            events@.len() == if self.skip_update { 1int } else { 2int },
            events@[0] is RefreshTargets,
            !self.skip_update ==> events@[1] is CheckForUpdate,
    {
        let mut events: Vec<AppEvent> = Vec::new();
        events.push(AppEvent::RefreshTargets);
        if !self.skip_update {
            events.push(AppEvent::CheckForUpdate);
        }
        events
    }

    /// The outcome once the client has stopped.
    pub fn into_outcome(self) -> (o: Outcome)
        ensures
            o == self.outcome,
    {
        self.outcome
    }

    /// Filters and ranks the targets anew.
    pub fn recalculate_filtered_targets(&mut self)
        ensures
            filtered_recalculated(*old(self), *final(self)),
    {
        let empty: Vec<WarpgateTarget> = Vec::new();
        let query = first_line(&self.ui_inputs.search_input);
        let targets: &[WarpgateTarget] = match &self.warpgate_targets {
            Ok(v) => v.as_slice(),
            Err(_) => empty.as_slice(),
        };
        let total = count_ssh_targets(targets);
        let group: Option<&WarpgateTargetGroup> = match &self.group_filter {
            Some(g) => Some(g),
            None => None,
        };
        let filtered = filter_targets(targets, group, query.as_str());
        self.total_ssh_targets = total;
        self.filtered_targets = filtered;
        let len = self.filtered_targets.len();
        clamp_selection(&mut self.table_targets_selection_state, len);
    }

    /// Resolves the highlighted target against the config into something `main` can spawn.
    pub fn build_outcome(&self, connection_type: ConnectionType) -> (o: Outcome)
        ensures
            is_outcome_for(o, *self, connection_type),
    {
        let target = match &self.selected_target {
            Some(t) => t,
            None => return Outcome::Quit,
        };
        let host = match &self.config.warpgate_api_url {
            Some(url) => get_domain_from_warpgate_url(url.as_str()),
            None => None,
        };
        let port = match self.config.warpgate_port {
            Some(p) => p,
            None => DEFAULT_WARPGATE_PORT,
        };
        match (&self.config.warpgate_username, host) {
            (Some(username), Some(host)) => Outcome::Connect(Connection {
                ssh_username: warpgate_ssh_username(username.as_str(), target.name.as_str()),
                target_name: target.name.clone(),
                connection_type,
                host,
                port,
            }),
            _ => Outcome::MissingConfiguration,
        }
    }
}


/// The input a key press lands in.
#[derive(Debug, Clone, Copy, PartialEq, Eq, Structural)]
pub enum InputSlot {
    Search,
    GroupPicker,
    Url,
    Username,
    Token,
    Port,
}

pub open spec fn settings_slot(input: WarpgateSettingsScreenInput) -> InputSlot {
    match input {
        WarpgateSettingsScreenInput::Url => InputSlot::Url,
        WarpgateSettingsScreenInput::Username => InputSlot::Username,
        WarpgateSettingsScreenInput::Token => InputSlot::Token,
        WarpgateSettingsScreenInput::Port => InputSlot::Port,
    }
}

/// The one text input a keystroke should land in: the group picker's while it is open, else
/// the search on the targets screen and the selected field on the settings screen.
pub open spec fn focused_slot(a: App) -> Option<InputSlot> {
    if a.modal == Some(Modal::GroupPicker) {
        Some(InputSlot::GroupPicker)
    } else {
        match a.screen {
            AppScreen::Targets => Some(InputSlot::Search),
            AppScreen::Settings => Some(settings_slot(a.warpgate_selected_input)),
            AppScreen::Logs => None,
        }
    }
}

pub open spec fn input_at(a: App, slot: InputSlot) -> TextInput {
    match slot {
        InputSlot::Search => a.ui_inputs.search_input,
        InputSlot::GroupPicker => a.ui_inputs.group_picker_input,
        InputSlot::Url => a.ui_inputs.warpgate_url_input,
        InputSlot::Username => a.ui_inputs.warpgate_username_input,
        InputSlot::Token => a.ui_inputs.warpgate_token_input,
        InputSlot::Port => a.ui_inputs.warpgate_port_input,
    }
}

/// `a` with the input in `slot` replaced.
pub open spec fn with_input(a: App, slot: InputSlot, t: TextInput) -> App {
    let i = a.ui_inputs;
    App {
        ui_inputs: match slot {
            InputSlot::Search => AppInputs { search_input: t, ..i },
            InputSlot::GroupPicker => AppInputs { group_picker_input: t, ..i },
            InputSlot::Url => AppInputs { warpgate_url_input: t, ..i },
            InputSlot::Username => AppInputs { warpgate_username_input: t, ..i },
            InputSlot::Token => AppInputs { warpgate_token_input: t, ..i },
            InputSlot::Port => AppInputs { warpgate_port_input: t, ..i },
        },
        ..a
    }
}

/// What `TextArea::select_all` does, as `text_area_select_all` states it.
pub open spec fn select_all_effect(before: TextInput, after: TextInput) -> bool {
    &&& text_area_wf(after)
    &&& text_area_lines(after) == text_area_lines(before)
    &&& text_area_selection(after) == Some((0nat, 0nat))
    &&& text_area_cursor(after) == select_all_cursor(text_area_lines(before))
}

/// What clearing an input does, as `clear_text_area` states it.
pub open spec fn clear_effect(before: TextInput, after: TextInput) -> bool {
    &&& text_area_wf(after)
    &&& text_area_selection(after) is None
    &&& text_area_lines(before).len() <= 65536 && text_area_lines(before).last().len() <= 65535 ==> {
        &&& text_area_lines(after) == seq![Seq::<char>::empty()]
        &&& text_area_cursor(after) == (0nat, 0nat)
    }
}

/// The key a text input receives for a key press, if any: characters typed without Control,
/// the arrows left and right, and Backspace.
pub open spec fn edit_key_of(key: KeyEvent) -> Option<EditKey> {
    match key.code {
        KeyCode::Char(c) => if key.modifiers.control { None } else { Some(EditKey::Char(c)) },
        KeyCode::Left => Some(EditKey::Left),
        KeyCode::Right => Some(EditKey::Right),
        KeyCode::Backspace => Some(EditKey::Backspace),
        _ => None,
    }
}

/// `Ctrl+A` selects the whole of the focused input.
pub open spec fn is_select_all_key(key: KeyEvent) -> bool {
    key.code == KeyCode::Char('a') && key.modifiers.control
}

/// What a key press does to the focused text input, and what it recomputes. `Ctrl+A` selects
/// all; characters typed without Control, the arrows left and right and Backspace go to the
/// input, with Control passed on only for the arrows. Only the keys that edit the text rank
/// again: the group picker's rows while it is open, else the targets on the targets screen.
/// Anything else, or a screen without an input, leaves the client as it was.
pub open spec fn input_key_spec(a: App, b: App, key: KeyEvent) -> bool {
    match focused_slot(a) {
        None => b == a,
        Some(slot) => if is_select_all_key(key) {
            &&& b == with_input(a, slot, input_at(b, slot))
            &&& select_all_effect(input_at(a, slot), input_at(b, slot))
        } else {
            match edit_key_of(key) {
                None => b == a,
                Some(k) => {
                    let ctrl = key.modifiers.control && (k is Left || k is Right);
                    let mid = with_input(a, slot, input_at(b, slot));
                    &&& text_input_effect(input_at(a, slot), input_at(b, slot), k, ctrl, key.modifiers.alt, key.modifiers.shift)
                    &&& if k is Char || k is Backspace {
                        if a.modal == Some(Modal::GroupPicker) {
                            group_matches_recalculated(mid, b)
                        } else if a.screen == AppScreen::Targets {
                            filtered_recalculated(mid, b)
                        } else {
                            b == mid
                        }
                    } else {
                        b == mid
                    }
                },
            }
        },
    }
}

/// Where a table navigation key moves the highlight, if it is one: down, up, first, last.
pub open spec fn navigated(s: TableSelection, code: KeyCode) -> Option<TableSelection> {
    match code {
        KeyCode::Down => Some(select_spec(s, Some(next_row(s.selected)))),
        KeyCode::Up => Some(select_spec(s, Some(previous_row(s.selected)))),
        KeyCode::Home => Some(select_spec(s, Some(0usize))),
        KeyCode::End => Some(select_spec(s, Some(usize::MAX))),
        _ => None,
    }
}

pub open spec fn clamped(s: TableSelection, len: usize) -> TableSelection {
    select_spec(s, clamp_spec(s.selected, len))
}

/// What a navigation key does to the table in front: the connect dialog's (whose rows are
/// fixed), the group picker's, or the target list's, the last two kept inside their lists.
pub open spec fn table_key_spec(a: App, b: App, key: KeyEvent) -> bool {
    if a.modal == Some(Modal::Connect) {
        match navigated(a.table_connection_selection_state, key.code) {
            Some(s) => b == (App { table_connection_selection_state: s, ..a }),
            None => b == a,
        }
    } else if a.modal == Some(Modal::GroupPicker) {
        match navigated(a.table_group_picker_state, key.code) {
            Some(s) => b == (App { table_group_picker_state: clamped(s, a.group_picker_matches.len()), ..a }),
            None => b == a,
        }
    } else if a.modal is None && a.screen == AppScreen::Targets {
        match navigated(a.table_targets_selection_state, key.code) {
            Some(s) => b == (App { table_targets_selection_state: clamped(s, a.filtered_targets.len()), ..a }),
            None => b == a,
        }
    } else {
        b == a
    }
}

/// A fetch request agrees with what the settings allow.
pub open spec fn fetch_result_matches(r: Result<FetchRequest, FetchError>, config: AppConfig) -> bool {
    match r {
        Ok(req) => fetch_request_spec(config) == Ok::<(String, String), FetchError>((req.url, req.token)),
        Err(e) => fetch_request_spec(config) == Err::<(String, String), FetchError>(e),
    }
}

/// What each event does to the client, and the work it hands out.
pub open spec fn app_event_spec(a: App, b: App, event: AppEvent, task: Option<Task>) -> bool {
    match event {
        AppEvent::Quit => b == (App { running: false, ..a }) && task is None,
        AppEvent::TargetSelected => {
            &&& task is None
            &&& match a.table_targets_selection_state.selected {
                Some(i) => if i < a.filtered_targets.len() {
                    b == (App {
                        selected_target: Some(a.filtered_targets@[i as int].target),
                        table_connection_selection_state: select_spec(a.table_connection_selection_state, Some(0usize)),
                        modal: Some(Modal::Connect),
                        ..a
                    })
                } else {
                    b == a
                },
                None => b == a,
            }
        },
        AppEvent::ConnectionTypeSelected(connection_type) => {
            &&& task is None
            &&& is_outcome_for(b.outcome, a, connection_type)
            &&& b == (App { outcome: b.outcome, running: false, ..a })
        },
        AppEvent::RefreshTargets => {
            &&& b == (App { loading_targets: true, ..a })
            &&& task matches Some(Task::FetchTargets(r)) && fetch_result_matches(r, a.config)
        },
        AppEvent::TargetsFetched(result) => {
            &&& task is None
            &&& filtered_recalculated(App { loading_targets: false, warpgate_targets: result, ..a }, b)
        },
        AppEvent::CheckForUpdate => b == a && task matches Some(Task::CheckForUpdate),
        AppEvent::UpdateAvailable(version) => b == (App { update_available: Some(version), ..a }) && task is None,
        AppEvent::TriggerUpdate => b == (App { outcome: Outcome::Update, running: false, ..a }) && task is None,
        AppEvent::ConfigSaved => {
            &&& b == (App { screen: AppScreen::Targets, loading_targets: true, ..a })
            &&& task matches Some(Task::FetchTargets(r)) && fetch_result_matches(r, a.config)
        },
    }
}

/// What a key does in the connect dialog: `Enter` confirms the highlighted connection type,
/// the navigation keys move the highlight.
pub open spec fn connection_key_spec(a: App, b: App, key: KeyEvent, cmds: Seq<Command>) -> bool {
    if key.code == KeyCode::Enter {
        &&& b == a
        &&& match a.table_connection_selection_state.selected {
            Some(i) => match ConnectionType::from_row_spec(i) {
                Some(ct) => cmds.len() == 1 && (cmds[0] matches Command::Send(AppEvent::ConnectionTypeSelected(t)) && t == ct),
                None => cmds.len() == 0,
            },
            None => cmds.len() == 0,
        }
    } else {
        table_key_spec(a, b, key) && cmds.len() == 0
    }
}

impl App {
    /// Set running to false to quit the application.
    pub fn quit(&mut self)
        ensures
            *final(self) == (App { running: false, ..*old(self) }),
    {
        self.running = false;
    }

    /// Handles an event the loop took from its queue, and names the work to start outside it.
    pub fn handle_app_event(&mut self, event: AppEvent) -> (task: Option<Task>)
        requires
            old(self).wf(),
        ensures
            final(self).wf(),
            app_event_spec(*old(self), *final(self), event, task),
    {
        match event {
            AppEvent::Quit => {
                self.quit();
                None
            },
            AppEvent::TargetSelected => {
                match self.table_targets_selection_state.selected {
                    Some(index) => {
                        if index < self.filtered_targets.len() {
                            let target = self.filtered_targets[index].target.duplicate();
                            self.selected_target = Some(target);
                            self.table_connection_selection_state.select_first();
                            self.modal = Some(Modal::Connect);
                        }
                    },
                    None => {},
                }
                None
            },
            AppEvent::ConnectionTypeSelected(connection_type) => {
                self.outcome = self.build_outcome(connection_type);
                self.quit();
                None
            },
            AppEvent::RefreshTargets => {
                self.loading_targets = true;
                Some(Task::FetchTargets(self.config.fetch_request()))
            },
            AppEvent::TargetsFetched(result) => {
                self.loading_targets = false;
                self.warpgate_targets = result;
                self.recalculate_filtered_targets();
                None
            },
            AppEvent::CheckForUpdate => Some(Task::CheckForUpdate),
            AppEvent::UpdateAvailable(version) => {
                self.update_available = Some(version);
                None
            },
            AppEvent::TriggerUpdate => {
                self.outcome = Outcome::Update;
                self.quit();
                None
            },
            AppEvent::ConfigSaved => {
                self.screen = AppScreen::Targets;
                self.loading_targets = true;
                Some(Task::FetchTargets(self.config.fetch_request()))
            },
        }
    }

    /// The input a keystroke should land in, if any.
    pub fn focused_input(&self) -> (slot: Option<InputSlot>)
        ensures
            slot == focused_slot(*self),
    {
        if self.modal == Some(Modal::GroupPicker) {
            return Some(InputSlot::GroupPicker);
        }
        match self.screen {
            AppScreen::Targets => Some(InputSlot::Search),
            AppScreen::Settings => Some(match self.warpgate_selected_input {
                WarpgateSettingsScreenInput::Url => InputSlot::Url,
                WarpgateSettingsScreenInput::Username => InputSlot::Username,
                WarpgateSettingsScreenInput::Token => InputSlot::Token,
                WarpgateSettingsScreenInput::Port => InputSlot::Port,
            }),
            AppScreen::Logs => None,
        }
    }

    fn select_all_in(&mut self, slot: InputSlot)
        requires
            old(self).wf(),
        ensures
            final(self).wf(),
            *final(self) == with_input(*old(self), slot, input_at(*final(self), slot)),
            select_all_effect(input_at(*old(self), slot), input_at(*final(self), slot)),
    {
        match slot {
            InputSlot::Search => text_area_select_all(&mut self.ui_inputs.search_input),
            InputSlot::GroupPicker => text_area_select_all(&mut self.ui_inputs.group_picker_input),
            InputSlot::Url => text_area_select_all(&mut self.ui_inputs.warpgate_url_input),
            InputSlot::Username => text_area_select_all(&mut self.ui_inputs.warpgate_username_input),
            InputSlot::Token => text_area_select_all(&mut self.ui_inputs.warpgate_token_input),
            InputSlot::Port => text_area_select_all(&mut self.ui_inputs.warpgate_port_input),
        }
    }

    fn input_in(&mut self, slot: InputSlot, key: EditKey, ctrl: bool, alt: bool, shift: bool)
        requires
            old(self).wf(),
        ensures
            final(self).wf(),
            *final(self) == with_input(*old(self), slot, input_at(*final(self), slot)),
            text_input_effect(input_at(*old(self), slot), input_at(*final(self), slot), key, ctrl, alt, shift),
    {
        match slot {
            InputSlot::Search => text_area_input(&mut self.ui_inputs.search_input, key, ctrl, alt, shift),
            InputSlot::GroupPicker => text_area_input(&mut self.ui_inputs.group_picker_input, key, ctrl, alt, shift),
            InputSlot::Url => text_area_input(&mut self.ui_inputs.warpgate_url_input, key, ctrl, alt, shift),
            InputSlot::Username => text_area_input(&mut self.ui_inputs.warpgate_username_input, key, ctrl, alt, shift),
            InputSlot::Token => text_area_input(&mut self.ui_inputs.warpgate_token_input, key, ctrl, alt, shift),
            InputSlot::Port => text_area_input(&mut self.ui_inputs.warpgate_port_input, key, ctrl, alt, shift),
        }
    }

    /// Ranks the group picker's rows anew against its query.
    pub fn recalculate_group_picker_matches(&mut self)
        ensures
            group_matches_recalculated(*old(self), *final(self)),
    {
        let query = first_line(&self.ui_inputs.group_picker_input);
        let mut labels: Vec<String> = Vec::new();
        let mut i: usize = 0;
        while i < self.group_picker_rows.len()
            invariant
                i <= self.group_picker_rows@.len(),
                labels@.len() == i,
                views(labels@) == row_labels(self.group_picker_rows@.subrange(0, i as int)),
            decreases self.group_picker_rows@.len() - i,
        {
            proof {
                reveal_strlit("all");
            }
            let label = match &self.group_picker_rows[i].group {
                Some(group) => group.name.clone(),
                None => String::from_str("all"),
            };
            assert(label@ == row_label(self.group_picker_rows@[i as int]));
            let ghost before = labels@;
            labels.push(label);
            assert(views(labels@) =~= row_labels(self.group_picker_rows@.subrange(0, i + 1))) by {
                assert forall|k: int| 0 <= k < labels@.len() implies views(labels@)[k] == row_labels(self.group_picker_rows@.subrange(0, i + 1))[k] by {
                    if k < i {
                        assert(labels@[k] == before[k]);
                        assert(views(before)[k] == row_labels(self.group_picker_rows@.subrange(0, i as int))[k]);
                    }
                }
            }
            i = i + 1;
        }
        assert(self.group_picker_rows@.subrange(0, self.group_picker_rows@.len() as int) =~= self.group_picker_rows@);
        assert(labels@.len() == self.group_picker_rows@.len());
        self.group_picker_matches = rank_names(&labels, query.as_str());
        let len = self.group_picker_matches.len();
        clamp_selection(&mut self.table_group_picker_state, len);
    }

    /// Sends a key to the focused text input, and ranks again where it edited the text.
    pub fn handle_input(&mut self, key_event: KeyEvent)
        requires
            old(self).wf(),
        ensures
            final(self).wf(),
            input_key_spec(*old(self), *final(self), key_event),
    {
        let control = key_event.modifiers.control;
        let slot = match self.focused_input() {
            Some(slot) => slot,
            None => return,
        };
        let is_select_all = match key_event.code {
            KeyCode::Char(c) => c == 'a' && control,
            _ => false,
        };
        if is_select_all {
            self.select_all_in(slot);
            return;
        }
        let key = match key_event.code {
            KeyCode::Char(c) => {
                if control {
                    return;
                }
                EditKey::Char(c)
            },
            KeyCode::Left => EditKey::Left,
            KeyCode::Right => EditKey::Right,
            KeyCode::Backspace => EditKey::Backspace,
            _ => return,
        };
        let moves = match key {
            EditKey::Left | EditKey::Right => true,
            _ => false,
        };
        self.input_in(slot, key, control && moves, key_event.modifiers.alt, key_event.modifiers.shift);
        if moves {
            return;
        }
        if self.modal == Some(Modal::GroupPicker) {
            self.recalculate_group_picker_matches();
            return;
        }
        match self.screen {
            AppScreen::Targets => self.recalculate_filtered_targets(),
            _ => {},
        }
    }

    /// Moves the highlight of the table in front with the navigation keys.
    pub fn handle_table_input(&mut self, key_event: KeyEvent)
        ensures
            table_key_spec(*old(self), *final(self), key_event),
    {
        let is_nav = match key_event.code {
            KeyCode::Down | KeyCode::Up | KeyCode::Home | KeyCode::End => true,
            _ => false,
        };
        if !is_nav {
            return;
        }
        if self.modal == Some(Modal::Connect) {
            navigate(&mut self.table_connection_selection_state, key_event.code);
        } else if self.modal == Some(Modal::GroupPicker) {
            navigate(&mut self.table_group_picker_state, key_event.code);
            let len = self.group_picker_matches.len();
            clamp_selection(&mut self.table_group_picker_state, len);
        } else if self.modal.is_none() && self.screen == AppScreen::Targets {
            navigate(&mut self.table_targets_selection_state, key_event.code);
            let len = self.filtered_targets.len();
            clamp_selection(&mut self.table_targets_selection_state, len);
        }
    }

    /// Keys of the connect dialog: `Enter` confirms the highlighted connection type.
    pub fn handle_key_connection_type(&mut self, key_event: KeyEvent) -> (cmds: Vec<Command>)
        ensures
            connection_key_spec(*old(self), *final(self), key_event, cmds@),
    {
        let mut cmds: Vec<Command> = Vec::new();
        match key_event.code {
            KeyCode::Enter => {
                let selected = match self.table_connection_selection_state.selected {
                    Some(index) => ConnectionType::from_row(index),
                    None => None,
                };
                match selected {
                    Some(connection_type) => cmds.push(Command::Send(AppEvent::ConnectionTypeSelected(connection_type))),
                    None => {},
                }
            },
            _ => self.handle_table_input(key_event),
        }
        cmds
    }
}

/// Moves a table's highlight for a navigation key.
fn navigate(state: &mut TableSelection, code: KeyCode)
    requires
        navigated(*old(state), code) is Some,
    ensures
        navigated(*old(state), code) == Some(*final(state)),
{
    match code {
        KeyCode::Down => state.select_next(),
        KeyCode::Up => state.select_previous(),
        KeyCode::Home => state.select_first(),
        _ => state.select_last(),
    }
}


/// A group picker row stands for the current filter: the `all` row for no filter, otherwise the
/// row of the group with the filter's name.
pub open spec fn is_current_row(r: GroupRow, filter: Option<WarpgateTargetGroup>) -> bool {
    match (r.group, filter) {
        (None, None) => true,
        (Some(g), Some(f)) => g.name@ == f.name@,
        _ => false,
    }
}

/// The first row that stands for the current filter, if any.
pub open spec fn first_current(rows: Seq<GroupRow>, filter: Option<WarpgateTargetGroup>) -> Option<nat>
    decreases rows.len(),
{
    if rows.len() == 0 {
        None
    } else {
        match first_current(rows.drop_last(), filter) {
            Some(i) => Some(i),
            None => if is_current_row(rows.last(), filter) {
                Some((rows.len() - 1) as nat)
            } else {
                None
            },
        }
    }
}

/// The first position of `v` in `s`, if it occurs.
pub open spec fn first_position(s: Seq<usize>, v: usize) -> Option<nat>
    decreases s.len(),
{
    if s.len() == 0 {
        None
    } else {
        match first_position(s.drop_last(), v) {
            Some(i) => Some(i),
            None => if s.last() == v {
                Some((s.len() - 1) as nat)
            } else {
                None
            },
        }
    }
}

/// The group picker's rows: the `all` row with every SSH target, then one row per group of
/// SSH targets, sorted by name, with how many there are.
pub open spec fn picker_rows_spec(rows: Seq<GroupRow>, ts: Seq<WarpgateTarget>) -> bool {
    &&& rows.len() >= 1
    &&& rows[0].group is None
    &&& rows[0].count == count_ssh(ts)
    &&& is_group_tally(rows.subrange(1, rows.len() as int), ssh_groups(ts))
}

/// Opening the group picker: its rows counted from the targets, its query cleared, its rows
/// ranked against that query, the row of the current filter highlighted where it is among the
/// matches (else the first match), and the picker shown.
pub open spec fn open_group_picker_spec(a: App, b: App) -> bool {
    let current: nat = match first_current(b.group_picker_rows@, a.group_filter) {
        Some(i) => i,
        None => 0,
    };
    let position: usize = match first_position(b.group_picker_matches@, current as usize) {
        Some(p) => p as usize,
        None => 0,
    };
    &&& picker_rows_spec(b.group_picker_rows@, targets_or_empty(a.warpgate_targets))
    &&& clear_effect(a.ui_inputs.group_picker_input, b.ui_inputs.group_picker_input)
    &&& b.group_picker_matches@ == fuzzy_rank(row_labels(b.group_picker_rows@), group_query(b))
    &&& is_score_ranking(b.group_picker_matches@, row_labels(b.group_picker_rows@), group_query(b))
    &&& is_blank_query(group_query(b)) ==> b.group_picker_matches@ == identity_order(b.group_picker_rows@.len())
    &&& b.table_group_picker_state == select_spec(
        clamped(a.table_group_picker_state, b.group_picker_matches.len()),
        Some(position),
    )
    &&& b == (App {
        group_picker_rows: b.group_picker_rows,
        ui_inputs: AppInputs { group_picker_input: b.ui_inputs.group_picker_input, ..a.ui_inputs },
        group_picker_matches: b.group_picker_matches,
        table_group_picker_state: b.table_group_picker_state,
        modal: Some(Modal::GroupPicker),
        ..a
    })
}

/// Confirming the group picker: the highlighted row's group becomes the filter and the targets
/// are filtered anew; without a highlighted row nothing happens.
pub open spec fn apply_group_spec(a: App, b: App) -> bool {
    match a.table_group_picker_state.selected {
        Some(p) => if p < a.group_picker_matches.len() && a.group_picker_matches@[p as int] < a.group_picker_rows.len() {
            filtered_recalculated(
                App { group_filter: a.group_picker_rows@[a.group_picker_matches@[p as int] as int].group, ..a },
                b,
            )
        } else {
            b == a
        },
        None => b == a,
    }
}

/// Keys of the group picker: `Enter` applies the highlighted group and closes the picker;
/// other keys move the highlight and then go to the picker's query.
pub open spec fn group_picker_key_spec(a: App, b: App, key: KeyEvent) -> bool {
    if key.code == KeyCode::Enter {
        apply_group_spec(a, App { modal: a.modal, ..b }) && b.modal is None
    } else {
        exists|mid: App| table_key_spec(a, mid, key) && input_key_spec(mid, b, key)
    }
}

/// Keys while a dialog is open: `Esc` closes it; otherwise the dialog handles the key.
pub open spec fn modal_key_spec(a: App, b: App, modal: Modal, key: KeyEvent, cmds: Seq<Command>) -> bool {
    if key.code == KeyCode::Esc {
        b == (App { modal: None, ..a }) && cmds.len() == 0
    } else {
        match modal {
            Modal::Connect => connection_key_spec(a, b, key, cmds),
            Modal::GroupPicker => group_picker_key_spec(a, b, key) && cmds.len() == 0,
            Modal::Help => b == a && cmds.len() == 0,
        }
    }
}

/// Keys of the targets screen: `Ctrl+G` opens the group picker, `Esc` clears the search,
/// `Enter` asks to connect to the highlighted target, and other keys move the highlight and
/// then go to the search input.
pub open spec fn targets_key_spec(a: App, b: App, key: KeyEvent, cmds: Seq<Command>) -> bool {
    if (key.code == KeyCode::Char('g') || key.code == KeyCode::Char('G')) && key.modifiers.control {
        open_group_picker_spec(a, b) && cmds.len() == 0
    } else if key.code == KeyCode::Esc {
        &&& clear_effect(a.ui_inputs.search_input, b.ui_inputs.search_input)
        &&& filtered_recalculated(with_input(a, InputSlot::Search, b.ui_inputs.search_input), b)
        &&& cmds.len() == 0
    } else if key.code == KeyCode::Enter {
        b == a && cmds.len() == 1 && cmds[0] matches Command::Send(AppEvent::TargetSelected)
    } else {
        &&& exists|mid: App| table_key_spec(a, mid, key) && input_key_spec(mid, b, key)
        &&& cmds.len() == 0
    }
}

/// Taking the settings from the inputs: each field takes the trimmed contents of its input, a
/// blank one becoming `None` and a port that does not parse too, and the host is derived from
/// the new URL. The screen stays until the front end reports the settings written.
pub open spec fn settings_saved_spec(a: App, b: App) -> bool {
    let url = trimmed_spec(first_line_spec(text_area_lines(a.ui_inputs.warpgate_url_input)));
    let token = trimmed_spec(first_line_spec(text_area_lines(a.ui_inputs.warpgate_token_input)));
    let username = trimmed_spec(first_line_spec(text_area_lines(a.ui_inputs.warpgate_username_input)));
    let port_text = trimmed_spec(first_line_spec(text_area_lines(a.ui_inputs.warpgate_port_input)));
    &&& b == (App { config: b.config, warpgate_host: b.warpgate_host, ..a })
    &&& opt_view(b.config.warpgate_api_url) == url
    &&& opt_view(b.config.warpgate_token) == token
    &&& opt_view(b.config.warpgate_username) == username
    &&& b.config.warpgate_port == match port_text {
        Some(p) => parse_u16_spec(p),
        None => None,
    }
    &&& b.config.path == a.config.path
    &&& b.warpgate_host@ == match url {
        Some(u) => opt_or_empty(domain_spec(u)),
        None => Seq::empty(),
    }
}

/// Keys of the settings screen: `Enter` takes the settings from the inputs and asks for them to
/// be saved (the client moves on once `ConfigSaved` reports the save done), `Esc` goes back
/// without saving, `Tab`/`Down` and `Shift+Tab`/`Up` walk the fields, and other keys go to the
/// selected field.
pub open spec fn settings_key_spec(a: App, b: App, key: KeyEvent, cmds: Seq<Command>) -> bool {
    if key.code == KeyCode::Enter {
        &&& settings_saved_spec(a, b)
        &&& cmds.len() == 1
        &&& cmds[0] is SaveConfig
    } else if key.code == KeyCode::Esc {
        b == (App { screen: AppScreen::Targets, ..a }) && cmds.len() == 0
    } else if key.code == KeyCode::Down || key.code == KeyCode::Tab {
        b == (App { warpgate_selected_input: cycled_input(a.warpgate_selected_input, true), ..a }) && cmds.len() == 0
    } else if key.code == KeyCode::Up || key.code == KeyCode::BackTab {
        b == (App { warpgate_selected_input: cycled_input(a.warpgate_selected_input, false), ..a }) && cmds.len() == 0
    } else {
        input_key_spec(a, b, key) && cmds.len() == 0
    }
}

pub open spec fn is_char_key(key: KeyEvent, lower: char, upper: char) -> bool {
    key.code == KeyCode::Char(lower) || key.code == KeyCode::Char(upper)
}

/// What any key press does. `F1` toggles the key reference anywhere. The shortcuts sit behind
/// Control so that every printable character stays available to the inputs: `Ctrl+C`/`Ctrl+Q`
/// quit, `Ctrl+R` refreshes, `Ctrl+N` cycles the screens while no dialog is open, and `Ctrl+U`
/// updates where an update is available. Other keys go to the open dialog, else to the screen.
pub open spec fn global_key_spec(a: App, b: App, key: KeyEvent, cmds: Seq<Command>) -> bool {
    let control = key.modifiers.control;
    if key.code == KeyCode::F(1) {
        b == (App { modal: if a.modal == Some(Modal::Help) { None } else { Some(Modal::Help) }, ..a })
            && cmds.len() == 0
    } else if control && (is_char_key(key, 'c', 'C') || is_char_key(key, 'q', 'Q')) {
        b == a && cmds.len() == 1 && cmds[0] matches Command::Send(AppEvent::Quit)
    } else if control && is_char_key(key, 'r', 'R') {
        b == a && cmds.len() == 1 && cmds[0] matches Command::Send(AppEvent::RefreshTargets)
    } else if control && is_char_key(key, 'n', 'N') && a.modal is None {
        b == (App { screen: next_screen(a.screen), ..a }) && cmds.len() == 0
    } else if control && is_char_key(key, 'u', 'U') {
        &&& b == a
        &&& if a.update_available is Some {
            cmds.len() == 1 && cmds[0] matches Command::Send(AppEvent::TriggerUpdate)
        } else {
            cmds.len() == 0
        }
    } else {
        match a.modal {
            Some(m) => modal_key_spec(a, b, m, key, cmds),
            None => match a.screen {
                AppScreen::Targets => targets_key_spec(a, b, key, cmds),
                AppScreen::Settings => settings_key_spec(a, b, key, cmds),
                AppScreen::Logs => b == a && cmds.len() == 0,
            },
        }
    }
}

impl App {
    /// Opens the group picker over the targets screen.
    pub fn open_group_picker(&mut self)
        requires
            old(self).wf(),
        ensures
            final(self).wf(),
            open_group_picker_spec(*old(self), *final(self)),
    {
        let empty: Vec<WarpgateTarget> = Vec::new();
        let targets: &[WarpgateTarget] = match &self.warpgate_targets {
            Ok(v) => v.as_slice(),
            Err(_) => empty.as_slice(),
        };
        let total = count_ssh_targets(targets);
        let mut counted = count_groups(targets);
        let mut rows: Vec<GroupRow> = Vec::new();
        rows.push(GroupRow { group: None, count: total });
        let ghost counted_before = counted@;
        rows.append(&mut counted);
        assert(rows@.subrange(1, rows@.len() as int) =~= counted_before);
        self.group_picker_rows = rows;
        clear_text_area(&mut self.ui_inputs.group_picker_input);
        self.recalculate_group_picker_matches();

        let mut current: usize = 0;
        let mut found = false;
        let mut r: usize = 0;
        while r < self.group_picker_rows.len() && !found
            invariant
                r <= self.group_picker_rows@.len(),
                !found ==> first_current(self.group_picker_rows@.subrange(0, r as int), self.group_filter) is None,
                !found ==> current == 0,
                found ==> first_current(self.group_picker_rows@, self.group_filter) == Some(current as nat),
            decreases self.group_picker_rows@.len() - r + if found { 0int } else { 1int },
        {
            let row = &self.group_picker_rows[r];
            let is_current = match (&row.group, &self.group_filter) {
                (None, None) => true,
                (Some(g), Some(f)) => g.name == f.name,
                _ => false,
            };
            let ghost prefix = self.group_picker_rows@.subrange(0, r + 1);
            assert(prefix.drop_last() =~= self.group_picker_rows@.subrange(0, r as int));
            assert(prefix.last() == self.group_picker_rows@[r as int]);
            if is_current {
                proof {
                    lemma_first_current_extends(self.group_picker_rows@, r as int, self.group_filter);
                }
                current = r;
                found = true;
            } else {
                r = r + 1;
            }
        }
        if !found {
            assert(self.group_picker_rows@.subrange(0, r as int) =~= self.group_picker_rows@);
        }

        let mut position: usize = 0;
        let mut found_position = false;
        let mut m: usize = 0;
        while m < self.group_picker_matches.len() && !found_position
            invariant
                m <= self.group_picker_matches@.len(),
                !found_position ==> first_position(self.group_picker_matches@.subrange(0, m as int), current) is None,
                !found_position ==> position == 0,
                found_position ==> first_position(self.group_picker_matches@, current) == Some(position as nat),
            decreases self.group_picker_matches@.len() - m + if found_position { 0int } else { 1int },
        {
            let ghost prefix = self.group_picker_matches@.subrange(0, m + 1);
            assert(prefix.drop_last() =~= self.group_picker_matches@.subrange(0, m as int));
            assert(prefix.last() == self.group_picker_matches@[m as int]);
            if self.group_picker_matches[m] == current {
                proof {
                    lemma_first_position_extends(self.group_picker_matches@, m as int, current);
                }
                position = m;
                found_position = true;
            } else {
                m = m + 1;
            }
        }
        if !found_position {
            assert(self.group_picker_matches@.subrange(0, m as int) =~= self.group_picker_matches@);
        }
        self.table_group_picker_state.select(Some(position));
        self.modal = Some(Modal::GroupPicker);
    }

    /// Applies the highlighted group as the filter.
    pub fn apply_group_picker_selection(&mut self)
        ensures
            apply_group_spec(*old(self), *final(self)),
    {
        let position = match self.table_group_picker_state.selected {
            Some(p) => p,
            None => return,
        };
        if position >= self.group_picker_matches.len() {
            return;
        }
        let index = self.group_picker_matches[position];
        if index >= self.group_picker_rows.len() {
            return;
        }
        self.group_filter = copy_opt_group(&self.group_picker_rows[index].group);
        self.recalculate_filtered_targets();
    }

    pub fn handle_key_group_picker(&mut self, key_event: KeyEvent)
        requires
            old(self).wf(),
        ensures
            final(self).wf(),
            group_picker_key_spec(*old(self), *final(self), key_event),
    {
        match key_event.code {
            KeyCode::Enter => {
                self.apply_group_picker_selection();
                self.modal = None;
            },
            _ => {
                self.handle_table_input(key_event);
                let ghost mid = *self;
                self.handle_input(key_event);
                assert(table_key_spec(*old(self), mid, key_event) && input_key_spec(mid, *self, key_event));
            },
        }
    }

    fn handle_key_modal(&mut self, modal: Modal, key_event: KeyEvent) -> (cmds: Vec<Command>)
        requires
            old(self).wf(),
        ensures
            final(self).wf(),
            modal_key_spec(*old(self), *final(self), modal, key_event, cmds@),
    {
        if key_event.code == KeyCode::Esc {
            self.modal = None;
            return Vec::new();
        }
        match modal {
            Modal::Connect => self.handle_key_connection_type(key_event),
            Modal::GroupPicker => {
                self.handle_key_group_picker(key_event);
                Vec::new()
            },
            Modal::Help => Vec::new(),
        }
    }

    pub fn handle_key_targets(&mut self, key_event: KeyEvent) -> (cmds: Vec<Command>)
        requires
            old(self).wf(),
        ensures
            final(self).wf(),
            targets_key_spec(*old(self), *final(self), key_event, cmds@),
    {
        let mut cmds: Vec<Command> = Vec::new();
        let control = key_event.modifiers.control;
        let is_group_key = match key_event.code {
            KeyCode::Char(c) => (c == 'g' || c == 'G') && control,
            _ => false,
        };
        if is_group_key {
            self.open_group_picker();
        } else if key_event.code == KeyCode::Esc {
            clear_text_area(&mut self.ui_inputs.search_input);
            self.recalculate_filtered_targets();
        } else if key_event.code == KeyCode::Enter {
            cmds.push(Command::Send(AppEvent::TargetSelected));
        } else {
            self.handle_table_input(key_event);
            let ghost mid = *self;
            self.handle_input(key_event);
            assert(table_key_spec(*old(self), mid, key_event) && input_key_spec(mid, *self, key_event));
        }
        cmds
    }

    /// Walks the settings fields forward or backward, wrapping around.
    pub fn cycle_input(&mut self, forward: bool)
        ensures
            *final(self) == (App { warpgate_selected_input: cycled_input(old(self).warpgate_selected_input, forward), ..*old(self) }),
    {
        let current = self.warpgate_selected_input.index();
        let offset: usize = if forward { 1 } else { 3 };
        self.warpgate_selected_input = WarpgateSettingsScreenInput::from_index((current + offset) % 4);
    }

    fn save_settings(&mut self)
        ensures
            settings_saved_spec(*old(self), *final(self)),
    {
        let url = trimmed_line(&self.ui_inputs.warpgate_url_input);
        let host = match &url {
            Some(u) => match get_domain_from_warpgate_url(u.as_str()) {
                Some(h) => h,
                None => String::new(),
            },
            None => String::new(),
        };
        let port = match trimmed_line(&self.ui_inputs.warpgate_port_input) {
            Some(p) => parse_u16(p.as_str()),
            None => None,
        };
        self.warpgate_host = host;
        self.config.warpgate_api_url = url;
        self.config.warpgate_token = trimmed_line(&self.ui_inputs.warpgate_token_input);
        self.config.warpgate_username = trimmed_line(&self.ui_inputs.warpgate_username_input);
        self.config.warpgate_port = port;
    }

    pub fn handle_key_settings(&mut self, key_event: KeyEvent) -> (cmds: Vec<Command>)
        requires
            old(self).wf(),
        ensures
            final(self).wf(),
            settings_key_spec(*old(self), *final(self), key_event, cmds@),
    {
        let mut cmds: Vec<Command> = Vec::new();
        match key_event.code {
            KeyCode::Enter => {
                self.save_settings();
                cmds.push(Command::SaveConfig);
            },
            KeyCode::Esc => self.screen = AppScreen::Targets,
            KeyCode::Down | KeyCode::Tab => self.cycle_input(true),
            KeyCode::Up | KeyCode::BackTab => self.cycle_input(false),
            _ => self.handle_input(key_event),
        }
        cmds
    }

    /// Handles a key press: changes the client and names what the front end must do.
    pub fn handle_key_global(&mut self, key_event: KeyEvent) -> (cmds: Vec<Command>)
        requires
            old(self).wf(),
        ensures
            final(self).wf(),
            global_key_spec(*old(self), *final(self), key_event, cmds@),
    {
        let mut cmds: Vec<Command> = Vec::new();
        if key_event.code == KeyCode::F(1) {
            self.modal = if self.modal == Some(Modal::Help) { None } else { Some(Modal::Help) };
            return cmds;
        }
        if key_event.modifiers.control {
            match key_event.code {
                KeyCode::Char(c) => {
                    if c == 'c' || c == 'C' || c == 'q' || c == 'Q' {
                        cmds.push(Command::Send(AppEvent::Quit));
                        return cmds;
                    }
                    if c == 'r' || c == 'R' {
                        cmds.push(Command::Send(AppEvent::RefreshTargets));
                        return cmds;
                    }
                    if (c == 'n' || c == 'N') && self.modal.is_none() {
                        self.screen = match self.screen {
                            AppScreen::Targets => AppScreen::Settings,
                            AppScreen::Settings => AppScreen::Logs,
                            AppScreen::Logs => AppScreen::Targets,
                        };
                        return cmds;
                    }
                    if c == 'u' || c == 'U' {
                        if self.update_available.is_some() {
                            cmds.push(Command::Send(AppEvent::TriggerUpdate));
                        }
                        return cmds;
                    }
                },
                _ => {},
            }
        }
        match self.modal {
            Some(modal) => self.handle_key_modal(modal, key_event),
            None => match self.screen {
                AppScreen::Targets => self.handle_key_targets(key_event),
                AppScreen::Settings => self.handle_key_settings(key_event),
                AppScreen::Logs => cmds,
            },
        }
    }

    /// The settings input for a field.
    pub fn get_warpgate_input_by_enum(&self, input: WarpgateSettingsScreenInput) -> (t: &TextInput)
        ensures
            *t == input_at(*self, settings_slot(input)),
    {
        match input {
            WarpgateSettingsScreenInput::Url => &self.ui_inputs.warpgate_url_input,
            WarpgateSettingsScreenInput::Token => &self.ui_inputs.warpgate_token_input,
            WarpgateSettingsScreenInput::Username => &self.ui_inputs.warpgate_username_input,
            WarpgateSettingsScreenInput::Port => &self.ui_inputs.warpgate_port_input,
        }
    }
}

proof fn lemma_first_current_extends(rows: Seq<GroupRow>, r: int, filter: Option<WarpgateTargetGroup>)
    requires
        0 <= r < rows.len(),
        first_current(rows.subrange(0, r), filter) is None,
        is_current_row(rows[r], filter),
    ensures
        first_current(rows, filter) == Some(r as nat),
    decreases rows.len() - r,
{
    if r + 1 == rows.len() {
        assert(rows.drop_last() =~= rows.subrange(0, r));
    } else {
        assert(rows.drop_last().subrange(0, r) =~= rows.subrange(0, r));
        assert(rows.drop_last()[r] == rows[r]);
        lemma_first_current_extends(rows.drop_last(), r, filter);
    }
}

proof fn lemma_first_position_extends(s: Seq<usize>, m: int, v: usize)
    requires
        0 <= m < s.len(),
        first_position(s.subrange(0, m), v) is None,
        s[m] == v,
    ensures
        first_position(s, v) == Some(m as nat),
    decreases s.len() - m,
{
    if m + 1 == s.len() {
        assert(s.drop_last() =~= s.subrange(0, m));
    } else {
        assert(s.drop_last().subrange(0, m) =~= s.subrange(0, m));
        assert(s.drop_last()[m] == s[m]);
        lemma_first_position_extends(s.drop_last(), m, v);
    }
}

} // verus!
