//! What the screens show, decided apart from how they are drawn.
use vstd::prelude::*;
use crate::app::App;
use crate::filter::MatchedTarget;
use crate::numbers::{decimal_spec, usize_to_string};
use crate::warpgate::{copy_opt_group, WarpgateTargetGroup};
use crate::text::{ends_with_chars, ends_with_spec, str_chars, str_eq, string_from_chars, trim_chars, trim_spec};

verus! {

/// Where fetching the targets stands, as the header and the footer show it.
#[derive(Debug, Clone, Copy, PartialEq, Eq, Structural)]
pub enum Status {
    Loading,
    Refreshing,
    Ready,
    Error,
}

/// The colour role a status is shown in.
#[derive(Debug, Clone, Copy, PartialEq, Eq, Structural)]
pub enum Tone {
    Warning,
    Success,
    Failure,
}

impl Status {
    pub open spec fn label_spec(self) -> Seq<char> {
        match self {
            Status::Loading => "loading"@,
            Status::Refreshing => "refreshing"@,
            Status::Ready => "ready"@,
            Status::Error => "error"@,
        }
    }

    pub fn label(self) -> (s: &'static str)
        ensures
            s@ == self.label_spec(),
    {
        proof {
            reveal_strlit("loading");
            reveal_strlit("refreshing");
            reveal_strlit("ready");
            reveal_strlit("error");
        }
        match self {
            Status::Loading => "loading",
            Status::Refreshing => "refreshing",
            Status::Ready => "ready",
            Status::Error => "error",
        }
    }

    /// A fetch is under way.
    pub fn is_busy(self) -> (b: bool)
        ensures
            b == (self == Status::Loading || self == Status::Refreshing),
    {
        match self {
            Status::Loading | Status::Refreshing => true,
            _ => false,
        }
    }

    pub fn tone(self) -> (t: Tone)
        ensures
            t == match self {
                Status::Loading | Status::Refreshing => Tone::Warning,
                Status::Ready => Tone::Success,
                Status::Error => Tone::Failure,
            },
    {
        match self {
            Status::Loading | Status::Refreshing => Tone::Warning,
            Status::Ready => Tone::Success,
            Status::Error => Tone::Failure,
        }
    }
}

/// A failed fetch is an error; a running one is refreshing where targets are already shown and
/// loading where none are; otherwise the list is ready.
pub open spec fn status_spec(a: App) -> Status {
    match a.warpgate_targets {
        Err(_) => Status::Error,
        Ok(targets) => if a.loading_targets {
            if targets@.len() > 0 { Status::Refreshing } else { Status::Loading }
        } else {
            Status::Ready
        },
    }
}

pub fn current_status(app: &App) -> (s: Status)
    ensures
        s == status_spec(*app),
{
    let has_cached_targets = match &app.warpgate_targets {
        Err(_) => return Status::Error,
        Ok(targets) => targets.len() > 0,
    };
    if app.loading_targets {
        if has_cached_targets { Status::Refreshing } else { Status::Loading }
    } else {
        Status::Ready
    }
}

/// The colours Warpgate assigns target groups, mapped onto the palette.
#[derive(Debug, Clone, Copy, PartialEq, Eq, Structural)]
pub enum GroupColor {
    Blue,
    Red,
    Yellow,
    Green,
    Gray,
}

pub open spec fn group_color_spec(name: Option<Seq<char>>) -> GroupColor {
    match name {
        Some(n) => if n == "Primary"@ {
            GroupColor::Blue
        } else if n == "Danger"@ {
            GroupColor::Red
        } else if n == "Warning"@ {
            GroupColor::Yellow
        } else if n == "Success"@ {
            GroupColor::Green
        } else {
            GroupColor::Gray
        },
        None => GroupColor::Gray,
    }
}

/// Maps the colour name Warpgate assigns a target group onto the palette.
pub fn group_color(color_name: Option<&str>) -> (c: GroupColor)
    ensures
        c == group_color_spec(match color_name {
            Some(s) => Some(s@),
            None => None,
        }),
{
    match color_name {
        Some(name) => {
            if str_eq(name, "Primary") {
                GroupColor::Blue
            } else if str_eq(name, "Danger") {
                GroupColor::Red
            } else if str_eq(name, "Warning") {
                GroupColor::Yellow
            } else if str_eq(name, "Success") {
                GroupColor::Green
            } else {
                GroupColor::Gray
            }
        },
        None => GroupColor::Gray,
    }
}

pub open spec fn known_path() -> Seq<char> {
    "/@warpgate/api/targets"@
}

pub open spec fn url_warning_spec(url_line: Seq<char>) -> Option<Seq<char>> {
    if ends_with_spec(trim_spec(url_line), known_path()) {
        None
    } else {
        Some("! should end with /@warpgate/api/targets"@)
    }
}

/// Catches the common mistake of entering the Warpgate dashboard URL instead of the API URL:
/// a warning unless the trimmed URL ends with the targets endpoint.
pub fn check_url_for_known_path(url_line: &str) -> (warning: Option<String>)
    ensures
        match warning {
            Some(w) => url_warning_spec(url_line@) == Some(w@),
            None => url_warning_spec(url_line@) is None,
        },
{
    let chars = str_chars(url_line);
    let trimmed = trim_chars(&chars);
    let path = str_chars("/@warpgate/api/targets");
    if ends_with_chars(&trimmed, &path) {
        return None;
    }
    proof {
        reveal_strlit("! should end with /@warpgate/api/targets");
    }
    Some(String::from_str("! should end with /@warpgate/api/targets"))
}

/// The URL input looks usable: it starts with a scheme the client accepts.
pub open spec fn url_input_valid_spec(line: Seq<char>) -> bool {
    let t = trim_spec(line);
    t.len() > 0 && (crate::text::starts_with_spec(t, "http://"@) || crate::text::starts_with_spec(t, "https://"@))
}

/// Whether the URL input looks usable, which colours it.
pub fn url_input_is_valid(line: &str) -> (b: bool)
    ensures
        b == url_input_valid_spec(line@),
{
    proof {
        reveal_strlit("http://");
        reveal_strlit("https://");
    }
    let chars = str_chars(line);
    let trimmed = trim_chars(&chars);
    let http = str_chars("http://");
    let https = str_chars("https://");
    trimmed.len() > 0 && (crate::text::starts_with_chars(&trimmed, &http) || crate::text::starts_with_chars(&trimmed, &https))
}

/// Whether the token input holds anything but whitespace, which colours it.
pub fn token_input_is_valid(line: &str) -> (b: bool)
    ensures
        b == (trim_spec(line@).len() > 0),
{
    let chars = str_chars(line);
    let trimmed = trim_chars(&chars);
    trimmed.len() > 0
}

/// A run of the name whose characters are all matched, or all not.
#[derive(Debug, Clone, PartialEq, Eq)]
pub struct NameRun {
    pub text: String,
    pub matched: bool,
}

/// Whether the character at `position` was matched.
pub open spec fn is_matched_position(indices: Seq<u32>, position: int) -> bool {
    indices.contains(position as u32)
}

/// The texts of the runs, one after the other.
pub open spec fn runs_text(runs: Seq<NameRun>) -> Seq<char>
    decreases runs.len(),
{
    if runs.len() == 0 {
        Seq::empty()
    } else {
        runs_text(runs.drop_last()) + runs.last().text@
    }
}

/// Where run `k` starts in the name.
pub open spec fn run_start(runs: Seq<NameRun>, k: int) -> int {
    runs_text(runs.subrange(0, k)).len() as int
}

/// `runs` splits `name` into maximal runs of matched and unmatched characters.
pub open spec fn is_run_split(runs: Seq<NameRun>, name: Seq<char>, indices: Seq<u32>) -> bool {
    &&& runs_text(runs) == name
    &&& forall|k: int| 0 <= k < runs.len() ==> (#[trigger] runs[k]).text@.len() > 0
    &&& forall|k: int, p: int| 0 <= k < runs.len() && run_start(runs, k) <= p < run_start(runs, k) + runs[k].text@.len()
        ==> (#[trigger] is_matched_position(indices, p)) == (#[trigger] runs[k]).matched
    &&& forall|k: int| 0 < k < runs.len() ==> (#[trigger] runs[k]).matched != runs[k - 1].matched
}

/// Sorted, repeats allowed.
pub open spec fn non_decreasing(s: Seq<u32>) -> bool {
    forall|i: int, j: int| 0 <= i <= j < s.len() ==> s[i] <= s[j]
}

/// Whether `indices` holds `position`, by binary search over the sorted indices.
fn contains_sorted(indices: &Vec<u32>, position: u32) -> (b: bool)
    requires
        non_decreasing(indices@),
    ensures
        b == indices@.contains(position),
{
    let mut lo: usize = 0;
    let mut hi: usize = indices.len();
    while lo < hi
        invariant
            lo <= hi <= indices@.len(),
            non_decreasing(indices@),
            forall|i: int| 0 <= i < lo ==> indices@[i] < position,
            forall|i: int| hi <= i < indices@.len() ==> indices@[i] > position,
        decreases hi - lo,
    {
        let mid = lo + (hi - lo) / 2;
        if indices[mid] == position {
            return true;
        } else if indices[mid] < position {
            lo = mid + 1;
        } else {
            hi = mid;
        }
    }
    proof {
        if indices@.contains(position) {
            let i = choose|i: int| 0 <= i < indices@.len() && indices@[i] == position;
        }
    }
    false
}

proof fn lemma_runs_text_push(runs: Seq<NameRun>, r: NameRun)
    ensures
        runs_text(runs.push(r)) == runs_text(runs) + r.text@,
{
    assert(runs.push(r).drop_last() =~= runs);
}

proof fn lemma_run_start_prefix(runs: Seq<NameRun>, extra: NameRun, k: int)
    requires
        0 <= k <= runs.len(),
    ensures
        run_start(runs.push(extra), k) == run_start(runs, k),
{
    assert(runs.push(extra).subrange(0, k) =~= runs.subrange(0, k));
}

/// Splits a name into the runs that the query's matched positions pick out, so that the matched
/// characters can be drawn apart. Without any matched position the name is one plain run.
/// `indices` are sorted positions, as `filter_targets` reports them.
pub fn highlighted_name(name: &str, name_indices: &Vec<u32>) -> (runs: Vec<NameRun>)
    requires
        non_decreasing(name_indices@),
    ensures
        name_indices@.len() == 0 ==> runs@.len() == 1 && runs@[0].text@ == name@ && !runs@[0].matched,
        name_indices@.len() > 0 ==> is_run_split(runs@, name@, name_indices@),
{
    if name_indices.len() == 0 {
        let mut runs: Vec<NameRun> = Vec::new();
        runs.push(NameRun { text: String::from_str(name), matched: false });
        return runs;
    }
    let chars = str_chars(name);
    let mut runs: Vec<NameRun> = Vec::new();
    let mut run: Vec<char> = Vec::new();
    let mut run_is_matched = false;
    let mut position: usize = 0;
    while position < chars.len()
        invariant
            position <= chars@.len(),
            chars@ == name@,
            non_decreasing(name_indices@),
            runs_text(runs@) + run@ == chars@.subrange(0, position as int),
            forall|k: int| 0 <= k < runs@.len() ==> (#[trigger] runs@[k]).text@.len() > 0,
            forall|k: int, p: int| 0 <= k < runs@.len() && run_start(runs@, k) <= p < run_start(runs@, k) + runs@[k].text@.len()
                ==> (#[trigger] is_matched_position(name_indices@, p)) == (#[trigger] runs@[k]).matched,
            forall|k: int| 0 < k < runs@.len() ==> (#[trigger] runs@[k]).matched != runs@[k - 1].matched,
            forall|p: int| runs_text(runs@).len() <= p < position ==> #[trigger] is_matched_position(name_indices@, p) == run_is_matched,
            runs@.len() > 0 && run@.len() > 0 ==> runs@.last().matched != run_is_matched,
            runs@.len() > 0 ==> run@.len() > 0,
        decreases chars@.len() - position,
    {
        let character = chars[position];
        let is_matched = contains_sorted(name_indices, position as u32);
        assert(is_matched == is_matched_position(name_indices@, position as int));
        if run.len() > 0 && is_matched != run_is_matched {
            let ghost before = runs@;
            let text = string_from_chars(run.as_slice());
            let new_run = NameRun { text, matched: run_is_matched };
            runs.push(new_run);
            proof {
                lemma_runs_text_push(before, new_run);
                assert forall|k: int, p: int| 0 <= k < runs@.len() && run_start(runs@, k) <= p < run_start(runs@, k) + runs@[k].text@.len()
                    implies (#[trigger] is_matched_position(name_indices@, p)) == (#[trigger] runs@[k]).matched by {
                    if k < before.len() {
                        lemma_run_start_prefix(before, new_run, k);
                        assert(runs@[k] == before[k]);
                    } else {
                        lemma_run_start_prefix(before, new_run, k);
                        assert(before.subrange(0, k) =~= before);
                    }
                }
            }
            run = Vec::new();
        }
        run_is_matched = is_matched;
        run.push(character);
        position = position + 1;
        assert(chars@.subrange(0, position as int) =~= chars@.subrange(0, position - 1).push(character));
    }
    if run.len() > 0 {
        let ghost before = runs@;
        let text = string_from_chars(run.as_slice());
        let new_run = NameRun { text, matched: run_is_matched };
        runs.push(new_run);
        proof {
            lemma_runs_text_push(before, new_run);
            assert forall|k: int, p: int| 0 <= k < runs@.len() && run_start(runs@, k) <= p < run_start(runs@, k) + runs@[k].text@.len()
                implies (#[trigger] is_matched_position(name_indices@, p)) == (#[trigger] runs@[k]).matched by {
                lemma_run_start_prefix(before, new_run, k);
                if k < before.len() {
                    assert(runs@[k] == before[k]);
                } else {
                    assert(before.subrange(0, k) =~= before);
                }
            }
        }
    }
    assert(chars@.subrange(0, chars@.len() as int) =~= chars@);
    runs
}

/// The width of a table column: two more than its longest entry, at least `minimum`, as the
/// `u16` the layout takes (which keeps the low 16 bits).
pub open spec fn column_width_spec(minimum: nat, longest: nat) -> u16 {
    ((if longest + 2 > minimum { longest + 2 } else { minimum }) % 65536) as u16
}

/// The longest target name among the matches, in characters.
pub open spec fn longest_name(ms: Seq<MatchedTarget>) -> nat
    decreases ms.len(),
{
    if ms.len() == 0 {
        0
    } else {
        let rest = longest_name(ms.drop_last());
        let n = ms.last().target.name@.len();
        if n > rest { n } else { rest }
    }
}

/// The longest group name among the matches, in characters; targets without a group count as 0.
pub open spec fn longest_group_name(ms: Seq<MatchedTarget>) -> nat
    decreases ms.len(),
{
    if ms.len() == 0 {
        0
    } else {
        let rest = longest_group_name(ms.drop_last());
        let n = match ms.last().target.group {
            Some(g) => g.name@.len(),
            None => 0,
        };
        if n > rest { n } else { rest }
    }
}

fn column_width(minimum: usize, longest: usize) -> (w: u16)
    ensures
        w == column_width_spec(minimum as nat, longest as nat),
{
    let wide: u128 = longest as u128 + 2;
    let width: u128 = if wide > minimum as u128 { wide } else { minimum as u128 };
    (width % 65536) as u16
}

/// The widths of the name and group columns of the target table.
pub fn target_column_widths(filtered: &Vec<MatchedTarget>) -> (widths: (u16, u16))
    ensures
        widths.0 == column_width_spec(4, longest_name(filtered@)),
        widths.1 == column_width_spec(6, longest_group_name(filtered@)),
{
    let mut longest: usize = 0;
    let mut longest_group: usize = 0;
    let mut i: usize = 0;
    while i < filtered.len()
        invariant
            i <= filtered@.len(),
            longest == longest_name(filtered@.subrange(0, i as int)),
            longest_group == longest_group_name(filtered@.subrange(0, i as int)),
        decreases filtered@.len() - i,
    {
        let ghost prefix = filtered@.subrange(0, i + 1);
        assert(prefix.drop_last() =~= filtered@.subrange(0, i as int));
        assert(prefix.last() == filtered@[i as int]);
        let n = filtered[i].target.name.as_str().unicode_len();
        if n > longest {
            longest = n;
        }
        let g = match &filtered[i].target.group {
            Some(group) => group.name.as_str().unicode_len(),
            None => 0,
        };
        if g > longest_group {
            longest_group = g;
        }
        i = i + 1;
    }
    assert(filtered@.subrange(0, filtered@.len() as int) =~= filtered@);
    (column_width(4, longest), column_width(6, longest_group))
}

/// How many rows of the group picker are visible: as many as there are matches, between one
/// and eight.
pub fn group_picker_visible_rows(matches: usize) -> (rows: u16)
    ensures
        rows == if matches > 65535 {
            8
        } else if matches < 1 {
            1
        } else if matches > 8 {
            8
        } else {
            matches as u16
        },
{
    if matches > 65535 {
        8
    } else if matches < 1 {
        1
    } else if matches > 8 {
        8
    } else {
        matches as u16
    }
}

/// What stands in for the target table when it is empty.
#[derive(Debug, Clone, PartialEq, Eq)]
pub enum EmptyBody {
    /// The fetch failed, with its message.
    FetchFailed(String),
    /// The first fetch is still running.
    Loading,
    /// There is nothing to list, and no query to blame; the group filter in force, if any.
    NoTargets { group: Option<WarpgateTargetGroup> },
    /// Nothing matches the query; the group filter in force, if any.
    NoMatch { query: String, group: Option<WarpgateTargetGroup> },
}

/// A failed fetch explains itself; a first fetch still running says so; otherwise the message
/// depends on whether there is a query, and names the group filter where there is one.
pub fn empty_body(app: &App) -> (body: EmptyBody)
    ensures
        match app.warpgate_targets {
            Err(e) => body == EmptyBody::FetchFailed(e),
            Ok(_) => if status_spec(*app) == Status::Loading {
                body == EmptyBody::Loading
            } else if crate::app::search_query(*app).len() == 0 {
                body == (EmptyBody::NoTargets { group: app.group_filter })
            } else {
                body matches EmptyBody::NoMatch { query, group }
                    && query@ == crate::app::search_query(*app) && group == app.group_filter
            },
        },
{
    if let Err(e) = &app.warpgate_targets {
        return EmptyBody::FetchFailed(e.clone());
    }
    if current_status(app) == Status::Loading {
        return EmptyBody::Loading;
    }
    let query = crate::input::first_line(&app.ui_inputs.search_input);
    let group = copy_opt_group(&app.group_filter);
    if query.as_str().unicode_len() == 0 {
        EmptyBody::NoTargets { group }
    } else {
        EmptyBody::NoMatch { query, group }
    }
}

/// The rows a line of `width` columns takes when wrapped to `area_width` columns: its width
/// divided by the area's, rounded up, and at least one. An area without width counts as one
/// column wide.
pub open spec fn line_rows(width: nat, area_width: nat) -> nat {
    let per_row: nat = if area_width > 0 { area_width } else { 1 };
    let rows: nat = width / per_row + if width % per_row == 0 { 0nat } else { 1nat };
    if rows > 0 { rows } else { 1 }
}

/// The rows all the lines take when wrapped.
pub open spec fn wrapped_rows(widths: Seq<usize>, area_width: nat) -> nat
    decreases widths.len(),
{
    if widths.len() == 0 {
        0
    } else {
        wrapped_rows(widths.drop_last(), area_width) + line_rows(widths.last() as nat, area_width)
    }
}

/// Half the rows the wrapped lines leave free, so that they sit in the middle; a height of more
/// than `u16::MAX` rows counts as `u16::MAX`.
pub open spec fn top_padding_spec(widths: Seq<usize>, area_width: u16, area_height: u16) -> u16 {
    let total = wrapped_rows(widths, area_width as nat);
    let used: nat = if total > 65535 { 65535 } else { total };
    (if area_height > used { (area_height - used) / 2 } else { 0 }) as u16
}

/// How far down the empty body's lines start, given their widths, so that they are centred on
/// their wrapped height and a long error message does not push the hints below it out of view.
pub fn empty_body_top_padding(line_widths: &Vec<usize>, area_width: u16, area_height: u16) -> (padding: u16)
    ensures
        padding == top_padding_spec(line_widths@, area_width, area_height),
{
    let per_row: usize = if area_width > 0 { area_width as usize } else { 1 };
    let mut used: u64 = 0;
    let mut i: usize = 0;
    while i < line_widths.len()
        invariant
            i <= line_widths@.len(),
            per_row as nat == (if area_width > 0 { area_width as nat } else { 1nat }),
            used as nat == (if wrapped_rows(line_widths@.subrange(0, i as int), area_width as nat) > 65535 {
                65535nat
            } else {
                wrapped_rows(line_widths@.subrange(0, i as int), area_width as nat)
            }),
        decreases line_widths@.len() - i,
    {
        let ghost prefix = line_widths@.subrange(0, i + 1);
        assert(prefix.drop_last() =~= line_widths@.subrange(0, i as int));
        assert(prefix.last() == line_widths@[i as int]);
        let width = line_widths[i];
        let whole: u128 = (width / per_row) as u128;
        let rows: u128 = if width % per_row == 0 { whole } else { whole + 1 };
        let rows: u128 = if rows > 0 { rows } else { 1 };
        assert(rows as nat == line_rows(width as nat, area_width as nat));
        let next: u128 = used as u128 + rows;
        used = if next > 65535 { 65535 } else { next as u64 };
        i = i + 1;
    }
    assert(line_widths@.subrange(0, line_widths@.len() as int) =~= line_widths@);
    if (area_height as u64) > used {
        ((area_height as u64 - used) / 2) as u16
    } else {
        0
    }
}

/// The target table needs a scrollbar where its rows do not fit below the header row.
pub fn needs_scrollbar(rows: usize, height: u16) -> (b: bool)
    ensures
        b == (rows > (if height > 0 { height - 1 } else { 0 })),
{
    let room: u16 = if height > 0 { height - 1 } else { 0 };
    rows > room as usize
}

/// The width the right-hand part of a row gets: what it needs, as far as the row has room
/// (and at most `u16::MAX`).
pub fn fitted_width(needed: usize, available: u16) -> (width: u16)
    ensures
        width == (if (if needed > 65535 { 65535 } else { needed }) < available as int {
            (if needed > 65535 { 65535 } else { needed }) as u16
        } else {
            available
        }),
{
    let capped: u16 = if needed > 65535 { 65535 } else { needed as u16 };
    if capped < available { capped } else { available }
}

/// What the search prompt names as the group in force: the filter's group, or `all`.
pub fn group_label(group_filter: &Option<WarpgateTargetGroup>) -> (label: String)
    ensures
        label@ == match group_filter {
            Some(g) => g.name@,
            None => "all"@,
        },
{
    match group_filter {
        Some(g) => g.name.clone(),
        None => {
            proof {
                reveal_strlit("all");
            }
            String::from_str("all")
        },
    }
}

/// The counter beside the search prompt: how many targets are listed, out of all SSH targets.
pub fn target_counter(listed: usize, total: usize) -> (counter: String)
    ensures
        counter@ == decimal_spec(listed as nat) + "/"@ + decimal_spec(total as nat),
{
    proof {
        reveal_strlit("/");
    }
    let mut counter = usize_to_string(listed);
    counter.append("/");
    let rest = usize_to_string(total);
    counter.append(rest.as_str());
    counter
}

} // verus!
