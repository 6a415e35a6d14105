//! The log view of the plugin manager's user interface: which log levels it shows and how
//! much of the history.
use vstd::prelude::*;

use crate::server::LogRecord;
use crate::text::str_equals;

verus! {

/// The most log records shown when the history is limited.
pub open spec fn max_history() -> int {
    250
}

/// What the user did in the log view.
pub enum Message {
    GoBack,
    ToggleHistory(bool),
    ToggleLevelDebug(bool),
    ToggleLevelInfo(bool),
    ToggleLevelWarn(bool),
    ToggleLevelError(bool),
    /// A click that does nothing, such as one on the filter menu's button.
    NoOp,
}

/// The log levels the user chose to see.
#[derive(Debug, Clone, Copy, PartialEq, Eq, Structural)]
pub struct SelectedLogLevels {
    pub debug: bool,
    pub info: bool,
    pub warn: bool,
    pub error: bool,
}

impl Default for SelectedLogLevels {
    fn default() -> (r: Self)
        ensures
            r == (SelectedLogLevels { debug: false, info: true, warn: true, error: true }),
    {
        Self { debug: false, info: true, warn: true, error: true }
    }
}

/// The state of the log view.
#[derive(Debug, Clone, Copy, PartialEq, Eq, Structural)]
pub struct Logs {
    pub unlimited_history: bool,
    pub selected_log_levels: SelectedLogLevels,
}

impl Default for Logs {
    fn default() -> (r: Self)
        ensures
            r == initial_logs(),
    {
        Logs { unlimited_history: false, selected_log_levels: SelectedLogLevels::default() }
    }
}

/// The log view as it opens: limited history, all levels but debug.
pub open spec fn initial_logs() -> Logs {
    Logs {
        unlimited_history: false,
        selected_log_levels: SelectedLogLevels { debug: false, info: true, warn: true, error: true },
    }
}

/// The log view after the user did `message` in `before`.
pub open spec fn logs_step(before: Logs, message: Message) -> Logs {
    match message {
        Message::ToggleHistory(unlimited_history) => Logs { unlimited_history, ..before },
        Message::ToggleLevelDebug(value) => Logs {
            selected_log_levels: SelectedLogLevels { debug: value, ..before.selected_log_levels },
            ..before
        },
        Message::ToggleLevelInfo(value) => Logs {
            selected_log_levels: SelectedLogLevels { info: value, ..before.selected_log_levels },
            ..before
        },
        Message::ToggleLevelWarn(value) => Logs {
            selected_log_levels: SelectedLogLevels { warn: value, ..before.selected_log_levels },
            ..before
        },
        Message::ToggleLevelError(value) => Logs {
            selected_log_levels: SelectedLogLevels { error: value, ..before.selected_log_levels },
            ..before
        },
        _ => before,
    }
}

/// Whether a record of level `level` is shown under the selection `levels`.
pub open spec fn level_shown(levels: SelectedLogLevels, level: Seq<char>) -> bool {
    if level == "DEBUG"@ {
        levels.debug
    } else if level == "INFO"@ {
        levels.info
    } else if level == "WARN"@ {
        levels.warn
    } else if level == "ERROR"@ {
        levels.error
    } else {
        false
    }
}

/// Each level's checkbox decides, alone, whether records of that level are shown: a debug
/// record is shown exactly when `debug` is selected, an info record when `info` is, a warning
/// when `warn` is and an error when `error` is.
pub proof fn lemma_each_checkbox_selects_its_level(levels: SelectedLogLevels)
    ensures
        level_shown(levels, "DEBUG"@) == levels.debug,
        level_shown(levels, "INFO"@) == levels.info,
        level_shown(levels, "WARN"@) == levels.warn,
        level_shown(levels, "ERROR"@) == levels.error,
        forall|level: Seq<char>|
            level != "DEBUG"@ && level != "INFO"@ && level != "WARN"@ && level != "ERROR"@ ==> !#[trigger] level_shown(
                levels,
                level,
            ),
{
    reveal_strlit("DEBUG");
    reveal_strlit("INFO");
    reveal_strlit("WARN");
    reveal_strlit("ERROR");
    assert("DEBUG"@ != "INFO"@ && "DEBUG"@ != "WARN"@ && "DEBUG"@ != "ERROR"@) by {
        assert("DEBUG"@.len() != "INFO"@.len());
        assert("DEBUG"@[0] != "WARN"@[0]);
        assert("DEBUG"@[0] != "ERROR"@[0]);
    }
    assert("INFO"@ != "WARN"@ && "INFO"@ != "ERROR"@) by {
        assert("INFO"@[0] != "WARN"@[0]);
        assert("INFO"@.len() != "ERROR"@.len());
    }
    assert("WARN"@ != "ERROR"@) by {
        assert("WARN"@.len() != "ERROR"@.len());
    }
}

/// Whether the level `level` is one whose checkbox is ticked in `levels`: only the four
/// levels `DEBUG`, `INFO`, `WARN` and `ERROR` can be selected.
proof fn lemma_level_shown_by_its_checkbox(levels: SelectedLogLevels, level: Seq<char>)
    ensures
        level_shown(levels, level) == ((level == "DEBUG"@ && levels.debug) || (level == "INFO"@ && levels.info)
            || (level == "WARN"@ && levels.warn) || (level == "ERROR"@ && levels.error)),
{
    lemma_each_checkbox_selects_its_level(levels);
}

/// The first `n` positions shown are increasing, lie below `n`, are of shown levels, and
/// include every position below `n` whose level is shown.
proof fn lemma_shown_positions(records: Seq<LogRecord>, levels: SelectedLogLevels, n: int)
    requires
        0 <= n <= records.len(),
        records.len() <= usize::MAX,
    ensures
        forall|k: int| 0 <= k < shown_positions(records, levels, n).len() ==> {
            let p = #[trigger] shown_positions(records, levels, n)[k];
            p < n && level_shown(levels, records[p as int].level@)
        },
        forall|k1: int, k2: int|
            0 <= k1 < k2 < shown_positions(records, levels, n).len() ==> #[trigger] shown_positions(
                records,
                levels,
                n,
            )[k1] < #[trigger] shown_positions(records, levels, n)[k2],
        forall|q: int|
            0 <= q < n && #[trigger] level_shown(levels, records[q].level@) ==> exists|k: int|
                0 <= k < shown_positions(records, levels, n).len() && shown_positions(records, levels, n)[k] == q,
    decreases n,
{
    if n > 0 {
        lemma_shown_positions(records, levels, n - 1);
        let prev = shown_positions(records, levels, n - 1);
        let cur = shown_positions(records, levels, n);
        assert forall|q: int|
            0 <= q < n && #[trigger] level_shown(levels, records[q].level@) implies exists|k: int|
                0 <= k < cur.len() && cur[k] == q by {
            if q == n - 1 {
                assert(cur == prev.push((n - 1) as usize));
                assert(cur[cur.len() - 1] == q);
            } else {
                let k = choose|k: int| 0 <= k < prev.len() && prev[k] == q;
                assert(cur[k] == q);
            }
        }
    }
}

/// What the log view shows of `records`: positions of records whose level's checkbox is
/// ticked, oldest first, at most 250 of them when the history is limited, and every such
/// record when it is unlimited.
pub proof fn lemma_visible_records(records: Seq<LogRecord>, levels: SelectedLogLevels, unlimited: bool)
    requires
        records.len() <= usize::MAX,
    ensures
        ({
            let w = history_window(shown_positions(records, levels, records.len() as int), unlimited);
            &&& forall|k: int| 0 <= k < w.len() ==> {
                let level = records[#[trigger] w[k] as int].level@;
                &&& w[k] < records.len()
                &&& (level == "DEBUG"@ && levels.debug) || (level == "INFO"@ && levels.info) || (level == "WARN"@
                    && levels.warn) || (level == "ERROR"@ && levels.error)
            }
            &&& forall|k1: int, k2: int| 0 <= k1 < k2 < w.len() ==> #[trigger] w[k1] < #[trigger] w[k2]
            &&& !unlimited ==> w.len() <= 250
            &&& unlimited ==> forall|q: int|
                0 <= q < records.len() && ((records[q].level@ == "DEBUG"@ && levels.debug) || (
                records[q].level@ == "INFO"@ && levels.info) || (records[q].level@ == "WARN"@ && levels.warn) || (
                records[q].level@ == "ERROR"@ && levels.error)) ==> exists|k: int| 0 <= k < w.len() && #[trigger] w[k] == q
        }),
{
    let n = records.len() as int;
    let s = shown_positions(records, levels, n);
    let w = history_window(s, unlimited);
    lemma_shown_positions(records, levels, n);
    let off = if unlimited || s.len() <= max_history() { 0 } else { s.len() - max_history() };
    assert forall|k: int| 0 <= k < w.len() implies w[k] == s[k + off] by {}
    assert forall|k: int| 0 <= k < w.len() implies {
        let level = records[#[trigger] w[k] as int].level@;
        &&& w[k] < records.len()
        &&& (level == "DEBUG"@ && levels.debug) || (level == "INFO"@ && levels.info) || (level == "WARN"@
            && levels.warn) || (level == "ERROR"@ && levels.error)
    } by {
        assert(s[k + off] == w[k]);
        lemma_level_shown_by_its_checkbox(levels, records[w[k] as int].level@);
    }
    assert forall|k1: int, k2: int| 0 <= k1 < k2 < w.len() implies #[trigger] w[k1] < #[trigger] w[k2] by {
        assert(s[k1 + off] == w[k1]);
        assert(s[k2 + off] == w[k2]);
    }
    if unlimited {
        assert forall|q: int|
            0 <= q < records.len() && ((records[q].level@ == "DEBUG"@ && levels.debug) || (records[q].level@
                == "INFO"@ && levels.info) || (records[q].level@ == "WARN"@ && levels.warn) || (records[q].level@
                == "ERROR"@ && levels.error)) implies exists|k: int| 0 <= k < w.len() && #[trigger] w[k] == q by {
            lemma_level_shown_by_its_checkbox(levels, records[q].level@);
            assert(level_shown(levels, records[q].level@));
            let k = choose|k: int| 0 <= k < s.len() && s[k] == q;
            assert(w[k] == q);
        }
    }
}

/// The positions, among the first `n` records, of those whose level is shown.
pub open spec fn shown_positions(records: Seq<LogRecord>, levels: SelectedLogLevels, n: int) -> Seq<usize>
    decreases n,
{
    if n <= 0 {
        Seq::empty()
    } else if level_shown(levels, records[n - 1].level@) {
        shown_positions(records, levels, n - 1).push((n - 1) as usize)
    } else {
        shown_positions(records, levels, n - 1)
    }
}

/// The last `max_history()` of `positions`, or all of them if the history is unlimited.
pub open spec fn history_window(positions: Seq<usize>, unlimited: bool) -> Seq<usize> {
    if unlimited || positions.len() <= max_history() {
        positions
    } else {
        positions.skip(positions.len() - max_history())
    }
}

impl Logs {
    /// The log view as it opens.
    pub fn new() -> (r: Self)
        ensures
            r == initial_logs(),
    {
        Logs::default()
    }

    /// React to what the user did.
    pub fn update(&mut self, message: Message)
        ensures
            *final(self) == logs_step(*old(self), message),
    {
        match message {
            Message::ToggleHistory(unlimited_history) => {
                self.unlimited_history = unlimited_history;
            },
            Message::ToggleLevelDebug(value) => {
                self.selected_log_levels.debug = value;
            },
            Message::ToggleLevelInfo(value) => {
                self.selected_log_levels.info = value;
            },
            Message::ToggleLevelWarn(value) => {
                self.selected_log_levels.warn = value;
            },
            Message::ToggleLevelError(value) => {
                self.selected_log_levels.error = value;
            },
            _ => {},
        }
    }

    /// The positions of the records to show, oldest first: those whose level is selected,
    /// and of them only the last 250 unless the history is unlimited.
    pub fn visible_records(&self, records: &Vec<LogRecord>) -> (r: Vec<usize>)
        ensures
            r@ == history_window(
                shown_positions(records@, self.selected_log_levels, records@.len() as int),
                self.unlimited_history,
            ),
    {
        let mut filtered: Vec<usize> = Vec::new();
        let mut i: usize = 0;
        while i < records.len()
            invariant
                i <= records@.len(),
                filtered@ == shown_positions(records@, self.selected_log_levels, i as int),
            decreases records@.len() - i,
        {
            let shown = is_level_shown(self.selected_log_levels, records[i].level.as_str());
            if shown {
                filtered.push(i);
            }
            i = i + 1;
        }
        if self.unlimited_history || filtered.len() <= 250 {
            return filtered;
        }
        let start = filtered.len() - 250;
        let mut window: Vec<usize> = Vec::new();
        let mut j: usize = start;
        while j < filtered.len()
            invariant
                start <= j <= filtered@.len(),
                window@ == filtered@.subrange(start as int, j as int),
            decreases filtered@.len() - j,
        {
            window.push(filtered[j]);
            j = j + 1;
        }
        assert(window@ =~= filtered@.skip(filtered@.len() - max_history()));
        window
    }
}

/// Whether a record of level `level` is shown under the selection `levels`.
pub fn is_level_shown(levels: SelectedLogLevels, level: &str) -> (r: bool)
    ensures
        r == level_shown(levels, level@),
        level@ == "DEBUG"@ ==> r == levels.debug,
        level@ == "INFO"@ ==> r == levels.info,
        level@ == "WARN"@ ==> r == levels.warn,
        level@ == "ERROR"@ ==> r == levels.error,
{
    proof {
        lemma_each_checkbox_selects_its_level(levels);
    }
    if str_equals(level, "DEBUG") {
        levels.debug
    } else if str_equals(level, "INFO") {
        levels.info
    } else if str_equals(level, "WARN") {
        levels.warn
    } else if str_equals(level, "ERROR") {
        levels.error
    } else {
        false
    }
}

/// The color, as red, green and blue, in which a log level is shown.
pub open spec fn level_color(level: Seq<char>) -> (u8, u8, u8) {
    if level == "DEBUG"@ {
        (150, 150, 150)
    } else if level == "INFO"@ {
        (81, 113, 240)
    } else if level == "WARN"@ {
        (238, 203, 63)
    } else if level == "ERROR"@ {
        (241, 83, 75)
    } else {
        (0, 0, 0)
    }
}

/// The color, as red, green and blue, in which a log level is shown.
pub fn log_level_color(level: &str) -> (r: (u8, u8, u8))
    ensures
        r == level_color(level@),
{
    if str_equals(level, "DEBUG") {
        (150, 150, 150)
    } else if str_equals(level, "INFO") {
        (81, 113, 240)
    } else if str_equals(level, "WARN") {
        (238, 203, 63)
    } else if str_equals(level, "ERROR") {
        (241, 83, 75)
    } else {
        (0, 0, 0)
    }
}

} // verus!
