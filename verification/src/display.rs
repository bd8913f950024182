//! What the pages show of the state: the decisions behind the drawing.

use vstd::prelude::*;
use vstd::string::*;

use crate::export::{parent_pid_text, parent_text};
use crate::process::{Pid, ProcessInfo, ProcessRecord};
use crate::state::{shown_name, AppTheme, MonitorState, TarnerMonitor};
use crate::text::{chars_of, contains, lossy_text, occurs_in};

verus! {

/// The title of the window.
pub fn title() -> (text: String)
    ensures
        text@ == "TarnerMonitor - Process Manager"@,
{
    "TarnerMonitor - Process Manager".to_string()
}

/// How grave a log line is, for its colour.
#[derive(Clone, Copy, Debug, PartialEq, Eq, Structural)]
pub enum LogLevel {
    Error,
    Warn,
    Other,
}

/// The level that a line shows: an error if it holds the tag `[ERROR]`,
/// else a warning if it holds the tag `[WARN]`. A guess from the text, not a
/// field of the line.
pub open spec fn level_of(line: Seq<char>) -> LogLevel {
    if occurs_in("[ERROR]"@, line) {
        LogLevel::Error
    } else if occurs_in("[WARN]"@, line) {
        LogLevel::Warn
    } else {
        LogLevel::Other
    }
}

/// Reads the level of a log line off its tags.
pub fn log_level(line: &str) -> (level: LogLevel)
    ensures
        level == level_of(line@),
{
    let text = chars_of(line);
    if contains(&text, &chars_of("[ERROR]")) {
        LogLevel::Error
    } else if contains(&text, &chars_of("[WARN]")) {
        LogLevel::Warn
    } else {
        LogLevel::Other
    }
}

/// The label of the button that changes the theme: it names the theme that
/// a press would bring.
pub fn theme_toggle_label(theme: AppTheme) -> (label: String)
    ensures
        label@ == (match theme {
            AppTheme::Light => "Dark Mode"@,
            AppTheme::Dark => "Light Mode"@,
        }),
{
    match theme {
        AppTheme::Light => "Dark Mode".to_string(),
        AppTheme::Dark => "Light Mode".to_string(),
    }
}

/// A running time as the details show it: the seconds divided by 360.
pub fn runtime_shown(run_time: u64) -> (shown: u64)
    ensures
        shown == run_time / 360,
{
    run_time / 360
}

/// A number of bytes in whole mebibytes.
pub fn megabytes(bytes: u64) -> (shown: u64)
    ensures
        shown == bytes / 1024 / 1024,
{
    bytes / 1024 / 1024
}

/// What the pane below the table holds.
#[derive(Debug)]
pub enum DetailsPane {
    /// The question whether to end the parent of the selected process: the
    /// name of the selected process, how its parent is written, and its own
    /// identifier.
    Confirmation(String, String, Pid),
    /// A kill waits for confirmation, but nothing is selected.
    MissingSelection,
    /// The details of the selected process.
    Details(ProcessInfo),
    /// Nothing.
    Empty,
}

/// What the pane below the table is to hold in a state, as a mathematical
/// value.
pub enum PaneContent {
    Confirmation(Seq<char>, Seq<char>, Pid),
    MissingSelection,
    Details(ProcessRecord),
    Empty,
}

impl View for DetailsPane {
    type V = PaneContent;

    open spec fn view(&self) -> PaneContent {
        match self {
            DetailsPane::Confirmation(name, parent, pid) => PaneContent::Confirmation(
                name@,
                parent@,
                *pid,
            ),
            DetailsPane::MissingSelection => PaneContent::MissingSelection,
            DetailsPane::Details(process) => PaneContent::Details(process@),
            DetailsPane::Empty => PaneContent::Empty,
        }
    }
}

/// The pane for a state: while a kill waits for confirmation, the question,
/// or the notice that nothing is selected; else the details of the selected
/// process, or nothing.
pub open spec fn pane_of(state: MonitorState) -> PaneContent {
    match state.selected {
        Some(process) => if state.kill_confirm {
            PaneContent::Confirmation(
                shown_name(process.name),
                parent_text(process.parent_pid),
                process.pid,
            )
        } else {
            PaneContent::Details(process)
        },
        None => if state.kill_confirm {
            PaneContent::MissingSelection
        } else {
            PaneContent::Empty
        },
    }
}

impl TarnerMonitor {
    /// What the pane below the table holds.
    pub fn details_pane(&self) -> (pane: DetailsPane)
        ensures
            pane@ == pane_of(self@),
    {
        match &self.selected_process {
            Some(process) => {
                if self.kill_confirm {
                    DetailsPane::Confirmation(
                        lossy_text(&process.name),
                        parent_pid_text(process.parent_pid),
                        process.pid,
                    )
                } else {
                    DetailsPane::Details(process.clone())
                }
            },
            None => {
                if self.kill_confirm {
                    DetailsPane::MissingSelection
                } else {
                    DetailsPane::Empty
                }
            },
        }
    }

    /// Whether the row of this process is the selected one: rows are matched
    /// by identifier.
    pub fn is_selected(&self, pid: Pid) -> (selected: bool)
        ensures
            selected == (self@.selected is Some && self@.selected->0.pid == pid),
    {
        match &self.selected_process {
            Some(process) => process.pid == pid,
            None => false,
        }
    }
}

} // verus!
