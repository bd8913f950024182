//! The controller: its state, the messages it takes and the commands it
//! gives.

use vstd::prelude::*;
use vstd::string::*;

use crate::process::{records, Pid, ProcessInfo, ProcessRecord};
use crate::system::{HostFacts, SystemManager};
use crate::table::{filter_table, filtered, sort_table, sorted_from};
use crate::text::{lossy_text, utf8_lossy};

verus! {

/// Display preference, kept across runs.
#[derive(Clone, Copy, Debug, PartialEq, Eq, Structural)]
pub enum AppTheme {
    Light,
    Dark,
}

/// The order of the process table: a dimension and a direction.
#[derive(Clone, Copy, Debug, PartialEq, Eq, Structural)]
pub enum SortBy {
    AlphaAsc,
    AlphaDesc,
    CpuAsc,
    CpuDesc,
    MemAsc,
    MemDesc,
}

/// The page on display. It decides which keyboard shortcuts are live.
#[derive(Clone, Copy, Debug, PartialEq, Eq, Structural)]
pub enum Tab {
    Processes,
    System,
    Settings,
}

/// Whether a toast reports a success or a failure.
#[derive(Clone, Copy, Debug, PartialEq, Eq, Structural)]
pub enum ToastType {
    Success,
    Error,
}

/// A key of the keyboard, as far as the controller tells keys apart.
#[derive(Clone, Copy, Debug, PartialEq, Eq, Structural)]
pub enum Key {
    Delete,
    Other,
}

/// An input event, as far as the controller tells events apart.
#[derive(Clone, Copy, Debug, PartialEq, Eq, Structural)]
pub enum Event {
    KeyPressed(Key),
    Other,
}

/// The number of lines that the log ring holds.
pub const LOG_CAPACITY: usize = 100;

/// Seconds after which a toast is asked to hide.
pub const TOAST_SECONDS: u64 = 3;

/// The controller's state: what the user currently sees.
pub struct TarnerMonitor {
    /// The table, in the order of `current_sort`.
    pub processes: Vec<ProcessInfo>,
    /// A copy of the selected record, not a position in the table.
    pub selected_process: Option<ProcessInfo>,
    /// The filter; empty means no filter.
    pub search_str: String,
    pub system_manager: SystemManager,
    pub current_sort: SortBy,
    pub theme: AppTheme,
    pub active_tab: Tab,
    /// True while a kill waits for its confirmation.
    pub kill_confirm: bool,
    pub toast: Option<(String, ToastType)>,
    /// The log ring, oldest line first.
    pub log_lines: Vec<String>,
}

/// What a [`TarnerMonitor`] holds, as a mathematical value.
pub struct MonitorState {
    pub processes: Seq<ProcessRecord>,
    pub selected: Option<ProcessRecord>,
    pub filter: Seq<char>,
    pub host: HostFacts,
    pub sort: SortBy,
    pub theme: AppTheme,
    pub tab: Tab,
    pub kill_confirm: bool,
    pub toast: Option<(Seq<char>, ToastType)>,
    pub log_lines: Seq<Seq<char>>,
}

/// The texts of a list of lines.
pub open spec fn texts(lines: Seq<String>) -> Seq<Seq<char>> {
    lines.map_values(|line: String| line@)
}

/// A toast as a mathematical value.
pub open spec fn toast_view(toast: Option<(String, ToastType)>) -> Option<(Seq<char>, ToastType)> {
    match toast {
        Some((text, kind)) => Some((text@, kind)),
        None => None,
    }
}

/// A selection as a mathematical value.
pub open spec fn selection_view(selected: Option<ProcessInfo>) -> Option<ProcessRecord> {
    match selected {
        Some(process) => Some(process@),
        None => None,
    }
}

impl View for TarnerMonitor {
    type V = MonitorState;

    open spec fn view(&self) -> MonitorState {
        MonitorState {
            processes: records(self.processes@),
            selected: selection_view(self.selected_process),
            filter: self.search_str@,
            host: self.system_manager@,
            sort: self.current_sort,
            theme: self.theme,
            tab: self.active_tab,
            kill_confirm: self.kill_confirm,
            toast: toast_view(self.toast),
            log_lines: texts(self.log_lines@),
        }
    }
}

/// The first record of `table` with this identifier, if there is one.
pub open spec fn first_with_pid(table: Seq<ProcessRecord>, pid: Pid) -> Option<ProcessRecord>
    decreases table.len(),
{
    if table.len() == 0 {
        None
    } else if table[0].pid == pid {
        Some(table[0])
    } else {
        first_with_pid(table.drop_first(), pid)
    }
}

/// A copy of the first process of `table` with this identifier.
pub fn find_by_pid(table: &Vec<ProcessInfo>, pid: Pid) -> (found: Option<ProcessInfo>)
    ensures
        selection_view(found) == first_with_pid(records(table@), pid),
{
    let mut i: usize = 0;
    assert(records(table@).skip(0) =~= records(table@));
    while i < table.len()
        invariant
            i <= table.len(),
            first_with_pid(records(table@), pid) == first_with_pid(
                records(table@).skip(i as int),
                pid,
            ),
        decreases table.len() - i,
    {
        let ghost rest = records(table@).skip(i as int);
        assert(rest[0] == table@[i as int]@);
        if table[i].pid == pid {
            return Some(table[i].clone());
        }
        assert(rest.drop_first() =~= records(table@).skip(i + 1));
        i += 1;
    }
    None
}

/// A ring of at most `capacity` lines after one more line: the line is
/// appended, and if the ring then holds more than `capacity` lines the
/// oldest one leaves.
pub open spec fn ring_after_push(ring: Seq<Seq<char>>, line: Seq<char>, capacity: int) -> Seq<
    Seq<char>,
> {
    if ring.len() + 1 > capacity {
        ring.push(line).drop_first()
    } else {
        ring.push(line)
    }
}

/// The last `capacity` lines of `lines`, or all of them if they are fewer.
pub open spec fn newest(lines: Seq<Seq<char>>, capacity: int) -> Seq<Seq<char>> {
    if lines.len() > capacity {
        lines.skip(lines.len() - capacity)
    } else {
        lines
    }
}

/// The name of a process as it is shown.
pub open spec fn shown_name(name: Seq<u8>) -> Seq<char> {
    utf8_lossy(name)
}

/// What confirming a kill aims at: the parent of the selected process, if a
/// process is selected and has a parent.
pub open spec fn kill_target(state: MonitorState) -> Option<Pid> {
    match state.selected {
        Some(process) => process.parent_pid,
        None => None,
    }
}

/// The name that the report of a kill carries: that of the selected process,
/// or the empty text if none is selected.
pub open spec fn kill_name(state: MonitorState) -> Seq<char> {
    match state.selected {
        Some(process) => shown_name(process.name),
        None => Seq::empty(),
    }
}

impl TarnerMonitor {
    /// The state at startup: the first snapshot in ascending order of name,
    /// nothing selected, no filter, the process page on display.
    pub fn new(theme: AppTheme, system_manager: SystemManager, processes: Vec<ProcessInfo>) -> (app:
        TarnerMonitor)
        ensures
            sorted_from(records(processes@), app@.processes, SortBy::AlphaAsc),
            app@ == (MonitorState {
                processes: app@.processes,
                selected: None,
                filter: Seq::empty(),
                host: system_manager@,
                sort: SortBy::AlphaAsc,
                theme,
                tab: Tab::Processes,
                kill_confirm: false,
                toast: None,
                log_lines: Seq::empty(),
            }),
    {
        let mut app = TarnerMonitor {
            processes,
            selected_process: None,
            search_str: String::new(),
            system_manager,
            current_sort: SortBy::AlphaAsc,
            theme,
            active_tab: Tab::Processes,
            kill_confirm: false,
            toast: None,
            log_lines: Vec::new(),
        };
        app.apply_sort();
        assert(app@.log_lines =~= Seq::empty());
        app
    }

    /// The processes that pass the filter, in table order. The table itself
    /// is left as it is.
    pub fn get_filtered(&self) -> (shown: Vec<&ProcessInfo>)
        ensures
            shown.deep_view() == filtered(self@.processes, self@.filter),
    {
        filter_table(&self.processes, self.search_str.as_str())
    }

    /// Replaces the table by a fresh snapshot, as it came, and reconciles
    /// the selection with it by identifier: the selection becomes the first
    /// record of the snapshot with the selected identifier, or nothing if
    /// the snapshot has none.
    pub fn refresh_processes(&mut self, snapshot: Vec<ProcessInfo>)
        ensures
            final(self)@ == (MonitorState {
                processes: records(snapshot@),
                selected: match old(self)@.selected {
                    Some(process) => first_with_pid(records(snapshot@), process.pid),
                    None => None,
                },
                ..old(self)@
            }),
    {
        self.processes = snapshot;
        let reconciled = match &self.selected_process {
            Some(process) => find_by_pid(&self.processes, process.pid),
            None => None,
        };
        self.selected_process = reconciled;
    }

    /// Puts the table in the order of the current sort key.
    pub fn apply_sort(&mut self)
        ensures
            sorted_from(old(self)@.processes, final(self)@.processes, old(self)@.sort),
            final(self)@ == (MonitorState { processes: final(self)@.processes, ..old(self)@ }),
    {
        sort_table(&mut self.processes, self.current_sort);
    }

    /// What a confirmed kill asks of the host: the process to end, which is
    /// the parent of the selected one, and the name to report. There is no
    /// process to end if nothing is selected or the selected process has no
    /// parent.
    pub fn kill_selected_parent(&self) -> (request: (Option<Pid>, String))
        ensures
            request.0 == kill_target(self@),
            request.1@ == kill_name(self@),
    {
        match &self.selected_process {
            Some(process) => (process.parent_pid, lossy_text(&process.name)),
            None => (None, String::new()),
        }
    }

    /// Appends a line to the log ring. If the ring then holds more than
    /// [`LOG_CAPACITY`] lines, the oldest one leaves.
    pub fn push_log(&mut self, line: String)
        ensures
            final(self)@ == (MonitorState {
                log_lines: ring_after_push(old(self)@.log_lines, line@, LOG_CAPACITY as int),
                ..old(self)@
            }),
    {
        let ghost ring = texts(self.log_lines@);
        if self.log_lines.len() >= LOG_CAPACITY {
            self.log_lines.push(line);
            self.log_lines.remove(0);
            assert(texts(self.log_lines@) =~= ring.push(line@).drop_first());
        } else {
            self.log_lines.push(line);
            assert(texts(self.log_lines@) =~= ring.push(line@));
        }
    }
}

/// An input to the controller: an action of the user, the refresh tick with
/// the snapshot it brought, an input event, or the outcome of work that the
/// controller had asked for.
#[derive(Debug)]
pub enum Message {
    ProcessSelected(Pid),
    SearchChanged(String),
    SortAlpha,
    SortCpu,
    SortMem,
    /// The periodic tick, with the snapshot taken for it.
    RefreshTick(Vec<ProcessInfo>),
    ToggleTheme,
    TabSelected(Tab),
    RequestKill,
    ConfirmKill,
    CancelKill,
    /// The outcome of [`Command::KillProcess`]: whether the host ended the
    /// process, and the name that the command carried.
    KillFinished(bool, String),
    ExportToCsv,
    /// The outcome of [`Command::Export`]: a report of success, or the
    /// reason of the failure.
    ExportFinished(Result<String, String>),
    HideToast,
    LoadLogs,
    /// The outcome of [`Command::LoadLogs`]: the lines of the log file, or
    /// the reason of the failure.
    LogsLoaded(Result<Vec<String>, String>),
    EventOccurred(Event),
}

/// Outside work that the controller asks for. The host does it and, where
/// the work has an outcome, hands that back as a message.
#[derive(Debug)]
pub enum Command {
    Nothing,
    /// Send [`Message::HideToast`] after this many seconds.
    HideToastAfter(u64),
    /// Read the log file and send [`Message::LogsLoaded`].
    LoadLogs,
    /// Write these processes to the export file, scaled by this number of
    /// cores and this much memory, and send [`Message::ExportFinished`].
    Export(Vec<ProcessInfo>, usize, u64),
    /// Store the theme in the settings file.
    SaveTheme(AppTheme),
    /// End this process and send [`Message::KillFinished`] with this name.
    KillProcess(Pid, String),
}

/// The sort key after its dimension was asked for: descending if the key
/// was that dimension ascending, else that dimension ascending.
pub open spec fn toggled(sort: SortBy, ascending: SortBy, descending: SortBy) -> SortBy {
    if sort == ascending {
        descending
    } else {
        ascending
    }
}

/// The other theme.
pub open spec fn other_theme(theme: AppTheme) -> AppTheme {
    match theme {
        AppTheme::Light => AppTheme::Dark,
        AppTheme::Dark => AppTheme::Light,
    }
}

/// The report of a kill.
pub open spec fn kill_report(success: bool, name: Seq<char>) -> Seq<char> {
    if success {
        "Successfully killed parent of "@ + name
    } else {
        "Failed to kill parent of "@ + name
    }
}

/// The kind of toast for an outcome.
pub open spec fn toast_kind(success: bool) -> ToastType {
    if success {
        ToastType::Success
    } else {
        ToastType::Error
    }
}

/// The line that the log ring gets for a failure.
pub open spec fn failure_line(text: Seq<char>) -> Seq<char> {
    "[ERROR] "@ + text
}

/// The state after the report of a kill: the toast shows the report, and a
/// failure is logged.
pub open spec fn after_kill_report(pre: MonitorState, success: bool, name: Seq<char>) -> MonitorState {
    MonitorState {
        toast: Some((kill_report(success, name), toast_kind(success))),
        log_lines: if success {
            pre.log_lines
        } else {
            ring_after_push(
                pre.log_lines,
                failure_line(kill_report(false, name)),
                LOG_CAPACITY as int,
            )
        },
        ..pre
    }
}

/// Whether a key press asks for a kill: the delete key does, on the process
/// page, while a process is selected and no kill waits for confirmation.
pub open spec fn shortcut_requests_kill(pre: MonitorState, event: Event) -> bool {
    &&& event == Event::KeyPressed(Key::Delete)
    &&& pre.tab == Tab::Processes
    &&& !pre.kill_confirm
    &&& pre.selected is Some
}

/// One step of the controller: in state `pre` it takes `message`, goes to
/// state `post` and asks for `command`.
pub open spec fn step(pre: MonitorState, message: Message, post: MonitorState, command: Command) -> bool {
    match message {
        Message::ProcessSelected(pid) => {
            &&& post == MonitorState {
                selected: first_with_pid(pre.processes, pid),
                kill_confirm: false,
                ..pre
            }
            &&& command is Nothing
        },
        Message::SearchChanged(filter) => {
            &&& post == MonitorState { filter: filter@, ..pre }
            &&& command is Nothing
        },
        Message::SortAlpha => sorts_by(
            pre,
            toggled(pre.sort, SortBy::AlphaAsc, SortBy::AlphaDesc),
            post,
            command,
        ),
        Message::SortCpu => sorts_by(
            pre,
            toggled(pre.sort, SortBy::CpuAsc, SortBy::CpuDesc),
            post,
            command,
        ),
        Message::SortMem => sorts_by(
            pre,
            toggled(pre.sort, SortBy::MemAsc, SortBy::MemDesc),
            post,
            command,
        ),
        Message::RefreshTick(snapshot) => {
            &&& sorted_from(records(snapshot@), post.processes, pre.sort)
            &&& post == MonitorState {
                processes: post.processes,
                selected: match pre.selected {
                    Some(process) => first_with_pid(records(snapshot@), process.pid),
                    None => None,
                },
                ..pre
            }
            &&& command is Nothing
        },
        Message::ToggleTheme => {
            &&& post == MonitorState { theme: other_theme(pre.theme), ..pre }
            &&& command == Command::SaveTheme(other_theme(pre.theme))
        },
        Message::TabSelected(tab) => {
            &&& post == MonitorState { tab, ..pre }
            &&& if tab == Tab::Settings {
                command is LoadLogs
            } else {
                command is Nothing
            }
        },
        Message::RequestKill => {
            &&& post == MonitorState {
                kill_confirm: pre.kill_confirm || pre.selected is Some,
                ..pre
            }
            &&& command is Nothing
        },
        Message::ConfirmKill => {
            let cleared = MonitorState { selected: None, kill_confirm: false, ..pre };
            match kill_target(pre) {
                Some(parent) => {
                    &&& post == cleared
                    &&& command matches Command::KillProcess(pid, name)
                    &&& pid == parent
                    &&& name@ == kill_name(pre)
                },
                None => {
                    &&& post == after_kill_report(cleared, false, kill_name(pre))
                    &&& command == Command::HideToastAfter(TOAST_SECONDS)
                },
            }
        },
        Message::CancelKill => {
            &&& post == MonitorState { kill_confirm: false, ..pre }
            &&& command is Nothing
        },
        Message::KillFinished(success, name) => {
            &&& post == after_kill_report(pre, success, name@)
            &&& command == Command::HideToastAfter(TOAST_SECONDS)
        },
        Message::ExportToCsv => {
            &&& post == MonitorState { toast: Some(("Exporting..."@, ToastType::Success)), ..pre }
            &&& command matches Command::Export(list, cpu_cores, total_memory)
            &&& records(list@) == filtered(pre.processes, pre.filter)
            &&& cpu_cores == pre.host.cpu_cores
            &&& total_memory == pre.host.total_memory
        },
        Message::ExportFinished(Ok(report)) => {
            &&& post == MonitorState { toast: Some((report@, ToastType::Success)), ..pre }
            &&& command == Command::HideToastAfter(TOAST_SECONDS)
        },
        Message::ExportFinished(Err(reason)) => {
            &&& post == MonitorState {
                toast: Some(("Error: "@ + reason@, ToastType::Error)),
                log_lines: ring_after_push(
                    pre.log_lines,
                    failure_line("Export Failed: "@ + reason@),
                    LOG_CAPACITY as int,
                ),
                ..pre
            }
            &&& command == Command::HideToastAfter(TOAST_SECONDS)
        },
        Message::HideToast => {
            &&& post == MonitorState { toast: None, ..pre }
            &&& command is Nothing
        },
        Message::LoadLogs => {
            &&& post == MonitorState { log_lines: seq!["Loading logs..."@], ..pre }
            &&& command is LoadLogs
        },
        Message::LogsLoaded(Ok(lines)) => {
            &&& post == MonitorState {
                log_lines: newest(texts(lines@), LOG_CAPACITY as int),
                ..pre
            }
            &&& command is Nothing
        },
        Message::LogsLoaded(Err(reason)) => {
            &&& post == MonitorState {
                toast: Some(("Error: "@ + reason@, ToastType::Error)),
                log_lines: seq![reason@],
                ..pre
            }
            &&& command == Command::HideToastAfter(TOAST_SECONDS)
        },
        Message::EventOccurred(event) => {
            &&& post == MonitorState {
                kill_confirm: pre.kill_confirm || shortcut_requests_kill(pre, event),
                ..pre
            }
            &&& command is Nothing
        },
    }
}

/// A step that makes `sort` the sort key and puts the table in its order.
pub open spec fn sorts_by(pre: MonitorState, sort: SortBy, post: MonitorState, command: Command) -> bool {
    &&& sorted_from(pre.processes, post.processes, sort)
    &&& post == MonitorState { processes: post.processes, sort, ..pre }
    &&& command is Nothing
}

impl TarnerMonitor {
    /// Selects the first process of the table with this identifier, or
    /// nothing if the table has none, and drops a kill that waits for
    /// confirmation: it was meant for the old selection.
    pub fn select(&mut self, pid: Pid)
        ensures
            final(self)@ == (MonitorState {
                selected: first_with_pid(old(self)@.processes, pid),
                kill_confirm: false,
                ..old(self)@
            }),
    {
        let found = find_by_pid(&self.processes, pid);
        self.selected_process = found;
        self.kill_confirm = false;
    }

    /// Takes the sort key to a dimension, given by its two directions:
    /// descending if the key was that dimension ascending, else ascending.
    /// Then sorts the table.
    pub fn sort_by_dimension(&mut self, ascending: SortBy, descending: SortBy)
        ensures
            sorted_from(
                old(self)@.processes,
                final(self)@.processes,
                toggled(old(self)@.sort, ascending, descending),
            ),
            final(self)@ == (MonitorState {
                processes: final(self)@.processes,
                sort: toggled(old(self)@.sort, ascending, descending),
                ..old(self)@
            }),
    {
        if self.current_sort == ascending {
            self.current_sort = descending;
        } else {
            self.current_sort = ascending;
        }
        self.apply_sort();
    }

    /// Shows the report of a kill as a toast and, if the kill failed, logs
    /// it. The toast is to hide after [`TOAST_SECONDS`].
    pub fn report_kill(&mut self, success: bool, name: &str) -> (command: Command)
        ensures
            final(self)@ == after_kill_report(old(self)@, success, name@),
            command == Command::HideToastAfter(TOAST_SECONDS),
    {
        if success {
            let mut report = String::from_str("Successfully killed parent of ");
            report.append(name);
            self.toast = Some((report, ToastType::Success));
        } else {
            let mut report = String::from_str("Failed to kill parent of ");
            report.append(name);
            let mut line = String::from_str("[ERROR] ");
            line.append(report.as_str());
            self.toast = Some((report, ToastType::Error));
            self.push_log(line);
        }
        Command::HideToastAfter(TOAST_SECONDS)
    }

    /// Replaces the log ring by the newest [`LOG_CAPACITY`] of these lines.
    pub fn replace_log(&mut self, lines: Vec<String>)
        ensures
            final(self)@ == (MonitorState {
                log_lines: newest(texts(lines@), LOG_CAPACITY as int),
                ..old(self)@
            }),
    {
        let mut lines = lines;
        if lines.len() > LOG_CAPACITY {
            let ghost all = texts(lines@);
            let kept = lines.split_off(lines.len() - LOG_CAPACITY);
            assert(texts(kept@) =~= all.skip(all.len() - LOG_CAPACITY));
            self.log_lines = kept;
        } else {
            self.log_lines = lines;
        }
    }

    /// Applies one message: the one entry point through which the state
    /// changes. Returns the outside work that the message calls for.
    pub fn update(&mut self, message: Message) -> (command: Command)
        ensures
            step(old(self)@, message, final(self)@, command),
    {
        match message {
            Message::ProcessSelected(pid) => {
                self.select(pid);
                Command::Nothing
            },
            Message::SearchChanged(filter) => {
                self.search_str = filter;
                Command::Nothing
            },
            Message::SortAlpha => {
                self.sort_by_dimension(SortBy::AlphaAsc, SortBy::AlphaDesc);
                Command::Nothing
            },
            Message::SortCpu => {
                self.sort_by_dimension(SortBy::CpuAsc, SortBy::CpuDesc);
                Command::Nothing
            },
            Message::SortMem => {
                self.sort_by_dimension(SortBy::MemAsc, SortBy::MemDesc);
                Command::Nothing
            },
            Message::RefreshTick(snapshot) => {
                self.refresh_processes(snapshot);
                self.apply_sort();
                Command::Nothing
            },
            Message::ToggleTheme => {
                let theme = match self.theme {
                    AppTheme::Light => AppTheme::Dark,
                    AppTheme::Dark => AppTheme::Light,
                };
                self.theme = theme;
                Command::SaveTheme(theme)
            },
            Message::TabSelected(tab) => {
                self.active_tab = tab;
                if tab == Tab::Settings {
                    Command::LoadLogs
                } else {
                    Command::Nothing
                }
            },
            Message::RequestKill => {
                if self.selected_process.is_some() {
                    self.kill_confirm = true;
                }
                Command::Nothing
            },
            Message::ConfirmKill => {
                let (target, name) = self.kill_selected_parent();
                self.kill_confirm = false;
                self.selected_process = None;
                match target {
                    Some(parent) => Command::KillProcess(parent, name),
                    None => self.report_kill(false, name.as_str()),
                }
            },
            Message::CancelKill => {
                self.kill_confirm = false;
                Command::Nothing
            },
            Message::KillFinished(success, name) => self.report_kill(success, name.as_str()),
            Message::ExportToCsv => {
                self.toast = Some(("Exporting...".to_string(), ToastType::Success));
                let list = self.filtered_copies();
                Command::Export(list, self.system_manager.cpu_cores, self.system_manager.total_memory)
            },
            Message::ExportFinished(Ok(report)) => {
                self.toast = Some((report, ToastType::Success));
                Command::HideToastAfter(TOAST_SECONDS)
            },
            Message::ExportFinished(Err(reason)) => {
                let mut text = String::from_str("Error: ");
                text.append(reason.as_str());
                let mut line = String::from_str("[ERROR] ");
                line.append("Export Failed: ");
                line.append(reason.as_str());
                assert(line@ =~= failure_line("Export Failed: "@ + reason@));
                self.toast = Some((text, ToastType::Error));
                self.push_log(line);
                Command::HideToastAfter(TOAST_SECONDS)
            },
            Message::HideToast => {
                self.toast = None;
                Command::Nothing
            },
            Message::LoadLogs => {
                let mut lines: Vec<String> = Vec::new();
                lines.push("Loading logs...".to_string());
                assert(texts(lines@) =~= seq!["Loading logs..."@]);
                self.log_lines = lines;
                Command::LoadLogs
            },
            Message::LogsLoaded(Ok(lines)) => {
                self.replace_log(lines);
                Command::Nothing
            },
            Message::LogsLoaded(Err(reason)) => {
                let mut text = String::from_str("Error: ");
                text.append(reason.as_str());
                self.toast = Some((text, ToastType::Error));
                let mut lines: Vec<String> = Vec::new();
                lines.push(reason);
                assert(texts(lines@) =~= seq![reason@]);
                self.log_lines = lines;
                Command::HideToastAfter(TOAST_SECONDS)
            },
            Message::EventOccurred(event) => {
                match event {
                    Event::KeyPressed(Key::Delete) => {
                        if self.active_tab == Tab::Processes && !self.kill_confirm
                            && self.selected_process.is_some() {
                            self.kill_confirm = true;
                        }
                    },
                    _ => {},
                }
                Command::Nothing
            },
        }
    }

    /// Copies of the processes that pass the filter, in table order: what an
    /// export takes with it, so that later refreshes do not reach it.
    pub fn filtered_copies(&self) -> (list: Vec<ProcessInfo>)
        ensures
            records(list@) == filtered(self@.processes, self@.filter),
    {
        let shown = self.get_filtered();
        let mut list: Vec<ProcessInfo> = Vec::new();
        let mut i: usize = 0;
        while i < shown.len()
            invariant
                i <= shown.len(),
                records(list@) == shown.deep_view().take(i as int),
            decreases shown.len() - i,
        {
            let ghost sofar = records(list@);
            list.push(shown[i].clone());
            assert(records(list@) =~= sofar.push(shown@[i as int]@));
            assert(shown.deep_view().take(i + 1) =~= shown.deep_view().take(i as int).push(
                shown@[i as int]@,
            ));
            i += 1;
        }
        assert(shown.deep_view().take(i as int) =~= shown.deep_view());
        list
    }
}

} // verus!
