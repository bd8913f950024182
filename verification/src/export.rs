//! The rows of the export file: one header, then one record per process.
//!
//! The two percentages of a record are fractions; whoever writes the file
//! computes and formats them and hands them in as text.

use sysinfo::ProcessStatus;
use vstd::prelude::*;
use vstd::string::*;

use crate::process::{Pid, ProcessInfo, ProcessRecord};
use crate::state::{shown_name, texts};
use crate::text::{decimal, decimal_text, lossy_text};

verus! {

/// The column titles, in file order.
pub open spec fn header_titles() -> Seq<Seq<char>> {
    seq![
        "PID"@,
        "Name"@,
        "Parent PID"@,
        "Status"@,
        "CPU %"@,
        "Memory %"@,
        "Memory (bytes)"@,
        "Disk Read (bytes)"@,
        "Disk Write (bytes)"@,
        "Runtime (sec)"@,
    ]
}

/// The header row.
pub fn export_header() -> (header: Vec<String>)
    ensures
        texts(header@) == header_titles(),
{
    let mut header: Vec<String> = Vec::new();
    header.push("PID".to_string());
    header.push("Name".to_string());
    header.push("Parent PID".to_string());
    header.push("Status".to_string());
    header.push("CPU %".to_string());
    header.push("Memory %".to_string());
    header.push("Memory (bytes)".to_string());
    header.push("Disk Read (bytes)".to_string());
    header.push("Disk Write (bytes)".to_string());
    header.push("Runtime (sec)".to_string());
    assert(texts(header@) =~= header_titles());
    header
}

/// How a parent is written: its identifier in decimal, or `N/A` for a
/// process without parent.
pub open spec fn parent_text(parent: Option<Pid>) -> Seq<char> {
    match parent {
        Some(pid) => decimal(pid.0 as nat),
        None => "N/A"@,
    }
}

/// Writes a parent as [`parent_text`] says.
pub fn parent_pid_text(parent: Option<Pid>) -> (text: String)
    ensures
        text@ == parent_text(parent),
{
    match parent {
        Some(pid) => decimal_text(pid.as_u32() as u64),
        None => "N/A".to_string(),
    }
}

/// The fields of the record of one process, given how its status reads and
/// its two percentages.
pub open spec fn record_fields(
    process: ProcessRecord,
    status: Seq<char>,
    cpu_percent: Seq<char>,
    memory_percent: Seq<char>,
) -> Seq<Seq<char>> {
    seq![
        decimal(process.pid.0 as nat),
        shown_name(process.name),
        parent_text(process.parent_pid),
        status,
        cpu_percent,
        memory_percent,
        decimal(process.memory_usage as nat),
        decimal(process.disk_usage.read_bytes as nat),
        decimal(process.disk_usage.written_bytes as nat),
        decimal(process.run_time as nat),
    ]
}

/// The record of one process, given how its status reads and its two
/// percentages.
pub fn export_fields(
    process: &ProcessInfo,
    status: String,
    cpu_percent: String,
    memory_percent: String,
) -> (fields: Vec<String>)
    ensures
        texts(fields@) == record_fields(process@, status@, cpu_percent@, memory_percent@),
{
    let mut fields: Vec<String> = Vec::new();
    fields.push(decimal_text(process.pid.as_u32() as u64));
    fields.push(lossy_text(&process.name));
    fields.push(parent_pid_text(process.parent_pid));
    fields.push(status);
    fields.push(cpu_percent);
    fields.push(memory_percent);
    fields.push(decimal_text(process.memory_usage));
    fields.push(decimal_text(process.disk_usage.read_bytes));
    fields.push(decimal_text(process.disk_usage.written_bytes));
    fields.push(decimal_text(process.run_time));
    assert(texts(fields@) =~= record_fields(
        process@,
        status@,
        cpu_percent@,
        memory_percent@,
    ));
    fields
}

/// How a status reads, by the `Display` impl that `sysinfo` gives
/// `ProcessStatus`. The words differ from platform to platform, so the
/// contract claims nothing of them.
#[verifier::external_body]
pub(crate) fn status_label(status: &ProcessStatus) -> (label: String) {
    status.to_string()
}

/// The record of one process, given its two percentages. The status reads
/// as the host's platform words it; every other field is as
/// [`record_fields`] says.
pub fn export_record(process: &ProcessInfo, cpu_percent: String, memory_percent: String) -> (fields:
    Vec<String>)
    ensures
        exists|status: Seq<char>|
            texts(fields@) == record_fields(process@, status, cpu_percent@, memory_percent@),
{
    let status = status_label(&process.status);
    export_fields(process, status, cpu_percent, memory_percent)
}

/// The name of the export file, within the download directory.
pub const EXPORT_FILE: &'static str = "tarner_monitor_export.csv";

/// The step at which writing the export file failed.
#[derive(Clone, Copy, Debug, PartialEq, Eq, Structural)]
pub enum ExportStep {
    Create,
    Header,
    Record,
    Flush,
}

/// How writing the export file went.
#[derive(Debug)]
pub enum ExportRun {
    /// The host has no download directory.
    NoDownloadDir,
    /// A step failed, for this reason.
    Failed(ExportStep, String),
    /// The file was written to this path.
    Written(String),
}

/// What is said of a failed step, before the reason.
pub open spec fn step_complaint(step: ExportStep) -> Seq<char> {
    match step {
        ExportStep::Create => "Failed to create file: "@,
        ExportStep::Header => "Failed to write header: "@,
        ExportStep::Record => "Failed to write record: "@,
        ExportStep::Flush => "Failed to flush CSV: "@,
    }
}

/// The outcome of an export as the controller takes it: a report of
/// success that names the file, or the reason of the failure.
pub fn export_finished(run: ExportRun) -> (outcome: Result<String, String>)
    ensures
        match run {
            ExportRun::NoDownloadDir => outcome is Err && outcome->Err_0@
                == "Could not find download directory."@,
            ExportRun::Failed(step, reason) => outcome is Err && outcome->Err_0@ == step_complaint(
                step,
            ) + reason@,
            ExportRun::Written(path) => outcome is Ok && outcome->Ok_0@ == "Export successful to "@
                + path@,
        },
{
    match run {
        ExportRun::NoDownloadDir => Err("Could not find download directory.".to_string()),
        ExportRun::Failed(step, reason) => {
            let mut text = match step {
                ExportStep::Create => String::from_str("Failed to create file: "),
                ExportStep::Header => String::from_str("Failed to write header: "),
                ExportStep::Record => String::from_str("Failed to write record: "),
                ExportStep::Flush => String::from_str("Failed to flush CSV: "),
            };
            text.append(reason.as_str());
            Err(text)
        },
        ExportRun::Written(path) => {
            let mut text = String::from_str("Export successful to ");
            text.append(path.as_str());
            Ok(text)
        },
    }
}

} // verus!
