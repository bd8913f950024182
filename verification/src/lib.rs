//! The reactive state controller of an interactive process monitor.
//!
//! The controller owns what the user currently sees: the process table with
//! its filter and sort key, the selection, the kill confirmation, the toast
//! and the log ring. Every input reaches it as a [`state::Message`]; every
//! piece of outside work that it wants done leaves it as a
//! [`state::Command`]. One message is applied at a time, by
//! [`state::TarnerMonitor::update`], whose contract is the step relation
//! [`state::step`].
//!
//! - [`process`]: the records of a snapshot.
//! - [`system`]: the static facts about the host.
//! - [`text`]: searching, lower-casing and writing text.
//! - [`table`]: the order of the table and its filtered view.
//! - [`state`]: the state, the messages, the commands and the step.
//! - [`display`]: what the pages show of a state.
//! - [`export`]: the rows of the export file.
//! - [`logs`]: the log file read back.
//! - [`settings`]: the settings that outlive a run.
//! - [`laws`]: what holds of every step.

pub mod display;
pub mod export;
pub mod laws;
pub mod logs;
pub mod process;
pub mod settings;
pub mod state;
pub mod system;
pub mod table;
pub mod text;
