//! The latency log: where its files live, how they are named, and which
//! of them are old enough to be removed.

use vstd::prelude::*;
use vstd::string::*;
use crate::error::{outcome_view, SettingsError, SettingsErrorView};
use crate::paths::{
    appdata_settings_dir, get_appdata_settings_dir, join_path, joined_path, Platform,
    NO_CONFIG_ROOT,
};

verus! {

/// Name of the subdirectory of the settings directory that holds the
/// logs.
pub const LOG_SUBDIR: &'static str = "logs";

/// Extension of a log file.
pub const LOG_EXTENSION: &'static str = "log";

/// A calendar date of `chrono`. Nothing is known of what it holds.
#[verifier::external_type_specification]
#[verifier::external_body]
pub struct ExNaiveDate(chrono::NaiveDate);

/// A date as year, month and day with hyphens between, as
/// `NaiveDate::format` prints it for the pattern `%Y-%m-%d`.
pub uninterp spec fn date_text(date: chrono::NaiveDate) -> Seq<char>;

/// Calls `NaiveDate::format` with the pattern `%Y-%m-%d` and takes the
/// text that it prints. The contract only names the text, a function of the
/// date.
#[verifier::external_body]
pub(crate) fn format_date(date: &chrono::NaiveDate) -> (text: String)
    ensures
        text@ == date_text(*date),
{
    date.format("%Y-%m-%d").to_string()
}

/// Name of the log file of a day; `date` is the day as year, month and
/// day with hyphens between.
pub open spec fn log_file_name(date: Seq<char>) -> Seq<char> {
    "avd_latency_"@ + date + ".log"@
}

/// The log directory of an installed copy under a configuration root.
pub open spec fn log_directory(platform: Platform, root: Seq<char>) -> Seq<char> {
    joined_path(appdata_settings_dir(platform, root), LOG_SUBDIR@)
}

/// The log directory. `config_root` is the value of the variable that
/// `config_root_variable` names, if it is set.
pub fn get_log_directory(platform: Platform, config_root: Option<&str>) -> (dir: Result<
    String,
    SettingsError,
>)
    ensures
        outcome_view(dir) == match config_root {
            Some(root) => Ok::<Seq<char>, SettingsErrorView>(log_directory(platform, root@)),
            None => Err(SettingsErrorView::NotFound(NO_CONFIG_ROOT@)),
        },
{
    match get_appdata_settings_dir(platform, config_root) {
        Ok(dir) => Ok(join_path(dir.as_str(), LOG_SUBDIR)),
        Err(e) => Err(e),
    }
}

/// The latency log of one day.
#[derive(Debug, PartialEq, Eq)]
pub struct Logger {
    log_path: String,
    retention_days: u32,
}

/// View of a [`Logger`].
pub struct LoggerView {
    pub log_path: Seq<char>,
    pub retention_days: u32,
}

impl View for Logger {
    type V = LoggerView;

    closed spec fn view(&self) -> LoggerView {
        LoggerView { log_path: self.log_path@, retention_days: self.retention_days }
    }
}

impl Logger {
    /// The log of the day `today` in `log_dir`, whose files are kept for
    /// `retention_days` days.
    pub fn new(log_dir: &str, today: &chrono::NaiveDate, retention_days: u32) -> (logger: Logger)
        ensures
            logger@ == (LoggerView {
                log_path: joined_path(log_dir@, log_file_name(date_text(*today))),
                retention_days,
            }),
    {
        let mut name = "avd_latency_".to_string();
        name.append(format_date(today).as_str());
        name.append(".log");
        Logger { log_path: join_path(log_dir, name.as_str()), retention_days }
    }

    /// Path of the file that is written to.
    pub fn get_log_path(&self) -> (path: &String)
        ensures
            path@ == self@.log_path,
    {
        &self.log_path
    }

    /// Days for which log files are kept.
    pub fn retention_days(&self) -> (days: u32)
        ensures
            days == self@.retention_days,
    {
        self.retention_days
    }
}

/// What is known of an entry of the log directory.
#[derive(Debug, PartialEq, Eq)]
pub struct LogEntry {
    /// Whether the entry is a file.
    pub is_file: bool,
    /// The extension of its name, where it has one.
    pub extension: Option<String>,
    /// Whether it was last modified before the cutoff; `None` where that
    /// cannot be found out.
    pub modified_before_cutoff: Option<bool>,
}

/// Whether an entry of the log directory is removed: it is a file with the
/// extension of a log and was last modified before the cutoff.
pub open spec fn expired(
    is_file: bool,
    extension: Option<Seq<char>>,
    modified_before_cutoff: Option<bool>,
) -> bool {
    is_file && extension == Some(LOG_EXTENSION@) && modified_before_cutoff == Some(true)
}

/// Decides whether an entry of the log directory is removed.
pub fn is_expired_log(entry: &LogEntry) -> (remove: bool)
    ensures
        remove == expired(
            entry.is_file,
            entry.extension.deep_view(),
            entry.modified_before_cutoff,
        ),
{
    let is_log = match &entry.extension {
        Some(extension) => *extension == LOG_EXTENSION.to_owned(),
        None => false,
    };
    let old = match entry.modified_before_cutoff {
        Some(before) => before,
        None => false,
    };
    entry.is_file && is_log && old
}

} // verus!
