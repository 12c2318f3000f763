//! The operation log: one record per operation, appended to an active file
//! that is rotated into a single backup once it has grown over a size limit.
//!
//! Nothing here touches a file. The logger decides, from what its caller has
//! observed of the files, which steps are to be carried out on them, and it
//! turns the lines that the caller has read back into records and figures.

use crate::models::formatting::FormattingResult;
use crate::models::log_entry::{
    LogEntry, LogStatistics, OperationResult, OperationType, Timestamp,
};
use crate::models::validation::ValidationResult;
use std::path::PathBuf;
use vstd::prelude::*;

verus! {

/// Size in bytes over which the active file is rotated before the next
/// record is appended: 5 MiB.
pub const MAX_LOG_FILE_SIZE: u64 = 5242880;

/// Name of the active file within the directory of the log.
pub const LOG_FILE_NAME: &'static str = "operations.log";

/// Extension that the backup file has in place of the active file's `log`.
pub const BACKUP_EXTENSION: &'static str = "log.old";

/// `std::path::PathBuf`. The library keeps the path of the active file and
/// hands it out; it never looks inside it.
#[verifier::external_type_specification]
#[verifier::external_body]
pub struct ExPathBuf(PathBuf);

/// `Clone::clone` of `std::path::PathBuf`: the copy is the same path.
pub assume_specification[ <PathBuf as Clone>::clone ](path: &PathBuf) -> (copy: PathBuf)
    ensures
        copy == *path,
;

/// Reads the clock with `std::time::SystemTime::now` and turns the reading
/// into a `chrono::DateTime<Utc>` by chrono's `From<SystemTime>`, which
/// counts a time before 1970 as a negative number of seconds and holds
/// every instant within the years that chrono has dates for. The instant
/// is returned as its `timestamp()` and `timestamp_subsec_nanos()`. Nothing
/// is known of the instant.
#[verifier::external_body]
pub(crate) fn current_time() -> Timestamp {
    let now = chrono::DateTime::<chrono::Utc>::from(std::time::SystemTime::now());
    Timestamp { secs: now.timestamp(), nanos: now.timestamp_subsec_nanos() }
}

/// One step on the files of the log. The caller carries the steps of a plan
/// out in order and stops at the first one that fails.
#[derive(Debug, Clone)]
pub enum FileStep {
    /// Delete the backup file.
    RemoveBackup,
    /// Rename the active file to the backup file.
    MoveActiveToBackup,
    /// Append the record as one line to the active file, creating the file
    /// if there is none, and flush it.
    Append(LogEntry),
    /// Delete the active file.
    RemoveActive,
}

/// The two files of a log, each by the records in it, oldest first; `None`
/// stands for a file that does not exist.
pub struct LogFiles {
    pub active: Option<Seq<LogEntry>>,
    pub backup: Option<Seq<LogEntry>>,
}

impl LogFiles {
    /// The files after `step` has been carried out.
    pub open spec fn after_step(self, step: FileStep) -> LogFiles {
        match step {
            FileStep::RemoveBackup => LogFiles { active: self.active, backup: None },
            FileStep::MoveActiveToBackup => LogFiles { active: None, backup: self.active },
            FileStep::Append(entry) => LogFiles {
                active: Some(
                    match self.active {
                        Some(records) => records.push(entry),
                        None => seq![entry],
                    },
                ),
                backup: self.backup,
            },
            FileStep::RemoveActive => LogFiles { active: None, backup: self.backup },
        }
    }

    /// The files after `steps` have been carried out in order.
    pub open spec fn after(self, steps: Seq<FileStep>) -> LogFiles
        decreases steps.len(),
    {
        if steps.len() == 0 {
            self
        } else {
            self.after_step(steps.first()).after(steps.drop_first())
        }
    }
}

/// Whether an active file of this size, if there is one, is rotated before
/// the next record is appended.
pub open spec fn needs_rotation(active_size: Option<u64>) -> bool {
    active_size matches Some(size) && size > MAX_LOG_FILE_SIZE
}

/// The steps of a rotation: an existing backup is deleted, then the active
/// file takes its place.
pub open spec fn rotation_steps(backup_exists: bool) -> Seq<FileStep> {
    if backup_exists {
        seq![FileStep::RemoveBackup, FileStep::MoveActiveToBackup]
    } else {
        seq![FileStep::MoveActiveToBackup]
    }
}

/// The steps that write `entry`: a rotation first if the active file is over
/// the size limit, then the append.
pub open spec fn write_steps(active_size: Option<u64>, backup_exists: bool, entry: LogEntry) -> Seq<
    FileStep,
> {
    if needs_rotation(active_size) {
        rotation_steps(backup_exists).push(FileStep::Append(entry))
    } else {
        seq![FileStep::Append(entry)]
    }
}

/// The steps that clear the log: the active file is deleted if it exists.
pub open spec fn clear_steps(active_exists: bool) -> Seq<FileStep> {
    if active_exists {
        seq![FileStep::RemoveActive]
    } else {
        Seq::empty()
    }
}

/// The records among `lines`, in the order of the lines. A line that could
/// not be read as a record is `None` and is left out.
pub open spec fn records(lines: Seq<Option<LogEntry>>) -> Seq<LogEntry>
    decreases lines.len(),
{
    if lines.len() == 0 {
        Seq::empty()
    } else {
        match lines.last() {
            Some(entry) => records(lines.drop_last()).push(entry),
            None => records(lines.drop_last()),
        }
    }
}

/// The first `limit` of `entries`, or all of them if there is no limit or
/// there are no more than `limit`.
pub open spec fn limited(entries: Seq<LogEntry>, limit: Option<usize>) -> Seq<LogEntry> {
    match limit {
        Some(n) => if n < entries.len() {
            entries.take(n as int)
        } else {
            entries
        },
        None => entries,
    }
}

/// What reading the log returns for `lines` and `limit`: the records among
/// the lines, newest first, cut off after `limit` of them.
pub open spec fn read_back(lines: Seq<Option<LogEntry>>, limit: Option<usize>) -> Seq<LogEntry> {
    limited(records(lines).reverse(), limit)
}

/// The records that ended in `result`.
pub open spec fn with_result(result: OperationResult) -> spec_fn(LogEntry) -> bool {
    |entry: LogEntry| entry.result == result
}

/// The records of the operation `operation`.
pub open spec fn with_operation(operation: OperationType) -> spec_fn(LogEntry) -> bool {
    |entry: LogEntry| entry.operation == operation
}

/// The sum of the processing times of `entries`.
pub open spec fn total_time(entries: Seq<LogEntry>) -> nat
    decreases entries.len(),
{
    if entries.len() == 0 {
        0
    } else {
        total_time(entries.drop_last()) + entries.last().processing_time_ms as nat
    }
}

/// `stats` holds the figures of `entries`, which are ordered newest first.
pub open spec fn is_summary_of(stats: LogStatistics, entries: Seq<LogEntry>) -> bool {
    &&& stats.total_operations == entries.len()
    &&& stats.success_count == entries.filter(with_result(OperationResult::Success)).len()
    &&& stats.error_count == entries.filter(with_result(OperationResult::Error)).len()
    &&& stats.validate_count == entries.filter(with_operation(OperationType::Validate)).len()
    &&& stats.format_count == entries.filter(with_operation(OperationType::Format)).len()
    &&& stats.minify_count == entries.filter(with_operation(OperationType::Minify)).len()
    &&& stats.total_processing_time_ms == total_time(entries)
    &&& stats.earliest_log == (if entries.len() == 0 {
        None
    } else {
        Some(entries.last().timestamp)
    })
    &&& stats.latest_log == (if entries.len() == 0 {
        None
    } else {
        Some(entries.first().timestamp)
    })
}

/// The figures of `entries`, which are ordered newest first.
///
/// Every record counts once under its result and once under its operation,
/// so the two groups of counts each add up to the total.
pub fn summarize(entries: &Vec<LogEntry>) -> (stats: LogStatistics)
    ensures
        is_summary_of(stats, entries@),
        stats.success_count + stats.error_count == stats.total_operations,
        stats.validate_count + stats.format_count + stats.minify_count == stats.total_operations,
{
    let mut success: usize = 0;
    let mut error: usize = 0;
    let mut validate: usize = 0;
    let mut format: usize = 0;
    let mut minify: usize = 0;
    let mut total: u128 = 0;
    let mut i: usize = 0;
    while i < entries.len()
        invariant
            i <= entries.len(),
            success == entries@.take(i as int).filter(with_result(OperationResult::Success)).len(),
            error == entries@.take(i as int).filter(with_result(OperationResult::Error)).len(),
            validate == entries@.take(i as int).filter(
                with_operation(OperationType::Validate),
            ).len(),
            format == entries@.take(i as int).filter(with_operation(OperationType::Format)).len(),
            minify == entries@.take(i as int).filter(with_operation(OperationType::Minify)).len(),
            total == total_time(entries@.take(i as int)),
            success + error == i,
            validate + format + minify == i,
            total <= i * 0xffff_ffff_ffff_ffff,
        decreases entries.len() - i,
    {
        let entry = &entries[i];
        proof {
            let before = entries@.take(i as int);
            assert(entries@.take(i + 1) =~= before.push(*entry));
            before.lemma_filter_len_push(with_result(OperationResult::Success), *entry);
            before.lemma_filter_len_push(with_result(OperationResult::Error), *entry);
            before.lemma_filter_len_push(with_operation(OperationType::Validate), *entry);
            before.lemma_filter_len_push(with_operation(OperationType::Format), *entry);
            before.lemma_filter_len_push(with_operation(OperationType::Minify), *entry);
            assert(before.push(*entry).drop_last() =~= before);
        }
        match entry.result {
            OperationResult::Success => { success += 1; },
            OperationResult::Error => { error += 1; },
        }
        match entry.operation {
            OperationType::Validate => { validate += 1; },
            OperationType::Format => { format += 1; },
            OperationType::Minify => { minify += 1; },
        }
        total += entry.processing_time_ms as u128;
        i += 1;
    }
    assert(entries@.take(entries.len() as int) =~= entries@);
    let (earliest, latest) = if entries.len() == 0 {
        (None, None)
    } else {
        (Some(entries[entries.len() - 1].timestamp), Some(entries[0].timestamp))
    };
    LogStatistics {
        total_operations: entries.len(),
        success_count: success,
        error_count: error,
        validate_count: validate,
        format_count: format,
        minify_count: minify,
        total_processing_time_ms: total,
        earliest_log: earliest,
        latest_log: latest,
    }
}

/// What is logged of a validation: how it ended and, if it failed, its
/// message. The logged result is an error exactly when the validation's is.
pub fn logged_validation(result: &ValidationResult) -> (logged: (OperationResult, Option<String>))
    ensures
        logged.0 == OperationResult::Error <==> result@ is Error,
        logged == match *result {
            ValidationResult::Success { .. } => (OperationResult::Success, None::<String>),
            ValidationResult::Error { message, .. } => (OperationResult::Error, Some(message)),
        },
{
    match result {
        ValidationResult::Success { .. } => (OperationResult::Success, None),
        ValidationResult::Error { message, .. } => (OperationResult::Error, Some(message.clone())),
    }
}

/// What is logged of a pretty-print or a minification: how it ended and, if
/// it failed, its message. The logged result is an error exactly when the
/// operation's is.
pub fn logged_formatting(result: &FormattingResult) -> (logged: (OperationResult, Option<String>))
    ensures
        logged.0 == OperationResult::Error <==> result@ is Error,
        logged == match *result {
            FormattingResult::Success { .. } => (OperationResult::Success, None::<String>),
            FormattingResult::Error { message } => (OperationResult::Error, Some(message)),
        },
{
    match result {
        FormattingResult::Success { .. } => (OperationResult::Success, None),
        FormattingResult::Error { message } => (OperationResult::Error, Some(message.clone())),
    }
}

/// Rotation keeps one generation. When an enabled logger records `entry`
/// and the active file is over the size limit, carrying out its steps
/// leaves the new record alone in the active file and the former content of
/// the active file in the backup, whatever the backup held before.
pub proof fn lemma_rotation_keeps_one_generation(
    logger: Logger,
    files: LogFiles,
    active_size: Option<u64>,
    entry: LogEntry,
)
    requires
        logger.enabled(),
        files.active is Some,
        needs_rotation(active_size),
    ensures
        files.after(logger.steps_for(active_size, files.backup is Some, entry)) == (LogFiles {
            active: Some(seq![entry]),
            backup: files.active,
        }),
{
    let steps = logger.steps_for(active_size, files.backup is Some, entry);
    let moved = LogFiles { active: None, backup: files.active };
    let done = LogFiles { active: Some(seq![entry]), backup: files.active };
    let last = seq![FileStep::Append(entry)];
    assert(moved.after(last) == done) by {
        assert(done.after(last.drop_first()) == done);
    }
    if files.backup is Some {
        let tail = seq![FileStep::MoveActiveToBackup, FileStep::Append(entry)];
        assert(steps.drop_first() =~= tail);
        assert(tail.drop_first() =~= last);
        let cleared = LogFiles { active: files.active, backup: None };
        assert(cleared.after(tail) == done);
    } else {
        assert(steps.drop_first() =~= last);
    }
}

/// When an enabled logger records `entry` and the active file is missing or
/// within the size limit, carrying out its steps adds the record at the end
/// of the active file and leaves the backup as it was.
pub proof fn lemma_append_keeps_earlier_records(
    logger: Logger,
    files: LogFiles,
    active_size: Option<u64>,
    backup_exists: bool,
    entry: LogEntry,
)
    requires
        logger.enabled(),
        !needs_rotation(active_size),
    ensures
        files.after(logger.steps_for(active_size, backup_exists, entry)) == (LogFiles {
            active: Some(
                match files.active {
                    Some(earlier) => earlier.push(entry),
                    None => seq![entry],
                },
            ),
            backup: files.backup,
        }),
{
    let steps = logger.steps_for(active_size, backup_exists, entry);
    let done = files.after_step(steps.first());
    assert(done.after(steps.drop_first()) == done);
}

/// A disabled logger leaves the files as they are.
pub proof fn lemma_disabled_logger_writes_nothing(
    logger: Logger,
    files: LogFiles,
    active_size: Option<u64>,
    backup_exists: bool,
    entry: LogEntry,
)
    requires
        !logger.enabled(),
    ensures
        files.after(logger.steps_for(active_size, backup_exists, entry)) == files,
{
}

/// Clearing the log leaves no active file and does not touch the backup.
pub proof fn lemma_clear_removes_active_only(files: LogFiles)
    ensures
        files.after(clear_steps(files.active is Some)) == (LogFiles {
            active: None,
            backup: files.backup,
        }),
{
    let steps = clear_steps(files.active is Some);
    if files.active is Some {
        let done = files.after_step(steps.first());
        assert(done.after(steps.drop_first()) == done);
    }
}

/// After a record has been written, reading the log with a limit of one
/// returns exactly that record, whatever lines came before it.
pub proof fn lemma_last_written_is_read_first(earlier: Seq<Option<LogEntry>>, entry: LogEntry)
    ensures
        read_back(earlier.push(Some(entry)), Some(1)) == seq![entry],
{
    lemma_reverse_push(records(earlier), entry);
}

/// Reading with a limit returns the beginning of what reading without a
/// limit returns, and never more records than the limit.
pub proof fn lemma_limit_keeps_newest(lines: Seq<Option<LogEntry>>, limit: usize)
    ensures
        read_back(lines, Some(limit)).len() <= limit,
        read_back(lines, Some(limit)).len() <= read_back(lines, None).len(),
        forall|i: int|
            0 <= i < read_back(lines, Some(limit)).len() ==> #[trigger] read_back(
                lines,
                Some(limit),
            )[i] == read_back(lines, None)[i],
{
}

/// Reversing after a record has been added at the end puts it in front.
proof fn lemma_reverse_push(entries: Seq<LogEntry>, entry: LogEntry)
    ensures
        entries.push(entry).reverse() == seq![entry] + entries.reverse(),
{
    assert(entries.push(entry).reverse() =~= seq![entry] + entries.reverse());
}

/// The logger of one log: where its active file is, which application
/// version it writes into the records, and whether it writes at all.
pub struct Logger {
    log_file_path: PathBuf,
    app_version: String,
    enabled: bool,
}

impl Logger {
    /// Path of the active file.
    pub closed spec fn path(&self) -> PathBuf {
        self.log_file_path
    }

    /// The application version written into every record.
    pub closed spec fn version(&self) -> String {
        self.app_version
    }

    /// Whether new records are written.
    pub closed spec fn enabled(&self) -> bool {
        self.enabled
    }

    /// The record that this logger makes of an operation at `timestamp`.
    pub open spec fn entry_at(
        &self,
        timestamp: Timestamp,
        operation: OperationType,
        result: OperationResult,
        input_size: usize,
        processing_time_ms: u64,
        error_message: Option<String>,
    ) -> LogEntry {
        LogEntry {
            timestamp,
            operation,
            result,
            input_size,
            processing_time_ms,
            error_message,
            app_version: self.version(),
        }
    }

    /// The steps by which this logger records `entry`: none while it is
    /// disabled.
    pub open spec fn steps_for(
        &self,
        active_size: Option<u64>,
        backup_exists: bool,
        entry: LogEntry,
    ) -> Seq<FileStep> {
        if self.enabled() {
            write_steps(active_size, backup_exists, entry)
        } else {
            Seq::empty()
        }
    }

    /// A logger for the active file at `log_file_path`. It is enabled.
    pub fn new(log_file_path: PathBuf, app_version: String) -> (logger: Logger)
        ensures
            logger.path() == log_file_path,
            logger.version() == app_version,
            logger.enabled(),
    {
        Logger { log_file_path, app_version, enabled: true }
    }

    /// The steps that record an operation which the caller timed at
    /// `timestamp`.
    ///
    /// `active_size` is the size of the active file in bytes, or `None` if
    /// it could not be had; `backup_exists` tells whether there is a backup
    /// file.
    pub fn record_at(
        &self,
        timestamp: Timestamp,
        active_size: Option<u64>,
        backup_exists: bool,
        operation: OperationType,
        result: OperationResult,
        input_size: usize,
        processing_time_ms: u64,
        error_message: Option<String>,
    ) -> (steps: Vec<FileStep>)
        ensures
            steps@ == self.steps_for(
                active_size,
                backup_exists,
                self.entry_at(
                    timestamp,
                    operation,
                    result,
                    input_size,
                    processing_time_ms,
                    error_message,
                ),
            ),
    {
        if !self.enabled {
            return Vec::new();
        }
        let rotate = match active_size {
            Some(size) => size > MAX_LOG_FILE_SIZE,
            None => false,
        };
        let mut steps = if rotate {
            self.rotate_log_file(backup_exists)
        } else {
            Vec::new()
        };
        let entry = LogEntry {
            timestamp,
            operation,
            result,
            input_size,
            processing_time_ms,
            error_message,
            app_version: self.app_version.clone(),
        };
        steps.push(FileStep::Append(entry));
        assert(steps@ =~= write_steps(active_size, backup_exists, entry));
        steps
    }

    /// The steps that record an operation now.
    ///
    /// A disabled logger records nothing. An enabled one appends one record
    /// with the current time, after a rotation if the active file is over
    /// the size limit. `active_size` and `backup_exists` are as in
    /// [`Logger::record_at`].
    pub fn log_operation(
        &self,
        active_size: Option<u64>,
        backup_exists: bool,
        operation: OperationType,
        result: OperationResult,
        input_size: usize,
        processing_time_ms: u64,
        error_message: Option<String>,
    ) -> (steps: Vec<FileStep>)
        ensures
            exists|timestamp: Timestamp|
                steps@ == self.steps_for(
                    active_size,
                    backup_exists,
                    #[trigger] self.entry_at(
                        timestamp,
                        operation,
                        result,
                        input_size,
                        processing_time_ms,
                        error_message,
                    ),
                ),
    {
        if !self.enabled {
            let steps: Vec<FileStep> = Vec::new();
            proof {
                // Whatever the time, a disabled logger takes no step.
                let entry = self.entry_at(
                    Timestamp { secs: 0, nanos: 0 },
                    operation,
                    result,
                    input_size,
                    processing_time_ms,
                    error_message,
                );
                assert(steps@ == self.steps_for(active_size, backup_exists, entry));
            }
            return steps;
        }
        let now = current_time();
        self.record_at(
            now,
            active_size,
            backup_exists,
            operation,
            result,
            input_size,
            processing_time_ms,
            error_message,
        )
    }

    /// The records among `lines`, newest first, at most `limit` of them.
    ///
    /// `lines` holds one item for each line of the active file, in the
    /// order of the file: the record read from the line, or `None` for a
    /// line that is blank or is no record. A missing file has no lines.
    pub fn read_logs(&self, lines: Vec<Option<LogEntry>>, limit: Option<usize>) -> (entries: Vec<
        LogEntry,
    >)
        ensures
            entries@ == read_back(lines@, limit),
    {
        let ghost all = lines@;
        let mut lines = lines;
        let mut entries: Vec<LogEntry> = Vec::new();
        while lines.len() > 0
            invariant
                limited(records(all).reverse(), limit) == limited(
                    entries@ + records(lines@).reverse(),
                    limit,
                ),
                limit matches Some(n) ==> entries.len() <= n,
            decreases lines.len(),
        {
            let ghost before = lines@;
            let line = lines.pop();
            proof {
                // The line taken off the end holds the newest record that
                // has not been looked at yet.
                if let Some(entry) = before.last() {
                    lemma_reverse_push(records(lines@), entry);
                }
            }
            match line {
                Some(Some(entry)) => {
                    let full = match limit {
                        Some(n) => entries.len() >= n,
                        None => false,
                    };
                    if !full {
                        entries.push(entry);
                    }
                },
                _ => {},
            }
        }
        assert(entries@ + records(lines@).reverse() =~= entries@);
        entries
    }

    /// The figures of the log whose active file holds `lines`, which are as
    /// in [`Logger::read_logs`]. Every record counts, whatever limit the log
    /// is otherwise read with.
    pub fn get_statistics(&self, lines: Vec<Option<LogEntry>>) -> (stats: LogStatistics)
        ensures
            is_summary_of(stats, read_back(lines@, None)),
            stats.success_count + stats.error_count == stats.total_operations,
            stats.validate_count + stats.format_count + stats.minify_count
                == stats.total_operations,
    {
        let entries = self.read_logs(lines, None);
        summarize(&entries)
    }

    /// The steps that clear the log: the active file is deleted if it
    /// exists. The backup is left alone.
    pub fn clear_logs(&self, active_exists: bool) -> (steps: Vec<FileStep>)
        ensures
            steps@ == clear_steps(active_exists),
    {
        let mut steps: Vec<FileStep> = Vec::new();
        if active_exists {
            steps.push(FileStep::RemoveActive);
        }
        assert(steps@ =~= clear_steps(active_exists));
        steps
    }

    /// The path of the active file.
    pub fn get_log_path(&self) -> (path: PathBuf)
        ensures
            path == self.path(),
    {
        self.log_file_path.clone()
    }

    /// Turns the writing of new records on or off. Nothing else changes.
    pub fn set_enabled(&mut self, enabled: bool)
        ensures
            final(self).enabled() == enabled,
            final(self).path() == old(self).path(),
            final(self).version() == old(self).version(),
    {
        self.enabled = enabled;
    }

    /// Whether new records are written.
    pub fn is_enabled(&self) -> (enabled: bool)
        ensures
            enabled == self.enabled(),
    {
        self.enabled
    }

    /// The steps of a rotation: the backup, if there is one, is deleted,
    /// and the active file is renamed to take its place.
    pub fn rotate_log_file(&self, backup_exists: bool) -> (steps: Vec<FileStep>)
        ensures
            steps@ == rotation_steps(backup_exists),
    {
        let mut steps: Vec<FileStep> = Vec::new();
        if backup_exists {
            steps.push(FileStep::RemoveBackup);
        }
        steps.push(FileStep::MoveActiveToBackup);
        assert(steps@ =~= rotation_steps(backup_exists));
        steps
    }
}

} // verus!
