//! Records of the operation log and the statistics drawn from them.

use vstd::prelude::*;

verus! {

/// An instant in UTC: the whole seconds since 1970-01-01 00:00:00 and the
/// nanoseconds past that second.
#[derive(Debug, Clone, Copy, PartialEq, Eq, Structural)]
pub struct Timestamp {
    pub secs: i64,
    pub nanos: u32,
}

/// The kind of a logged operation.
#[derive(Debug, Clone, Copy, PartialEq, Eq, Structural)]
pub enum OperationType {
    Validate,
    Format,
    Minify,
}

impl OperationType {
    /// The name shown to users.
    pub fn as_str(&self) -> (name: &'static str)
        ensures
            name@ == match *self {
                OperationType::Validate => "验证"@,
                OperationType::Format => "格式化"@,
                OperationType::Minify => "压缩"@,
            },
    {
        match self {
            OperationType::Validate => "验证",
            OperationType::Format => "格式化",
            OperationType::Minify => "压缩",
        }
    }
}

/// How a logged operation ended.
#[derive(Debug, Clone, Copy, PartialEq, Eq, Structural)]
pub enum OperationResult {
    Success,
    Error,
}

impl OperationResult {
    /// The name shown to users.
    pub fn as_str(&self) -> (name: &'static str)
        ensures
            name@ == match *self {
                OperationResult::Success => "成功"@,
                OperationResult::Error => "失败"@,
            },
    {
        match self {
            OperationResult::Success => "成功",
            OperationResult::Error => "失败",
        }
    }
}

/// One record of the operation log.
#[derive(Debug, Clone)]
pub struct LogEntry {
    /// When the record was made.
    pub timestamp: Timestamp,
    pub operation: OperationType,
    pub result: OperationResult,
    /// Length of the operation's input in bytes.
    pub input_size: usize,
    /// How long the operation took, in milliseconds.
    pub processing_time_ms: u64,
    /// The operation's error message, if it failed.
    pub error_message: Option<String>,
    /// Version of the application that wrote the record.
    pub app_version: String,
}

/// Figures drawn from a sequence of records.
#[derive(Debug, Clone, Copy, PartialEq, Eq, Structural)]
pub struct LogStatistics {
    /// Number of records.
    pub total_operations: usize,
    /// Number of records of a successful operation.
    pub success_count: usize,
    /// Number of records of a failed operation.
    pub error_count: usize,
    /// Number of records of a validation.
    pub validate_count: usize,
    /// Number of records of a pretty-print.
    pub format_count: usize,
    /// Number of records of a minification.
    pub minify_count: usize,
    /// Sum of the processing times of all records, in milliseconds.
    pub total_processing_time_ms: u128,
    /// Timestamp of the oldest record, if there is any record.
    pub earliest_log: Option<Timestamp>,
    /// Timestamp of the newest record, if there is any record.
    pub latest_log: Option<Timestamp>,
}

impl LogStatistics {
    /// The share of successful operations in hundredths of a percent,
    /// rounded down; 0 when there is no record.
    pub open spec fn spec_success_rate_basis_points(&self) -> nat {
        if self.total_operations == 0 {
            0
        } else {
            (self.success_count as nat * 10000) / (self.total_operations as nat)
        }
    }

    /// The mean processing time in milliseconds, rounded down; 0 when there
    /// is no record.
    pub open spec fn spec_avg_processing_time_ms(&self) -> nat {
        if self.total_operations == 0 {
            0
        } else {
            (self.total_processing_time_ms as nat) / (self.total_operations as nat)
        }
    }

    /// The share of successful operations in hundredths of a percent: 10000
    /// when every operation succeeded, 6666 for two out of three, 0 when
    /// there is no record.
    pub fn success_rate_basis_points(&self) -> (rate: u128)
        ensures
            rate == self.spec_success_rate_basis_points(),
            self.success_count <= self.total_operations ==> rate <= 10000,
    {
        if self.total_operations == 0 {
            0
        } else {
            let rate: u128 = (self.success_count as u128) * 10000 / (self.total_operations as u128);
            proof {
                if self.success_count <= self.total_operations {
                    assert(self.success_count as nat * 10000 <= self.total_operations as nat
                        * 10000) by (nonlinear_arith)
                        requires
                            self.success_count <= self.total_operations,
                    ;
                    assert((self.success_count as nat * 10000) / (self.total_operations as nat)
                        <= 10000) by (nonlinear_arith)
                        requires
                            self.success_count as nat * 10000 <= self.total_operations as nat
                                * 10000,
                            self.total_operations > 0,
                    ;
                }
            }
            rate
        }
    }

    /// The mean processing time in whole milliseconds; 0 when there is no
    /// record.
    pub fn avg_processing_time_ms(&self) -> (mean: u128)
        ensures
            mean == self.spec_avg_processing_time_ms(),
    {
        if self.total_operations == 0 {
            0
        } else {
            self.total_processing_time_ms / (self.total_operations as u128)
        }
    }
}

} // verus!
