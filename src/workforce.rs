//! Workforce records: statuses, roles, payment and scheduling choices.

use vstd::prelude::*;

verus! {

#[derive(Debug, Clone, Copy, PartialEq, Eq, Structural)]
pub enum EmployeeStatus {
    Active,
    Inactive,
    OnLeave,
    Terminated,
    Pending,
}

#[derive(Debug, Clone, Copy, PartialEq, Eq, Structural)]
pub enum EmployeeRole {
    Worker,
    TeamLead,
    Manager,
    Admin,
}

#[derive(Debug, Clone)]
pub enum PaymentMethod {
    BankTransfer,
    PayPal,
    Crypto,
    Check,
    Cash,
    Other(String),
}

#[derive(Debug, Clone, Copy, PartialEq, Eq, Structural)]
pub enum PayoutSchedule {
    Daily,
    Weekly,
    BiWeekly,
    Monthly,
    OnCompletion,
}

#[derive(Debug, Clone, Copy, PartialEq, Eq, Structural)]
pub enum PayoutStatus {
    Pending,
    Approved,
    Processing,
    Paid,
    Failed,
    Cancelled,
}

#[derive(Debug, Clone, Copy, PartialEq, Eq, Structural)]
pub enum ProjectStatus {
    Draft,
    Open,
    InProgress,
    OnHold,
    Completed,
    Cancelled,
}

/// Project priority, ordered from `Low` to `Urgent`.
#[derive(Debug, Clone, Copy, PartialEq, Eq, Structural, PartialOrd, Ord)]
pub enum ProjectPriority {
    Low,
    Normal,
    High,
    Urgent,
}

#[derive(Debug, Clone, Copy, PartialEq, Eq, Structural)]
pub enum TaskStatus {
    Todo,
    InProgress,
    Review,
    Completed,
    Blocked,
}

/// State of a time-card entry.
#[derive(Debug, Clone, Copy, PartialEq, Eq, Structural)]
pub enum TimeEntryStatus {
    /// Currently clocked in.
    Active,
    /// Clocked out, pending approval.
    Completed,
    /// Approved for payment.
    Approved,
    /// Rejected, needs review.
    Rejected,
    /// Already paid out.
    Paid,
}

} // verus!
