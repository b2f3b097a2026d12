//! The task aggregate: its two status models, priority, records and
//! request payloads.
use vstd::prelude::*;
use vstd::string::*;
use crate::text::str_eq;
use crate::time::Timestamp;

verus! {

// ── Progress status: the internal workflow ─────────────────────

/// Internal workflow status of a task.
#[derive(Debug, Clone, Copy, PartialEq, Eq, Hash, Structural)]
pub enum ProgressStatus {
    Open,
    InProgress,
    WaitingForFeedback,
    Completed,
    /// Effectiveness confirmed; no further transitions.
    Verified,
    Rejected,
    Deferred,
    /// No further transitions.
    Cancelled,
}

/// The successor table of the workflow.
pub open spec fn successors(s: ProgressStatus) -> Seq<ProgressStatus> {
    match s {
        ProgressStatus::Open => seq![
            ProgressStatus::InProgress,
            ProgressStatus::Deferred,
            ProgressStatus::Cancelled,
        ],
        ProgressStatus::InProgress => seq![
            ProgressStatus::WaitingForFeedback,
            ProgressStatus::Completed,
            ProgressStatus::Deferred,
            ProgressStatus::Cancelled,
        ],
        ProgressStatus::WaitingForFeedback => seq![
            ProgressStatus::InProgress,
            ProgressStatus::Completed,
            ProgressStatus::Cancelled,
        ],
        ProgressStatus::Completed => seq![ProgressStatus::Verified, ProgressStatus::Rejected],
        ProgressStatus::Rejected => seq![ProgressStatus::Open, ProgressStatus::InProgress],
        ProgressStatus::Deferred => seq![ProgressStatus::Open, ProgressStatus::Cancelled],
        ProgressStatus::Verified => seq![],
        ProgressStatus::Cancelled => seq![],
    }
}

/// Whether the workflow allows moving from `from` to `to`.
pub open spec fn allowed(from: ProgressStatus, to: ProgressStatus) -> bool {
    successors(from).contains(to)
}

/// The snake_case name of a progress status, as shown and stored.
pub open spec fn progress_text(s: ProgressStatus) -> Seq<char> {
    match s {
        ProgressStatus::Open => "open"@,
        ProgressStatus::InProgress => "in_progress"@,
        ProgressStatus::WaitingForFeedback => "waiting_for_feedback"@,
        ProgressStatus::Completed => "completed"@,
        ProgressStatus::Verified => "verified"@,
        ProgressStatus::Rejected => "rejected"@,
        ProgressStatus::Deferred => "deferred"@,
        ProgressStatus::Cancelled => "cancelled"@,
    }
}

/// The progress status named by `t`, if any.
pub open spec fn parse_progress(t: Seq<char>) -> Option<ProgressStatus> {
    if t == "open"@ {
        Some(ProgressStatus::Open)
    } else if t == "in_progress"@ {
        Some(ProgressStatus::InProgress)
    } else if t == "waiting_for_feedback"@ {
        Some(ProgressStatus::WaitingForFeedback)
    } else if t == "completed"@ {
        Some(ProgressStatus::Completed)
    } else if t == "verified"@ {
        Some(ProgressStatus::Verified)
    } else if t == "rejected"@ {
        Some(ProgressStatus::Rejected)
    } else if t == "deferred"@ {
        Some(ProgressStatus::Deferred)
    } else if t == "cancelled"@ {
        Some(ProgressStatus::Cancelled)
    } else {
        None
    }
}

impl ProgressStatus {
    pub open spec fn spec_is_terminal(self) -> bool {
        self == ProgressStatus::Verified || self == ProgressStatus::Cancelled
    }

    /// Returns true if no further transitions are allowed.
    pub fn is_terminal(&self) -> (r: bool)
        ensures
            r == self.spec_is_terminal(),
    {
        match self {
            ProgressStatus::Verified | ProgressStatus::Cancelled => true,
            _ => false,
        }
    }

    /// Allowed successor states.
    pub fn allowed_next(&self) -> (r: &'static [ProgressStatus])
        ensures
            r@ == successors(*self),
    {
        match self {
            ProgressStatus::Open => &[
                ProgressStatus::InProgress,
                ProgressStatus::Deferred,
                ProgressStatus::Cancelled,
            ],
            ProgressStatus::InProgress => &[
                ProgressStatus::WaitingForFeedback,
                ProgressStatus::Completed,
                ProgressStatus::Deferred,
                ProgressStatus::Cancelled,
            ],
            ProgressStatus::WaitingForFeedback => &[
                ProgressStatus::InProgress,
                ProgressStatus::Completed,
                ProgressStatus::Cancelled,
            ],
            ProgressStatus::Completed => &[ProgressStatus::Verified, ProgressStatus::Rejected],
            ProgressStatus::Rejected => &[ProgressStatus::Open, ProgressStatus::InProgress],
            ProgressStatus::Deferred => &[ProgressStatus::Open, ProgressStatus::Cancelled],
            ProgressStatus::Verified => &[],
            ProgressStatus::Cancelled => &[],
        }
    }

    /// Whether `next` is among the allowed successors of this status.
    pub fn can_transition_to(&self, next: &ProgressStatus) -> (r: bool)
        ensures
            r == allowed(*self, *next),
    {
        let succ = self.allowed_next();
        let n = succ.len();
        let mut i: usize = 0;
        while i < n
            invariant
                succ@ == successors(*self),
                n == succ@.len(),
                i <= n,
                forall|j: int| 0 <= j < i ==> succ@[j] != *next,
            decreases n - i,
        {
            if succ[i] == *next {
                assert(succ@[i as int] == *next);
                return true;
            }
            i = i + 1;
        }
        false
    }

    /// The snake_case name of the status.
    pub fn as_str(&self) -> (r: &'static str)
        ensures
            r@ == progress_text(*self),
    {
        match self {
            ProgressStatus::Open => "open",
            ProgressStatus::InProgress => "in_progress",
            ProgressStatus::WaitingForFeedback => "waiting_for_feedback",
            ProgressStatus::Completed => "completed",
            ProgressStatus::Verified => "verified",
            ProgressStatus::Rejected => "rejected",
            ProgressStatus::Deferred => "deferred",
            ProgressStatus::Cancelled => "cancelled",
        }
    }

    /// The text that `Display` shows for the status.
    pub fn to_string(&self) -> (r: String)
        ensures
            r@ == progress_text(*self),
    {
        String::from_str(self.as_str())
    }

    /// Parses a snake_case status name; any other text is refused with
    /// `unknown progress_status: <text>`.
    pub fn from_str(s: &str) -> (r: Result<ProgressStatus, String>)
        ensures
            match r {
                Ok(x) => parse_progress(s@) == Some(x),
                Err(m) => parse_progress(s@) is None && m@ == "unknown progress_status: "@ + s@,
            },
    {
        if str_eq(s, "open") {
            Ok(ProgressStatus::Open)
        } else if str_eq(s, "in_progress") {
            Ok(ProgressStatus::InProgress)
        } else if str_eq(s, "waiting_for_feedback") {
            Ok(ProgressStatus::WaitingForFeedback)
        } else if str_eq(s, "completed") {
            Ok(ProgressStatus::Completed)
        } else if str_eq(s, "verified") {
            Ok(ProgressStatus::Verified)
        } else if str_eq(s, "rejected") {
            Ok(ProgressStatus::Rejected)
        } else if str_eq(s, "deferred") {
            Ok(ProgressStatus::Deferred)
        } else if str_eq(s, "cancelled") {
            Ok(ProgressStatus::Cancelled)
        } else {
            Err(String::from_str("unknown progress_status: ").concat(s))
        }
    }
}

impl std::str::FromStr for ProgressStatus {
    type Err = String;

    fn from_str(s: &str) -> (r: Result<ProgressStatus, String>)
        ensures
            match r {
                Ok(x) => parse_progress(s@) == Some(x),
                Err(m) => parse_progress(s@) is None && m@ == "unknown progress_status: "@ + s@,
            },
    {
        ProgressStatus::from_str(s)
    }
}

// ── Risk status: the GYR traffic light ─────────────────────────

/// Traffic-light risk status for customer status reports.
#[derive(Debug, Clone, Copy, PartialEq, Eq, Hash, Structural)]
pub enum RiskStatus {
    /// All targets met; no or negligible deviation.
    Green,
    /// Substantial deviation; corrective measures defined, target still reachable.
    Yellow,
    /// Serious deviation; start of production or project end at risk.
    YellowRed,
    /// Target not achievable.
    Red,
    /// No assessment yet.
    Pending,
    NotApplicable,
}

/// The snake_case name of a risk status.
pub open spec fn risk_text(s: RiskStatus) -> Seq<char> {
    match s {
        RiskStatus::Green => "green"@,
        RiskStatus::Yellow => "yellow"@,
        RiskStatus::YellowRed => "yellow_red"@,
        RiskStatus::Red => "red"@,
        RiskStatus::Pending => "pending"@,
        RiskStatus::NotApplicable => "not_applicable"@,
    }
}

/// The risk status named by `t`, if any.
pub open spec fn parse_risk(t: Seq<char>) -> Option<RiskStatus> {
    if t == "green"@ {
        Some(RiskStatus::Green)
    } else if t == "yellow"@ {
        Some(RiskStatus::Yellow)
    } else if t == "yellow_red"@ {
        Some(RiskStatus::YellowRed)
    } else if t == "red"@ {
        Some(RiskStatus::Red)
    } else if t == "pending"@ {
        Some(RiskStatus::Pending)
    } else if t == "not_applicable"@ {
        Some(RiskStatus::NotApplicable)
    } else {
        None
    }
}

impl RiskStatus {
    /// The snake_case name of the status.
    pub fn as_str(&self) -> (r: &'static str)
        ensures
            r@ == risk_text(*self),
    {
        match self {
            RiskStatus::Green => "green",
            RiskStatus::Yellow => "yellow",
            RiskStatus::YellowRed => "yellow_red",
            RiskStatus::Red => "red",
            RiskStatus::Pending => "pending",
            RiskStatus::NotApplicable => "not_applicable",
        }
    }

    /// The text that `Display` shows for the status.
    pub fn to_string(&self) -> (r: String)
        ensures
            r@ == risk_text(*self),
    {
        String::from_str(self.as_str())
    }

    /// Parses a snake_case risk name; any other text is refused with
    /// `unknown risk_status: <text>`.
    pub fn from_str(s: &str) -> (r: Result<RiskStatus, String>)
        ensures
            match r {
                Ok(x) => parse_risk(s@) == Some(x),
                Err(m) => parse_risk(s@) is None && m@ == "unknown risk_status: "@ + s@,
            },
    {
        if str_eq(s, "green") {
            Ok(RiskStatus::Green)
        } else if str_eq(s, "yellow") {
            Ok(RiskStatus::Yellow)
        } else if str_eq(s, "yellow_red") {
            Ok(RiskStatus::YellowRed)
        } else if str_eq(s, "red") {
            Ok(RiskStatus::Red)
        } else if str_eq(s, "pending") {
            Ok(RiskStatus::Pending)
        } else if str_eq(s, "not_applicable") {
            Ok(RiskStatus::NotApplicable)
        } else {
            Err(String::from_str("unknown risk_status: ").concat(s))
        }
    }
}

impl std::str::FromStr for RiskStatus {
    type Err = String;

    fn from_str(s: &str) -> (r: Result<RiskStatus, String>)
        ensures
            match r {
                Ok(x) => parse_risk(s@) == Some(x),
                Err(m) => parse_risk(s@) is None && m@ == "unknown risk_status: "@ + s@,
            },
    {
        RiskStatus::from_str(s)
    }
}

// ── Priority ───────────────────────────────────────────────────

/// Task priority.
#[derive(Debug, Clone, Copy, PartialEq, Eq, Structural)]
pub enum Priority {
    High,
    Normal,
    Low,
}

/// The lower-case name of a priority.
pub open spec fn priority_text(p: Priority) -> Seq<char> {
    match p {
        Priority::High => "high"@,
        Priority::Normal => "normal"@,
        Priority::Low => "low"@,
    }
}

/// The priority named by `t`, if any.
pub open spec fn parse_priority(t: Seq<char>) -> Option<Priority> {
    if t == "high"@ {
        Some(Priority::High)
    } else if t == "normal"@ {
        Some(Priority::Normal)
    } else if t == "low"@ {
        Some(Priority::Low)
    } else {
        None
    }
}

impl Priority {
    /// The lower-case name of the priority.
    pub fn as_str(&self) -> (r: &'static str)
        ensures
            r@ == priority_text(*self),
    {
        match self {
            Priority::High => "high",
            Priority::Normal => "normal",
            Priority::Low => "low",
        }
    }

    /// The text that `Display` shows for the priority.
    pub fn to_string(&self) -> (r: String)
        ensures
            r@ == priority_text(*self),
    {
        String::from_str(self.as_str())
    }

    /// Parses a lower-case priority name; any other text is refused with
    /// `unknown priority: <text>`.
    pub fn from_str(s: &str) -> (r: Result<Priority, String>)
        ensures
            match r {
                Ok(x) => parse_priority(s@) == Some(x),
                Err(m) => parse_priority(s@) is None && m@ == "unknown priority: "@ + s@,
            },
    {
        if str_eq(s, "high") {
            Ok(Priority::High)
        } else if str_eq(s, "normal") {
            Ok(Priority::Normal)
        } else if str_eq(s, "low") {
            Ok(Priority::Low)
        } else {
            Err(String::from_str("unknown priority: ").concat(s))
        }
    }
}

impl std::str::FromStr for Priority {
    type Err = String;

    fn from_str(s: &str) -> (r: Result<Priority, String>)
        ensures
            match r {
                Ok(x) => parse_priority(s@) == Some(x),
                Err(m) => parse_priority(s@) is None && m@ == "unknown priority: "@ + s@,
            },
    {
        Priority::from_str(s)
    }
}

// ── Records ────────────────────────────────────────────────────

/// The four date pairs of the task date model (planned, estimated,
/// finalized, agreed).
#[derive(Debug, Clone, Copy, PartialEq)]
pub struct TaskDates {
    /// Plan as agreed at kick-off; must not change afterwards.
    pub planned_start: Option<Timestamp>,
    pub planned_end: Option<Timestamp>,
    /// Rolling forecast, updated each status cycle.
    pub estimated_start: Option<Timestamp>,
    pub estimated_end: Option<Timestamp>,
    /// Actuals, set when work begins or completes.
    pub finalized_start: Option<Timestamp>,
    pub finalized_end: Option<Timestamp>,
    /// Bilaterally agreed date after escalation.
    pub agreed_date: Option<Timestamp>,
}

impl TaskDates {
    pub open spec fn spec_empty() -> TaskDates {
        TaskDates {
            planned_start: None,
            planned_end: None,
            estimated_start: None,
            estimated_end: None,
            finalized_start: None,
            finalized_end: None,
            agreed_date: None,
        }
    }
}

impl Default for TaskDates {
    /// No date is set.
    fn default() -> (r: TaskDates)
        ensures
            r == TaskDates::spec_empty(),
    {
        TaskDates {
            planned_start: None,
            planned_end: None,
            estimated_start: None,
            estimated_end: None,
            finalized_start: None,
            finalized_end: None,
            agreed_date: None,
        }
    }
}

/// Link to an external task tracker.
#[derive(Debug, Clone, PartialEq)]
pub struct ExternalRef {
    /// "jira", "openproject", "plane", ...
    pub system: String,
    /// e.g. "PROJ-123"
    pub issue_key: String,
    pub url: Option<String>,
    pub synced_at: Option<Timestamp>,
}

/// A full task record as stored.
#[derive(Debug, Clone, PartialEq)]
pub struct Task {
    pub id: String,
    pub subject: String,
    pub description: String,
    pub priority: Priority,
    pub progress_status: ProgressStatus,
    pub risk_status: RiskStatus,
    /// Completion degree, 0 to 100.
    pub completion: u8,
    pub dates: TaskDates,
    /// Contact record id.
    pub assigned_to: Option<String>,
    /// User record id.
    pub created_by: String,
    /// Party record id.
    pub party_id: Option<String>,
    /// Parent task record id, for subtasks.
    pub parent_task_id: Option<String>,
    /// Nesting depth, 0 to 2.
    pub level: u8,
    /// ISO norm references, e.g. "ISO 9001:2015 §10.2".
    pub norm_refs: Vec<String>,
    pub tags: Vec<String>,
    pub external_ref: Option<ExternalRef>,
    pub created_at: Timestamp,
    pub updated_at: Timestamp,
    pub deleted_at: Option<Timestamp>,
}

/// Lightweight projection for list and table views.
#[derive(Debug, Clone, PartialEq)]
pub struct TaskSummary {
    pub id: String,
    pub subject: String,
    pub priority: Priority,
    pub progress_status: ProgressStatus,
    pub risk_status: RiskStatus,
    pub completion: u8,
    pub planned_end: Option<Timestamp>,
    pub assigned_to: Option<String>,
    pub party_id: Option<String>,
}

/// Append-only history entry of a status field change.
#[derive(Debug, Clone, PartialEq)]
pub struct TaskHistory {
    pub id: String,
    pub task_id: String,
    /// "progress_status" or "risk_status"
    pub field: String,
    pub old_value: String,
    pub new_value: String,
    /// User id of the actor.
    pub changed_by: String,
    pub occurred_at: Timestamp,
}

// ── Requests ───────────────────────────────────────────────────

/// Request to create a task.
#[derive(Debug, Clone)]
pub struct CreateTaskRequest {
    pub subject: String,
    pub description: Option<String>,
    pub priority: Option<Priority>,
    pub dates: Option<TaskDates>,
    pub assigned_to: Option<String>,
    pub party_id: Option<String>,
    pub parent_task_id: Option<String>,
    pub norm_refs: Option<Vec<String>>,
    pub tags: Option<Vec<String>>,
    pub external_ref: Option<ExternalRef>,
}

/// Partial update of a task; absent fields stay as they are.
#[derive(Debug, Clone)]
pub struct UpdateTaskRequest {
    pub subject: Option<String>,
    pub description: Option<String>,
    pub priority: Option<Priority>,
    pub progress_status: Option<ProgressStatus>,
    pub risk_status: Option<RiskStatus>,
    pub completion: Option<u8>,
    pub dates: Option<TaskDates>,
    pub assigned_to: Option<String>,
    pub norm_refs: Option<Vec<String>>,
    pub tags: Option<Vec<String>>,
    pub external_ref: Option<ExternalRef>,
}

impl UpdateTaskRequest {
    /// The request that changes nothing.
    pub open spec fn spec_is_empty(self) -> bool {
        &&& self.subject is None
        &&& self.description is None
        &&& self.priority is None
        &&& self.progress_status is None
        &&& self.risk_status is None
        &&& self.completion is None
        &&& self.dates is None
        &&& self.assigned_to is None
        &&& self.norm_refs is None
        &&& self.tags is None
        &&& self.external_ref is None
    }
}

impl Default for UpdateTaskRequest {
    /// The request that changes nothing.
    fn default() -> (r: UpdateTaskRequest)
        ensures
            r.spec_is_empty(),
    {
        UpdateTaskRequest {
            subject: None,
            description: None,
            priority: None,
            progress_status: None,
            risk_status: None,
            completion: None,
            dates: None,
            assigned_to: None,
            norm_refs: None,
            tags: None,
            external_ref: None,
        }
    }
}

} // verus!
