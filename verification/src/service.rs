//! The request handling of the task API: parsing and validating what a
//! client sends, paging, and the error reply.
use vstd::prelude::*;
use vstd::string::*;
use crate::errors::{message_of, status_of, AppError};
use crate::models::api::{PagedResponse, Pagination};
use crate::models::task::{
    parse_progress, parse_risk, CreateTaskRequest, ProgressStatus, RiskStatus, TaskSummary,
};
use crate::text::{blank, is_blank};

verus! {

/// Body of a status change request.
#[derive(Debug, Clone)]
pub struct StatusTransitionRequest {
    pub status: String,
    pub reason: Option<String>,
}

/// Body of a risk change request.
#[derive(Debug, Clone)]
pub struct RiskUpdateRequest {
    pub risk: String,
    pub reason: Option<String>,
}

/// Query parameters of the task list.
#[derive(Debug, Clone)]
pub struct TaskFilter {
    pub progress_status: Option<String>,
    pub assigned_to: Option<String>,
    pub party_id: Option<String>,
    pub pagination: Pagination,
}

/// An error as the API answers it.
#[derive(Debug, Clone)]
pub struct ApiError(pub AppError);

impl ApiError {
    /// The HTTP status of the reply.
    pub fn status_code(&self) -> (r: u16)
        ensures
            r == status_of(self.0),
    {
        self.0.status_code()
    }

    /// The text of the reply's `error` field.
    pub fn message(&self) -> (r: String)
        ensures
            r@ == message_of(self.0),
    {
        self.0.to_string()
    }
}

impl From<AppError> for ApiError {
    fn from(e: AppError) -> (r: ApiError) {
        ApiError(e)
    }
}

impl vstd::std_specs::convert::FromSpecImpl<AppError> for ApiError {
    open spec fn obeys_from_spec() -> bool {
        true
    }

    open spec fn from_spec(e: AppError) -> ApiError {
        ApiError(e)
    }
}

/// The validation error carrying `m`.
pub open spec fn is_validation(e: AppError, m: Seq<char>) -> bool {
    e matches AppError::Validation(t) && t@ == m
}

/// Parses an optional status filter; a text that names no status is a
/// validation error.
pub fn parse_status_filter(status: &Option<String>) -> (r: Result<Option<ProgressStatus>, AppError>)
    ensures
        match *status {
            None => r == Ok::<Option<ProgressStatus>, AppError>(None),
            Some(s) => match parse_progress(s@) {
                Some(p) => r == Ok::<Option<ProgressStatus>, AppError>(Some(p)),
                None => r matches Err(e)
                    && is_validation(e, "unknown progress_status: "@ + s@),
            },
        },
{
    match status {
        None => Ok(None),
        Some(s) => match ProgressStatus::from_str(s.as_str()) {
            Ok(p) => Ok(Some(p)),
            Err(m) => Err(AppError::Validation(m)),
        },
    }
}

/// What a list request asks the repository for.
#[derive(Debug, Clone)]
pub struct ListQuery {
    pub status: Option<ProgressStatus>,
    pub assigned_to: Option<String>,
    pub party_id: Option<String>,
    pub limit: u32,
    pub offset: u32,
}

/// Whether the status filter is given and names no status.
pub open spec fn bad_status_filter(filter: TaskFilter) -> bool {
    filter.progress_status matches Some(s) && parse_progress(s@) is None
}

/// The repository request of a list call: the parsed status filter, the
/// other filters as given, and the page window. The status is checked
/// first; once it parses, the offset must fit in `u32`.
pub fn list_query(filter: &TaskFilter) -> (r: Result<ListQuery, AppError>)
    requires
        bad_status_filter(*filter) || filter.pagination.spec_window().1 <= u32::MAX,
    ensures
        match filter.progress_status {
            Some(s) if parse_progress(s@) is None => r matches Err(e)
                && is_validation(e, "unknown progress_status: "@ + s@),
            _ => r matches Ok(q) && {
                &&& q.status == match filter.progress_status {
                    Some(s) => parse_progress(s@),
                    None => None,
                }
                &&& q.assigned_to == filter.assigned_to
                &&& q.party_id == filter.party_id
                &&& q.limit == filter.pagination.spec_window().0
                &&& q.offset == filter.pagination.spec_window().1
            },
        },
{
    let status = match parse_status_filter(&filter.progress_status) {
        Ok(s) => s,
        Err(e) => return Err(e),
    };
    let (limit, offset) = filter.pagination.window();
    let assigned_to = match &filter.assigned_to {
        Some(a) => Some(a.clone()),
        None => None,
    };
    let party_id = match &filter.party_id {
        Some(p) => Some(p.clone()),
        None => None,
    };
    Ok(ListQuery { status, assigned_to, party_id, limit, offset })
}

/// The page answered to a list call: the items found, their count as the
/// total, the page asked for and the page size used.
pub fn paged_response(items: Vec<TaskSummary>, page: u32, page_size: u32) -> (r: PagedResponse<TaskSummary>)
    ensures
        r.items == items,
        r.total == items@.len(),
        r.page == page,
        r.page_size == page_size,
{
    let total = items.len() as u64;
    PagedResponse { items, total, page, page_size }
}

/// Checks a create request: its subject must hold more than white space.
pub fn validate_create(req: &CreateTaskRequest) -> (r: Result<(), AppError>)
    ensures
        r is Ok <==> !blank(req.subject@),
        r matches Err(e) ==> is_validation(e, "subject must not be empty"@),
{
    if is_blank(req.subject.as_str()) {
        return Err(AppError::Validation(String::from_str("subject must not be empty")));
    }
    Ok(())
}

/// The status a status change request asks for; an unknown name is a
/// validation error.
pub fn requested_status(req: &StatusTransitionRequest) -> (r: Result<ProgressStatus, AppError>)
    ensures
        match parse_progress(req.status@) {
            Some(p) => r == Ok::<ProgressStatus, AppError>(p),
            None => r matches Err(e) && is_validation(e, "unknown progress_status: "@ + req.status@),
        },
{
    match ProgressStatus::from_str(req.status.as_str()) {
        Ok(p) => Ok(p),
        Err(m) => Err(AppError::Validation(m)),
    }
}

/// The risk a risk change request asks for; an unknown name is a
/// validation error.
pub fn requested_risk(req: &RiskUpdateRequest) -> (r: Result<RiskStatus, AppError>)
    ensures
        match parse_risk(req.risk@) {
            Some(p) => r == Ok::<RiskStatus, AppError>(p),
            None => r matches Err(e) && is_validation(e, "unknown risk_status: "@ + req.risk@),
        },
{
    match RiskStatus::from_str(req.risk.as_str()) {
        Ok(p) => Ok(p),
        Err(m) => Err(AppError::Validation(m)),
    }
}

/// The answer of the readiness probe: its HTTP status, its `status` field
/// and its `db` field.
#[derive(Debug, Clone)]
pub struct Readiness {
    pub code: u16,
    pub status: &'static str,
    pub db: String,
}

/// The readiness answer for the outcome of the database health check:
/// ready when it passed, otherwise unavailable with the check's message.
pub fn readiness(check: Result<(), String>) -> (r: Readiness)
    ensures
        match check {
            Ok(_) => r.code == 200 && r.status@ == "ready"@ && r.db@ == "ok"@,
            Err(m) => r.code == 503 && r.status@ == "not_ready"@ && r.db == m,
        },
{
    match check {
        Ok(_) => Readiness { code: 200, status: "ready", db: String::from_str("ok") },
        Err(m) => Readiness { code: 503, status: "not_ready", db: m },
    }
}

/// The answer of the liveness probe: HTTP status 200 with status `ok`.
pub fn liveness() -> (r: (u16, &'static str))
    ensures
        r.0 == 200 && r.1@ == "ok"@,
{
    (200, "ok")
}

} // verus!
