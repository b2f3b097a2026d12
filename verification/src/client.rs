//! What the browser client derives from the API's data: request paths,
//! fixed headers, error texts, badges, the task form and the page line.
use vstd::prelude::*;
use vstd::string::*;
use crate::models::api::PagedResponse;
use crate::models::task::{
    progress_text, CreateTaskRequest, Priority, ProgressStatus, TaskSummary,
};
use crate::text::{blank, decimal, decimal_string, is_blank};
use crate::time::Timestamp;

verus! {

/// Prefix of every API path.
pub const BASE_URL: &'static str = "/api";
/// Tenant sent with every request (development tenant).
pub const TENANT_ID: &'static str = "00000000-0000-0000-0000-000000000001";
/// Actor sent with every request (development user).
pub const ACTOR_ID: &'static str = "dev-user";

/// The headers sent with every request, as (name, value) pairs.
pub fn default_headers() -> (r: [(&'static str, &'static str); 2])
    ensures
        r[0].0@ == "X-Tenant-ID"@,
        r[0].1@ == TENANT_ID@,
        r[1].0@ == "X-Actor-ID"@,
        r[1].1@ == ACTOR_ID@,
{
    [("X-Tenant-ID", TENANT_ID), ("X-Actor-ID", ACTOR_ID)]
}

/// A task id without its `task:` table prefix, if it has one.
pub open spec fn bare_id(id: Seq<char>) -> Seq<char> {
    if id.len() >= 5 && id.take(5) == "task:"@ {
        id.skip(5)
    } else {
        id
    }
}

/// Strips the `task:` prefix from a record id.
pub fn clean_id(id: &str) -> (r: &str)
    ensures
        r@ == bare_id(id@),
{
    proof {
        reveal_strlit("task:");
    }
    let n = id.unicode_len();
    if n >= 5 && id.get_char(0) == 't' && id.get_char(1) == 'a' && id.get_char(2) == 's'
        && id.get_char(3) == 'k' && id.get_char(4) == ':' {
        assert(id@.take(5) =~= "task:"@);
        id.substring_char(5, n)
    } else {
        proof {
            if n >= 5 && id@.take(5) == "task:"@ {
                assert(id@.take(5)[0] == 't');
                assert(id@.take(5)[1] == 'a');
                assert(id@.take(5)[2] == 's');
                assert(id@.take(5)[3] == 'k');
                assert(id@.take(5)[4] == ':');
            }
        }
        id
    }
}

/// The path of the task list.
pub open spec fn tasks_path() -> Seq<char> {
    BASE_URL@ + "/tasks"@
}

/// The path that lists page `page` (25 per page), optionally filtered by status text.
pub open spec fn list_path(status: Option<Seq<char>>, page: u32) -> Seq<char> {
    let base = tasks_path() + "?page="@ + decimal(page as nat) + "&page_size=25"@;
    match status {
        Some(s) => base + "&progress_status="@ + s,
        None => base,
    }
}

/// The path of the task list page the client asks for.
pub fn list_tasks_url(status: &Option<String>, page: u32) -> (r: String)
    ensures
        r@ == list_path(
            match *status { Some(s) => Some(s@), None => None },
            page,
        ),
{
    let mut url = String::from_str(BASE_URL).concat("/tasks").concat("?page=");
    url.append(decimal_string(page as u64).as_str());
    url.append("&page_size=25");
    if let Some(s) = status {
        url.append("&progress_status=");
        url.append(s.as_str());
    }
    url
}

/// The path of the task list, where new tasks are posted.
pub fn tasks_url() -> (r: String)
    ensures
        r@ == tasks_path(),
{
    String::from_str(BASE_URL).concat("/tasks")
}

/// The path of one task, named by its id with or without the table prefix.
pub fn task_url(id: &str) -> (r: String)
    ensures
        r@ == tasks_path() + "/"@ + bare_id(id@),
{
    String::from_str(BASE_URL).concat("/tasks").concat("/").concat(clean_id(id))
}

/// The error text for a reply that is not a success.
pub fn http_error(status: u16) -> (r: String)
    ensures
        r@ == "HTTP "@ + decimal(status as nat),
{
    String::from_str("HTTP ").concat(decimal_string(status as u64).as_str())
}

/// The error text of a failed write: the reply's `error` field, or
/// `Unknown error` when it has none.
pub fn reply_error(error_field: Option<String>) -> (r: String)
    ensures
        r@ == match error_field { Some(e) => e@, None => "Unknown error"@ },
{
    match error_field {
        Some(e) => e,
        None => String::from_str("Unknown error"),
    }
}

/// Label and style class of a progress status badge.
pub open spec fn progress_badge_spec(s: ProgressStatus) -> (Seq<char>, Seq<char>) {
    match s {
        ProgressStatus::Open => ("Open"@, "badge badge-open"@),
        ProgressStatus::InProgress => ("In Progress"@, "badge badge-in-progress"@),
        ProgressStatus::WaitingForFeedback => ("Waiting"@, "badge badge-in-progress"@),
        ProgressStatus::Completed => ("Completed"@, "badge badge-completed"@),
        ProgressStatus::Verified => ("Verified"@, "badge badge-completed"@),
        ProgressStatus::Rejected => ("Rejected"@, "badge badge-high"@),
        ProgressStatus::Deferred => ("Deferred"@, "badge badge-cancelled"@),
        ProgressStatus::Cancelled => ("Cancelled"@, "badge badge-cancelled"@),
    }
}

/// Label and style class shown for a progress status.
pub fn progress_badge(s: ProgressStatus) -> (r: (&'static str, &'static str))
    ensures
        (r.0@, r.1@) == progress_badge_spec(s),
{
    match s {
        ProgressStatus::Open => ("Open", "badge badge-open"),
        ProgressStatus::InProgress => ("In Progress", "badge badge-in-progress"),
        ProgressStatus::WaitingForFeedback => ("Waiting", "badge badge-in-progress"),
        ProgressStatus::Completed => ("Completed", "badge badge-completed"),
        ProgressStatus::Verified => ("Verified", "badge badge-completed"),
        ProgressStatus::Rejected => ("Rejected", "badge badge-high"),
        ProgressStatus::Deferred => ("Deferred", "badge badge-cancelled"),
        ProgressStatus::Cancelled => ("Cancelled", "badge badge-cancelled"),
    }
}

/// Label and style class of a priority badge.
pub open spec fn priority_badge_spec(p: Priority) -> (Seq<char>, Seq<char>) {
    match p {
        Priority::High => ("High"@, "badge badge-high"@),
        Priority::Normal => ("Normal"@, "badge badge-normal"@),
        Priority::Low => ("Low"@, "badge badge-low"@),
    }
}

/// Label and style class shown for a priority.
pub fn priority_badge(p: Priority) -> (r: (&'static str, &'static str))
    ensures
        (r.0@, r.1@) == priority_badge_spec(p),
{
    match p {
        Priority::High => ("High", "badge badge-high"),
        Priority::Normal => ("Normal", "badge badge-normal"),
        Priority::Low => ("Low", "badge badge-low"),
    }
}

/// The priority the form's selection stands for: `high` and `normal` by
/// name, anything else low.
pub open spec fn form_priority_spec(v: Seq<char>) -> Priority {
    if v == "high"@ {
        Priority::High
    } else if v == "normal"@ {
        Priority::Normal
    } else {
        Priority::Low
    }
}

/// The priority chosen in the task form.
pub fn form_priority(value: &str) -> (r: Priority)
    ensures
        r == form_priority_spec(value@),
{
    if crate::text::str_eq(value, "high") {
        Priority::High
    } else if crate::text::str_eq(value, "normal") {
        Priority::Normal
    } else {
        Priority::Low
    }
}

/// The status chosen in the task form, where a choice other than work in
/// progress, waiting or completed leaves the status to the service.
pub open spec fn form_status_spec(v: Seq<char>) -> Option<ProgressStatus> {
    if v == progress_text(ProgressStatus::InProgress) {
        Some(ProgressStatus::InProgress)
    } else if v == progress_text(ProgressStatus::WaitingForFeedback) {
        Some(ProgressStatus::WaitingForFeedback)
    } else if v == progress_text(ProgressStatus::Completed) {
        Some(ProgressStatus::Completed)
    } else {
        None
    }
}

/// The status chosen in the task form.
pub fn form_status(value: &str) -> (r: Option<ProgressStatus>)
    ensures
        r == form_status_spec(value@),
{
    if crate::text::str_eq(value, "in_progress") {
        Some(ProgressStatus::InProgress)
    } else if crate::text::str_eq(value, "waiting_for_feedback") {
        Some(ProgressStatus::WaitingForFeedback)
    } else if crate::text::str_eq(value, "completed") {
        Some(ProgressStatus::Completed)
    } else {
        None
    }
}

/// A form field's text, or nothing when it is empty.
pub open spec fn non_empty(s: String) -> Option<String> {
    if s@.len() == 0 { None } else { Some(s) }
}

fn keep_non_empty(s: String) -> (r: Option<String>)
    ensures
        r == non_empty(s),
{
    if s.unicode_len() == 0 { None } else { Some(s) }
}

/// The create request the task form submits, or the form's error message
/// when the subject is blank. Empty fields are left out; the company field
/// names the party.
pub fn form_request(
    subject: String,
    details: String,
    priority: &str,
    assigned_to: String,
    company: String,
) -> (r: Result<CreateTaskRequest, String>)
    ensures
        blank(subject@) ==> (r matches Err(m) && m@ == "Subject is required."@),
        !blank(subject@) ==> (r matches Ok(req) && {
            &&& req.subject == subject
            &&& req.description == non_empty(details)
            &&& req.priority == Some(form_priority_spec(priority@))
            &&& req.assigned_to == non_empty(assigned_to)
            &&& req.party_id == non_empty(company)
            &&& req.dates is None
            &&& req.parent_task_id is None
            &&& req.norm_refs is None
            &&& req.tags is None
            &&& req.external_ref is None
        }),
{
    if is_blank(subject.as_str()) {
        return Err(String::from_str("Subject is required."));
    }
    let p = form_priority(priority);
    Ok(CreateTaskRequest {
        subject,
        description: keep_non_empty(details),
        priority: Some(p),
        dates: None,
        assigned_to: keep_non_empty(assigned_to),
        party_id: keep_non_empty(company),
        parent_task_id: None,
        norm_refs: None,
        tags: None,
        external_ref: None,
    })
}

/// The number of pages `total` items fill, `page_size` to a page.
pub open spec fn page_count_spec(total: u64, page_size: u32) -> int {
    (total + page_size - 1) / (page_size as int)
}

/// The line under the task table: `<total> tasks total · Page <page> of <pages>`.
pub open spec fn page_line_spec(total: u64, page: u32, page_size: u32) -> Seq<char> {
    decimal(total as nat) + " tasks total · Page "@ + decimal(page as nat) + " of "@
        + decimal(page_count_spec(total, page_size) as nat)
}

/// The paging line under the task table. The page size must be positive
/// and `total + page_size` must fit in `u64`.
pub fn page_line(total: u64, page: u32, page_size: u32) -> (r: String)
    requires
        page_size > 0,
        total + page_size <= u64::MAX,
    ensures
        r@ == page_line_spec(total, page, page_size),
{
    let pages = (total + page_size as u64 - 1) / page_size as u64;
    let s = decimal_string(total).concat(" tasks total · Page ");
    let s = s.concat(decimal_string(page as u64).as_str()).concat(" of ");
    s.concat(decimal_string(pages).as_str())
}

/// The completion column: the percentage followed by `%`.
pub fn completion_text(completion: u8) -> (r: String)
    ensures
        r@ == decimal(completion as nat) + "%"@,
{
    decimal_string(completion as u64).concat("%")
}

/// The assignee column: the assignee, or a dash when none is assigned.
pub fn assignee_text(assigned_to: &Option<String>) -> (r: String)
    ensures
        r@ == match *assigned_to { Some(a) => a@, None => "—"@ },
{
    match assigned_to {
        Some(a) => a.clone(),
        None => String::from_str("—"),
    }
}

/// What chrono writes for an instant in a `strftime` pattern, or nothing
/// when the instant is outside chrono's range.
pub uninterp spec fn formatted_time(secs: i64, nanos: u32, pattern: Seq<char>) -> Option<Seq<char>>;

/// Formats an instant with `chrono::DateTime::format` (in UTC) after
/// `chrono::DateTime::from_timestamp`, which gives nothing outside chrono's
/// range. The text is named, not described; only the day pattern of the
/// task table is admitted.
#[verifier::external_body]
fn format_time(at: Timestamp, pattern: &str) -> (r: Option<String>)
    requires
        pattern@ == "%d.%m.%Y"@,
    ensures
        match r {
            Some(s) => formatted_time(at.secs, at.nanos, pattern@) == Some(s@),
            None => formatted_time(at.secs, at.nanos, pattern@) is None,
        },
{
    match chrono::DateTime::from_timestamp(at.secs, at.nanos) {
        Some(d) => Some(d.format(pattern).to_string()),
        None => None,
    }
}

/// The text of the due column for a planned end.
pub open spec fn due_spec(planned_end: Option<Timestamp>) -> Seq<char> {
    match planned_end {
        Some(t) => match formatted_time(t.secs, t.nanos, "%d.%m.%Y"@) {
            Some(d) => d,
            None => "—"@,
        },
        None => "—"@,
    }
}

/// The due column: the planned end as day.month.year, or a dash when there
/// is none (or it cannot be shown).
pub fn due_text(planned_end: Option<Timestamp>) -> (r: String)
    ensures
        r@ == due_spec(planned_end),
{
    match planned_end {
        Some(t) => match format_time(t, "%d.%m.%Y") {
            Some(d) => d,
            None => String::from_str("—"),
        },
        None => String::from_str("—"),
    }
}

// ── Task table ─────────────────────────────────────────────────

/// The text shown instead of the table when a page holds no task.
pub const EMPTY_TABLE: &'static str = "No tasks yet — create your first task.";

/// One row of the task table, cell by cell.
#[derive(Debug)]
pub struct TaskRow {
    pub subject: String,
    /// Label and style class of the priority badge.
    pub priority: (&'static str, &'static str),
    /// Label and style class of the status badge.
    pub status: (&'static str, &'static str),
    pub due: String,
    pub assignee: String,
    pub completion: String,
}

/// What the table area shows for a page of tasks.
#[derive(Debug)]
pub enum TableBody {
    /// The page is empty: only the text `EMPTY_TABLE`.
    Empty,
    /// One row per task, in the page's order, then the paging line.
    Rows { rows: Vec<TaskRow>, footer: String },
}

/// The task table: an error banner, a spinner while loading, and the page
/// of tasks once one has arrived.
#[derive(Debug)]
pub struct TableView {
    pub banner: Option<String>,
    pub spinner: bool,
    pub body: Option<TableBody>,
}

/// `r` shows the task `t`.
pub open spec fn row_of(t: TaskSummary, r: TaskRow) -> bool {
    &&& r.subject@ == t.subject@
    &&& (r.priority.0@, r.priority.1@) == priority_badge_spec(t.priority)
    &&& (r.status.0@, r.status.1@) == progress_badge_spec(t.progress_status)
    &&& r.due@ == due_spec(t.planned_end)
    &&& r.assignee@ == match t.assigned_to { Some(a) => a@, None => "—"@ }
    &&& r.completion@ == decimal(t.completion as nat) + "%"@
}

/// `b` shows the page `p`: the empty text for an empty page, otherwise one
/// row per task in order and the paging line.
pub open spec fn body_of(p: PagedResponse<TaskSummary>, b: TableBody) -> bool {
    if p.items@.len() == 0 {
        b is Empty
    } else {
        b matches TableBody::Rows { rows, footer } && {
            &&& rows@.len() == p.items@.len()
            &&& forall|i: int| 0 <= i < rows@.len() ==> row_of(#[trigger] p.items@[i], rows@[i])
            &&& footer@ == page_line_spec(p.total, p.page, p.page_size)
        }
    }
}

/// Whether a page can be shown: a page with tasks needs a positive page
/// size, and its paging line a task count that leaves room for one page
/// more in `u64`.
pub open spec fn showable(p: PagedResponse<TaskSummary>) -> bool {
    p.items@.len() > 0 ==> (p.page_size > 0 && p.total + p.page_size <= u64::MAX)
}

/// The row showing one task.
pub fn task_row(t: &TaskSummary) -> (r: TaskRow)
    ensures
        row_of(*t, r),
{
    TaskRow {
        subject: t.subject.clone(),
        priority: priority_badge(t.priority),
        status: progress_badge(t.progress_status),
        due: due_text(t.planned_end),
        assignee: assignee_text(&t.assigned_to),
        completion: completion_text(t.completion),
    }
}

/// What the table area shows for a page of tasks.
pub fn table_body(p: &PagedResponse<TaskSummary>) -> (r: TableBody)
    requires
        showable(*p),
    ensures
        body_of(*p, r),
{
    let n = p.items.len();
    if n == 0 {
        return TableBody::Empty;
    }
    let mut rows: Vec<TaskRow> = Vec::new();
    let mut i: usize = 0;
    while i < n
        invariant
            n == p.items@.len(),
            i <= n,
            rows@.len() == i,
            forall|j: int| 0 <= j < i ==> row_of(#[trigger] p.items@[j], rows@[j]),
        decreases n - i,
    {
        let row = task_row(&p.items[i]);
        rows.push(row);
        i = i + 1;
    }
    let footer = page_line(p.total, p.page, p.page_size);
    TableBody::Rows { rows, footer }
}

/// The task table for what the page holds: the error as a banner, a
/// spinner while loading, and the tasks once a page has arrived.
pub fn task_table(tasks: &Option<PagedResponse<TaskSummary>>, loading: bool, error: &Option<String>) -> (r: TableView)
    requires
        *tasks matches Some(p) ==> showable(p),
    ensures
        r.banner == *error,
        r.spinner == loading,
        match *tasks {
            Some(p) => r.body matches Some(b) && body_of(p, b),
            None => r.body is None,
        },
{
    let banner = match error {
        Some(e) => Some(e.clone()),
        None => None,
    };
    let body = match tasks {
        Some(p) => Some(table_body(p)),
        None => None,
    };
    TableView { banner, spinner: loading, body }
}

} // verus!
