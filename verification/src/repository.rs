//! The decisions of the task repository: the queries it sends, the records
//! it creates, the workflow checks it makes before a write, and the outbox
//! entries that each write commits together with it. The database round
//! trips themselves are made by the service around this module.
use vstd::prelude::*;
use vstd::string::*;
use crate::errors::AppError;
use crate::events::topics::TASK_EVENTS;
use crate::events::{
    event_type_of, EventEnvelope, TaskCreated, TaskDeleted, TaskEvent, TaskRiskChanged,
    TaskStatusChanged, TaskUpdated,
};
use crate::ids;
use crate::models::task::{
    allowed, priority_text, progress_text, risk_text, CreateTaskRequest, ExternalRef, Priority,
    ProgressStatus, RiskStatus, Task, TaskDates, UpdateTaskRequest,
};
use crate::text::{decimal, decimal_string, join, join_strings, views};

verus! {

// ── Small helpers ──────────────────────────────────────────────

/// The view of an optional string.
pub open spec fn opt_view(o: Option<String>) -> Option<Seq<char>> {
    match o {
        Some(s) => Some(s@),
        None => None,
    }
}

fn clone_opt(o: &Option<String>) -> (r: Option<String>)
    ensures
        r == *o,
{
    match o {
        Some(s) => Some(s.clone()),
        None => None,
    }
}

// ── Listing ────────────────────────────────────────────────────

/// Text of the list query before the filter conditions.
pub const LIST_HEAD: &'static str = "SELECT id, subject, priority, progress_status, risk_status,\n                completion, dates.planned_end AS planned_end,\n                <string> assigned_to AS assigned_to,\n                <string> party_id AS party_id\n         FROM task WHERE ";

/// Text of the list query between the conditions and the limit.
pub const LIST_ORDER: &'static str = "\n         ORDER BY dates.planned_end ASC\n         LIMIT ";

/// The filter conditions of the list query: live tasks, narrowed by each
/// filter that is given.
pub open spec fn list_conditions(
    status: Option<ProgressStatus>,
    assigned_to: Option<Seq<char>>,
    party_id: Option<Seq<char>>,
) -> Seq<Seq<char>> {
    let c0 = seq!["deleted_at = NONE"@];
    let c1 = match status {
        Some(s) => c0.push("progress_status = '"@ + progress_text(s) + "'"@),
        None => c0,
    };
    let c2 = match assigned_to {
        Some(a) => c1.push("assigned_to = contact:"@ + a),
        None => c1,
    };
    match party_id {
        Some(p) => c2.push("party_id = party:"@ + p),
        None => c2,
    }
}

/// The list query: live tasks matching the filters, earliest planned end
/// first, `limit` rows after skipping `offset`.
pub open spec fn list_query_text(
    status: Option<ProgressStatus>,
    assigned_to: Option<Seq<char>>,
    party_id: Option<Seq<char>>,
    limit: u32,
    offset: u32,
) -> Seq<char> {
    LIST_HEAD@ + join(list_conditions(status, assigned_to, party_id), " AND "@) + LIST_ORDER@
        + decimal(limit as nat) + " START "@ + decimal(offset as nat)
}

/// Builds the query that lists task summaries.
pub fn list_tasks_query(
    status: Option<ProgressStatus>,
    assigned_to: &Option<String>,
    party_id: &Option<String>,
    limit: u32,
    offset: u32,
) -> (r: String)
    ensures
        r@ == list_query_text(status, opt_view(*assigned_to), opt_view(*party_id), limit, offset),
{
    let ghost c0 = seq!["deleted_at = NONE"@];
    let mut conditions: Vec<String> = Vec::new();
    conditions.push(String::from_str("deleted_at = NONE"));
    assert(views(conditions@) =~= c0);
    let ghost c1 = match status {
        Some(s) => c0.push("progress_status = '"@ + progress_text(s) + "'"@),
        None => c0,
    };
    if let Some(s) = status {
        let c = String::from_str("progress_status = '").concat(s.as_str()).concat("'");
        conditions.push(c);
    }
    assert(views(conditions@) =~= c1);
    let ghost c2 = match opt_view(*assigned_to) {
        Some(a) => c1.push("assigned_to = contact:"@ + a),
        None => c1,
    };
    if let Some(a) = assigned_to {
        conditions.push(String::from_str("assigned_to = contact:").concat(a.as_str()));
    }
    assert(views(conditions@) =~= c2);
    if let Some(p) = party_id {
        conditions.push(String::from_str("party_id = party:").concat(p.as_str()));
    }
    assert(views(conditions@) =~= list_conditions(status, opt_view(*assigned_to), opt_view(*party_id)));
    let where_clause = join_strings(&conditions, " AND ");
    let q = String::from_str(LIST_HEAD).concat(where_clause.as_str()).concat(LIST_ORDER);
    let q = q.concat(decimal_string(limit as u64).as_str()).concat(" START ");
    q.concat(decimal_string(offset as u64).as_str())
}

// ── Lookup ─────────────────────────────────────────────────────

/// The query that reads one task by its id.
pub const GET_TASK: &'static str = "SELECT * FROM type::record('task', $id)";

/// The query that reads the status history of a task, oldest first.
pub const TASK_HISTORY: &'static str = "SELECT * FROM task_history\n             WHERE task_id = type::record('task', $id)\n             ORDER BY occurred_at ASC";

/// The record id `task:<id>`.
pub open spec fn task_key(id: Seq<char>) -> Seq<char> {
    "task:"@ + id
}

/// The error for a task id that names no task.
pub fn task_not_found(id: &str) -> (r: AppError)
    ensures
        r matches AppError::NotFound(m) && m@ == task_key(id@),
{
    AppError::NotFound(String::from_str("task:").concat(id))
}

/// The task a query returned, or `NotFound` for `id` when it returned none.
pub fn found_or_not_found(record: Option<Task>, id: &str) -> (r: Result<Task, AppError>)
    ensures
        match record {
            Some(t) => r == Ok::<Task, AppError>(t),
            None => r matches Err(AppError::NotFound(m)) && m@ == task_key(id@),
        },
{
    match record {
        Some(t) => Ok(t),
        None => Err(task_not_found(id)),
    }
}

// ── Creation ───────────────────────────────────────────────────

/// The query that creates the task `$id` from the bound values of a `NewTask`.
pub const CREATE_TASK: &'static str = "CREATE type::record('task', $id) CONTENT {\n                subject:         $subject,\n                description:     $description,\n                priority:        $priority,\n                progress_status: $progress_status,\n                risk_status:     $risk_status,\n                completion:      $completion,\n                dates:           $dates,\n                assigned_to:     $assigned_to,\n                created_by:      $created_by,\n                party_id:        $party_id,\n                parent_task_id:  $parent_task_id,\n                level:           $level,\n                norm_refs:       $norm_refs,\n                tags:            $tags,\n                external_ref:    $external_ref,\n                created_at:      $now,\n                updated_at:      $now,\n                deleted_at:      NONE\n            } RETURN AFTER";

/// The values a new task record is created with.
#[derive(Debug, Clone)]
pub struct NewTask {
    pub subject: String,
    pub description: String,
    pub priority: Priority,
    pub progress_status: ProgressStatus,
    pub risk_status: RiskStatus,
    pub completion: u8,
    /// Absent dates are stored as an empty date object.
    pub dates: Option<TaskDates>,
    /// Empty when no contact is assigned.
    pub assigned_to: String,
    pub created_by: String,
    /// Empty when no party is given.
    pub party_id: String,
    /// Empty for a top-level task.
    pub parent_task_id: String,
    pub level: u8,
    pub norm_refs: Vec<String>,
    pub tags: Vec<String>,
    pub external_ref: Option<ExternalRef>,
}

/// The text of an optional string, empty when absent.
pub open spec fn or_empty(o: Option<String>) -> Seq<char> {
    match o {
        Some(s) => s@,
        None => Seq::empty(),
    }
}

/// The record a create request makes at nesting level `level`: open, not
/// yet assessed, nothing done, normal priority unless one is asked for.
pub open spec fn new_task_spec(req: CreateTaskRequest, actor_id: Seq<char>, level: u8, t: NewTask) -> bool {
    &&& t.subject@ == req.subject@
    &&& t.description@ == or_empty(req.description)
    &&& t.priority == match req.priority { Some(p) => p, None => Priority::Normal }
    &&& t.progress_status == ProgressStatus::Open
    &&& t.risk_status == RiskStatus::Pending
    &&& t.completion == 0
    &&& t.dates == req.dates
    &&& t.assigned_to@ == or_empty(req.assigned_to)
    &&& t.created_by@ == actor_id
    &&& t.party_id@ == or_empty(req.party_id)
    &&& t.parent_task_id@ == or_empty(req.parent_task_id)
    &&& t.level == level
    &&& t.norm_refs@ == match req.norm_refs { Some(v) => v@, None => Seq::empty() }
    &&& t.tags@ == match req.tags { Some(v) => v@, None => Seq::empty() }
    &&& t.external_ref == req.external_ref
}

fn string_or_empty(o: Option<String>) -> (r: String)
    ensures
        r@ == or_empty(o),
{
    match o {
        Some(s) => s,
        None => String::new(),
    }
}

fn list_or_empty(o: Option<Vec<String>>) -> (r: Vec<String>)
    ensures
        r@ == match o { Some(v) => v@, None => Seq::<String>::empty() },
{
    match o {
        Some(v) => v,
        None => Vec::new(),
    }
}

/// The record to create at nesting level `level` for a request made by `actor_id`.
pub fn new_task(req: CreateTaskRequest, actor_id: &str, level: u8) -> (r: NewTask)
    ensures
        new_task_spec(req, actor_id@, level, r),
{
    let priority = match req.priority {
        Some(p) => p,
        None => Priority::Normal,
    };
    NewTask {
        subject: req.subject,
        description: string_or_empty(req.description),
        priority,
        progress_status: ProgressStatus::Open,
        risk_status: RiskStatus::Pending,
        completion: 0,
        dates: req.dates,
        assigned_to: string_or_empty(req.assigned_to),
        created_by: String::from_str(actor_id),
        party_id: string_or_empty(req.party_id),
        parent_task_id: string_or_empty(req.parent_task_id),
        level,
        norm_refs: list_or_empty(req.norm_refs),
        tags: list_or_empty(req.tags),
        external_ref: req.external_ref,
    }
}

/// `e` announces the creation of the task `key` with the values `t` it is
/// stored with: an absent assignee or party is announced as the empty text
/// the record holds.
pub open spec fn announces_create(e: TaskEvent, key: Seq<char>, t: NewTask) -> bool {
    e matches TaskEvent::Created(c) && {
        &&& c.task_id@ == task_key(key)
        &&& c.subject == t.subject
        &&& c.priority == t.priority
        &&& c.assigned_to == Some(t.assigned_to)
        &&& c.party_id == Some(t.party_id)
        &&& c.planned_end == match t.dates { Some(d) => d.planned_end, None => None }
    }
}

/// The event announcing that the task `key` was created with the values `t`.
pub fn created_event(key: &str, t: &NewTask) -> (r: TaskEvent)
    ensures
        announces_create(r, key@, *t),
{
    let planned_end = match t.dates {
        Some(d) => d.planned_end,
        None => None,
    };
    TaskEvent::Created(TaskCreated {
        task_id: task_record_id(key),
        subject: t.subject.clone(),
        priority: t.priority,
        assigned_to: Some(t.assigned_to.clone()),
        party_id: Some(t.party_id.clone()),
        planned_end,
    })
}

// ── Partial update ─────────────────────────────────────────────

/// How `serde_json` writes one character inside a JSON string: quote and
/// backslash behind a backslash, the usual short escapes for backspace, tab,
/// line feed, form feed and carriage return, other control characters as
/// `\u00` and two lower-case hex digits, anything else as it is.
pub open spec fn json_escape_char(c: char) -> Seq<char> {
    if c == '"' {
        seq!['\\', '"']
    } else if c == '\\' {
        seq!['\\', '\\']
    } else if c == '\x08' {
        seq!['\\', 'b']
    } else if c == '\t' {
        seq!['\\', 't']
    } else if c == '\n' {
        seq!['\\', 'n']
    } else if c == '\x0c' {
        seq!['\\', 'f']
    } else if c == '\r' {
        seq!['\\', 'r']
    } else if (c as u32) < 0x20 {
        seq!['\\', 'u', '0', '0', ids::hex_digit((c as u32 / 16) as nat), ids::hex_digit((c as u32 % 16) as nat)]
    } else {
        seq![c]
    }
}

/// The escaped text of a string's characters.
pub open spec fn json_escape(s: Seq<char>) -> Seq<char>
    decreases s.len(),
{
    if s.len() == 0 {
        Seq::empty()
    } else {
        json_escape(s.drop_last()) + json_escape_char(s.last())
    }
}

/// What `serde_json::to_string` writes for a list of strings: each string
/// quoted and escaped, separated by commas, in square brackets.
pub open spec fn json_array_text(items: Seq<Seq<char>>) -> Seq<char> {
    "["@ + join(items.map_values(|t: Seq<char>| "\""@ + json_escape(t) + "\""@), ","@) + "]"@
}

#[verifier::external_type_specification]
#[verifier::external_body]
pub struct ExJsonError(serde_json::Error);

/// Serialises a list of strings with `serde_json::to_string` (its compact
/// formatter). Serialising fails only for a value whose `Serialize` fails or
/// for a map with keys that are not strings, so a list of strings always
/// serialises, to the text `json_array_text` describes.
#[verifier::external_body]
fn json_array(items: &Vec<String>) -> (r: Result<String, serde_json::Error>)
    ensures
        r is Ok,
        r matches Ok(s) ==> s@ == json_array_text(views(items@)),
{
    serde_json::to_string(items)
}

/// The assignments of a partial update: the update time, then one for each
/// field the request gives, in a fixed order. `norm_json` and `tags_json`
/// are the JSON texts of the lists, used only when the request gives them;
/// the dates and the external link are bound as `$dates` and `$external_ref`.
pub open spec fn update_assignments(
    req: UpdateTaskRequest,
    norm_json: Seq<char>,
    tags_json: Seq<char>,
) -> Seq<Seq<char>> {
    let a0 = seq!["updated_at = time::now()"@];
    let a1 = match opt_view(req.subject) { Some(v) => a0.push("subject = '"@ + v + "'"@), None => a0 };
    let a2 = match opt_view(req.description) {
        Some(v) => a1.push("description = '"@ + v + "'"@),
        None => a1,
    };
    let a3 = match req.priority {
        Some(v) => a2.push("priority = '"@ + priority_text(v) + "'"@),
        None => a2,
    };
    let a4 = match req.progress_status {
        Some(v) => a3.push("progress_status = '"@ + progress_text(v) + "'"@),
        None => a3,
    };
    let a5 = match req.risk_status {
        Some(v) => a4.push("risk_status = '"@ + risk_text(v) + "'"@),
        None => a4,
    };
    let a6 = match req.completion {
        Some(v) => a5.push("completion = "@ + decimal(v as nat)),
        None => a5,
    };
    let a7 = if req.dates is Some { a6.push("dates = $dates"@) } else { a6 };
    let a8 = match opt_view(req.assigned_to) {
        Some(v) => a7.push("assigned_to = '"@ + v + "'"@),
        None => a7,
    };
    let a9 = if req.norm_refs is Some { a8.push("norm_refs = "@ + norm_json) } else { a8 };
    let a10 = if req.tags is Some { a9.push("tags = "@ + tags_json) } else { a9 };
    if req.external_ref is Some { a10.push("external_ref = $external_ref"@) } else { a10 }
}

/// The query of a partial update.
pub open spec fn update_query_text(
    req: UpdateTaskRequest,
    norm_json: Seq<char>,
    tags_json: Seq<char>,
) -> Seq<char> {
    "UPDATE type::record('task', $id) SET "@ + join(update_assignments(req, norm_json, tags_json), ", "@)
        + " RETURN AFTER"@
}

/// The list after appending `text` when `value` is given.
pub open spec fn push_if<A>(items: Seq<Seq<char>>, value: Option<A>, text: Seq<char>) -> Seq<Seq<char>> {
    if value is Some { items.push(text) } else { items }
}

fn push_text(fields: &mut Vec<String>, s: String)
    ensures
        views(final(fields)@) == views(old(fields)@).push(s@),
{
    fields.push(s);
    assert(views(fields@) =~= views(old(fields)@).push(s@));
}

fn push_quoted(fields: &mut Vec<String>, prefix: &str, value: &Option<String>)
    ensures
        views(final(fields)@) == push_if(views(old(fields)@), *value, prefix@ + or_empty(*value) + "'"@),
{
    if let Some(v) = value {
        push_text(fields, String::from_str(prefix).concat(v.as_str()).concat("'"));
    }
}

fn push_named(fields: &mut Vec<String>, prefix: &str, value: Option<&'static str>)
    ensures
        views(final(fields)@) == push_if(
            views(old(fields)@),
            value,
            prefix@ + (match value { Some(t) => t@, None => Seq::<char>::empty() }) + "'"@,
        ),
{
    if let Some(v) = value {
        push_text(fields, String::from_str(prefix).concat(v).concat("'"));
    }
}

/// The assignments of a partial update, in the form `push_if` builds them.
pub open spec fn update_assignments_steps(
    req: UpdateTaskRequest,
    norm_json: Seq<char>,
    tags_json: Seq<char>,
) -> Seq<Seq<char>> {
    let a0 = seq!["updated_at = time::now()"@];
    let a1 = push_if(a0, req.subject, "subject = '"@ + or_empty(req.subject) + "'"@);
    let a2 = push_if(a1, req.description, "description = '"@ + or_empty(req.description) + "'"@);
    let a3 = push_if(a2, req.priority, "priority = '"@ + match req.priority {
        Some(p) => priority_text(p),
        None => Seq::empty(),
    } + "'"@);
    let a4 = push_if(a3, req.progress_status, "progress_status = '"@ + match req.progress_status {
        Some(p) => progress_text(p),
        None => Seq::empty(),
    } + "'"@);
    let a5 = push_if(a4, req.risk_status, "risk_status = '"@ + match req.risk_status {
        Some(p) => risk_text(p),
        None => Seq::empty(),
    } + "'"@);
    let a6 = push_if(a5, req.completion, "completion = "@ + match req.completion {
        Some(c) => decimal(c as nat),
        None => Seq::empty(),
    });
    let a7 = push_if(a6, req.dates, "dates = $dates"@);
    let a8 = push_if(a7, req.assigned_to, "assigned_to = '"@ + or_empty(req.assigned_to) + "'"@);
    let a9 = push_if(a8, req.norm_refs, "norm_refs = "@ + norm_json);
    let a10 = push_if(a9, req.tags, "tags = "@ + tags_json);
    push_if(a10, req.external_ref, "external_ref = $external_ref"@)
}

/// The two forms of the assignments of a partial update agree.
pub proof fn lemma_update_steps(req: UpdateTaskRequest, norm_json: Seq<char>, tags_json: Seq<char>)
    ensures
        update_assignments_steps(req, norm_json, tags_json) == update_assignments(req, norm_json, tags_json),
{
}

/// Builds the query of a partial update from the request and the JSON texts
/// of its lists.
pub fn update_query_with(req: &UpdateTaskRequest, norm_json: &str, tags_json: &str) -> (r: String)
    ensures
        r@ == update_query_text(*req, norm_json@, tags_json@),
{
    let mut fields: Vec<String> = Vec::new();
    push_text(&mut fields, String::from_str("updated_at = time::now()"));
    assert(views(fields@) =~= seq!["updated_at = time::now()"@]);
    push_quoted(&mut fields, "subject = '", &req.subject);
    push_quoted(&mut fields, "description = '", &req.description);
    push_named(&mut fields, "priority = '", match &req.priority { Some(p) => Some(p.as_str()), None => None });
    push_named(&mut fields, "progress_status = '", match &req.progress_status { Some(p) => Some(p.as_str()), None => None });
    push_named(&mut fields, "risk_status = '", match &req.risk_status { Some(p) => Some(p.as_str()), None => None });
    if let Some(v) = req.completion {
        push_text(&mut fields, String::from_str("completion = ").concat(decimal_string(v as u64).as_str()));
    }
    if req.dates.is_some() {
        push_text(&mut fields, String::from_str("dates = $dates"));
    }
    push_quoted(&mut fields, "assigned_to = '", &req.assigned_to);
    if req.norm_refs.is_some() {
        push_text(&mut fields, String::from_str("norm_refs = ").concat(norm_json));
    }
    if req.tags.is_some() {
        push_text(&mut fields, String::from_str("tags = ").concat(tags_json));
    }
    if req.external_ref.is_some() {
        push_text(&mut fields, String::from_str("external_ref = $external_ref"));
    }
    proof {
        lemma_update_steps(*req, norm_json@, tags_json@);
    }
    assert(views(fields@) == update_assignments_steps(*req, norm_json@, tags_json@));
    let set_clause = join_strings(&fields, ", ");
    String::from_str("UPDATE type::record('task', $id) SET ").concat(set_clause.as_str()).concat(
        " RETURN AFTER",
    )
}

/// The JSON text of an optional list as the update writes it (empty when absent).
pub open spec fn list_json(o: Option<Vec<String>>) -> Seq<char> {
    match o {
        Some(v) => json_array_text(views(v@)),
        None => Seq::empty(),
    }
}

fn optional_list_json(o: &Option<Vec<String>>) -> (r: String)
    ensures
        r@ == list_json(*o),
{
    match o {
        Some(v) => match json_array(v) {
            Ok(s) => s,
            Err(_) => String::new(),
        },
        None => String::new(),
    }
}

/// Builds the query of a partial update.
pub fn update_task_query(req: &UpdateTaskRequest) -> (r: String)
    ensures
        r@ == update_query_text(*req, list_json(req.norm_refs), list_json(req.tags)),
{
    let norm = optional_list_json(&req.norm_refs);
    let tags = optional_list_json(&req.tags);
    update_query_with(req, norm.as_str(), tags.as_str())
}

/// `e` announces a partial update of the task `id`; it names the task only.
pub open spec fn announces_update(e: TaskEvent, id: Seq<char>) -> bool {
    e matches TaskEvent::Updated(u) && u.task_id@ == task_key(id) && u.subject is None && u.priority is None
}

/// The event announcing a partial update of the task `id`.
pub fn updated_event(id: &str) -> (r: TaskEvent)
    ensures
        announces_update(r, id@),
{
    TaskEvent::Updated(TaskUpdated { task_id: task_record_id(id), subject: None, priority: None })
}

// ── Status transition ──────────────────────────────────────────

/// The query that writes a new progress status and completion.
pub const SET_STATUS: &'static str = "UPDATE type::record('task', $id) MERGE {\n                progress_status: $status,\n                completion:      $completion,\n                updated_at:      time::now()\n            } RETURN AFTER";

/// The completion a task has after moving to `to`: full once completed or
/// verified, unchanged otherwise.
pub open spec fn completion_after(to: ProgressStatus, current: u8) -> u8 {
    if to == ProgressStatus::Completed || to == ProgressStatus::Verified {
        100
    } else {
        current
    }
}

/// Checks a requested status change of `current` against the workflow and
/// gives the completion to write, or the `InvalidTransition` error naming
/// both statuses.
pub fn plan_transition(current: &Task, to: ProgressStatus) -> (r: Result<u8, AppError>)
    ensures
        match r {
            Ok(c) => allowed(current.progress_status, to)
                && c == completion_after(to, current.completion),
            Err(e) => !allowed(current.progress_status, to) && (e matches AppError::InvalidTransition { from, to: t }
                && from@ == progress_text(current.progress_status) && t@ == progress_text(to)),
        },
{
    if current.progress_status.is_terminal() || !current.progress_status.can_transition_to(&to) {
        return Err(AppError::InvalidTransition {
            from: current.progress_status.to_string(),
            to: to.to_string(),
        });
    }
    let completion: u8 = match to {
        ProgressStatus::Completed | ProgressStatus::Verified => 100,
        _ => current.completion,
    };
    Ok(completion)
}

/// `e` announces that the task `id` moved from `from` to `to` with `completion`.
pub open spec fn announces_status(e: TaskEvent, id: Seq<char>, from: ProgressStatus, to: ProgressStatus, completion: u8) -> bool {
    e matches TaskEvent::StatusChanged(c) && {
        &&& c.task_id@ == task_key(id)
        &&& c.from_status == from
        &&& c.to_status == to
        &&& c.completion == completion
    }
}

/// The event announcing a status change of the task `id`.
pub fn status_changed_event(id: &str, from: ProgressStatus, to: ProgressStatus, completion: u8) -> (r: TaskEvent)
    ensures
        announces_status(r, id@, from, to, completion),
{
    TaskEvent::StatusChanged(TaskStatusChanged {
        task_id: task_record_id(id),
        from_status: from,
        to_status: to,
        completion,
    })
}

// ── Risk update ────────────────────────────────────────────────

/// The query that writes a new risk status.
pub const SET_RISK: &'static str = "UPDATE type::record('task', $id) MERGE {\n                risk_status: $risk,\n                updated_at:  time::now()\n            } RETURN AFTER";

/// `e` announces that the risk of the task `id` moved from `from` to `to` for `reason`.
pub open spec fn announces_risk(e: TaskEvent, id: Seq<char>, from: RiskStatus, to: RiskStatus, reason: Option<String>) -> bool {
    e matches TaskEvent::RiskChanged(c) && {
        &&& c.task_id@ == task_key(id)
        &&& c.from_risk == from
        &&& c.to_risk == to
        &&& c.reason == reason
    }
}

/// The event announcing a risk change of the task `id`.
pub fn risk_changed_event(id: &str, from: RiskStatus, to: RiskStatus, reason: Option<String>) -> (r: TaskEvent)
    ensures
        announces_risk(r, id@, from, to, reason),
{
    TaskEvent::RiskChanged(TaskRiskChanged { task_id: task_record_id(id), from_risk: from, to_risk: to, reason })
}

// ── Soft delete ────────────────────────────────────────────────

/// The query that marks a task deleted.
pub const SOFT_DELETE: &'static str = "UPDATE type::record('task', $id) SET\n            deleted_at = time::now(),\n            updated_at = time::now()";

/// The record id `task:<id>` of a task named by its bare id.
pub fn task_record_id(id: &str) -> (r: String)
    ensures
        r@ == task_key(id@),
{
    String::from_str("task:").concat(id)
}

/// `e` announces that the task `id` was deleted.
pub open spec fn announces_delete(e: TaskEvent, id: Seq<char>) -> bool {
    e matches TaskEvent::Deleted(d) && d.task_id@ == task_key(id)
}

/// The event announcing that the task with bare id `id` was deleted.
pub fn deleted_event(id: &str) -> (r: TaskEvent)
    ensures
        announces_delete(r, id@),
{
    TaskEvent::Deleted(TaskDeleted { task_id: task_record_id(id) })
}

// ── Outbox ─────────────────────────────────────────────────────

/// The query that records an event in the outbox, unsent, with no retries.
pub const WRITE_OUTBOX: &'static str = "CREATE outbox SET\n            topic       = $topic,\n            aggregate   = $aggregate,\n            event_type  = $event_type,\n            payload     = $payload,\n            tenant_id   = $tenant_id,\n            created_at  = time::now(),\n            sent_at     = NONE,\n            failed_at   = NONE,\n            retry_count = 0";

/// An outbox entry: the envelope is stored, serialised, as its payload.
#[derive(Debug, Clone)]
pub struct OutboxWrite {
    pub topic: String,
    pub aggregate: String,
    pub event_type: String,
    pub envelope: EventEnvelope<TaskEvent>,
    /// The tenant in hyphenated UUID form.
    pub tenant_id: String,
}

/// `w` records its event about `aggregate` for tenant `tenant_id`, caused by
/// `actor_id`: on the task topic, typed by the event itself, in an envelope
/// that carries the same routing data and the actor.
pub open spec fn records(w: OutboxWrite, aggregate: Seq<char>, tenant_id: u128, actor_id: Seq<char>) -> bool {
    &&& w.topic@ == TASK_EVENTS@
    &&& w.aggregate@ == aggregate
    &&& w.event_type@ == event_type_of(w.envelope.payload)
    &&& w.tenant_id@ == ids::hyphenated_text(tenant_id)
    &&& w.envelope.event_type@ == event_type_of(w.envelope.payload)
    &&& w.envelope.aggregate@ == aggregate
    &&& w.envelope.tenant_id == tenant_id
    &&& w.envelope.actor_id@ == actor_id
}

/// The outbox entry for `event` about `aggregate` in tenant `tenant_id`,
/// caused by `actor_id`, in a freshly stamped envelope.
pub fn outbox_write(aggregate: String, event: TaskEvent, tenant_id: u128, actor_id: String) -> (r: OutboxWrite)
    ensures
        records(r, aggregate@, tenant_id, actor_id@),
        r.envelope.payload == event,
{
    let event_type = String::from_str(event.event_type());
    let envelope = EventEnvelope::new(
        String::from_str(event.event_type()),
        aggregate.clone(),
        tenant_id,
        actor_id,
        event,
    );
    OutboxWrite {
        topic: String::from_str(TASK_EVENTS),
        aggregate,
        event_type,
        envelope,
        tenant_id: ids::hyphenated_string(tenant_id),
    }
}

// ── Transactions ───────────────────────────────────────────────

/// A write to the task store.
#[derive(Debug, Clone)]
pub enum Write {
    /// Create the task `key` with these values.
    Create { key: String, task: NewTask },
    /// Run this partial update query on the task `id`, binding the dates
    /// and the external link when given.
    Update { id: String, query: String, dates: Option<TaskDates>, external_ref: Option<ExternalRef> },
    /// Set progress status and completion of the task `id`.
    SetStatus { id: String, status: ProgressStatus, completion: u8 },
    /// Set the risk status of the task `id`.
    SetRisk { id: String, risk: RiskStatus },
    /// Mark the task `id` deleted.
    SoftDelete { id: String },
}

/// The query of a write.
pub open spec fn write_text(w: Write) -> Seq<char> {
    match w {
        Write::Create { .. } => CREATE_TASK@,
        Write::Update { query, .. } => query@,
        Write::SetStatus { .. } => SET_STATUS@,
        Write::SetRisk { .. } => SET_RISK@,
        Write::SoftDelete { .. } => SOFT_DELETE@,
    }
}

/// The query of a write together with its outbox entry, in one transaction.
/// A write that returns its record records the entry only when it found a
/// record, and answers with that record; a delete records it always.
pub open spec fn transaction_text(w: Write) -> Seq<char> {
    if w is SoftDelete {
        "BEGIN TRANSACTION;\n"@ + write_text(w) + ";\n"@ + WRITE_OUTBOX@ + ";\nCOMMIT TRANSACTION;"@
    } else {
        "BEGIN TRANSACTION;\nLET $task = ("@ + write_text(w) + ");\nIF array::len($task) > 0 {\n"@
            + WRITE_OUTBOX@ + ";\n};\nCOMMIT TRANSACTION;\nRETURN $task;"@
    }
}

/// A write and the outbox entry announcing it, committed together by `query`.
#[derive(Debug, Clone)]
pub struct Transaction {
    pub query: String,
    pub write: Write,
    pub entry: OutboxWrite,
}

fn write_query(w: &Write) -> (r: &str)
    ensures
        r@ == write_text(*w),
{
    match w {
        Write::Create { .. } => CREATE_TASK,
        Write::Update { query, .. } => query.as_str(),
        Write::SetStatus { .. } => SET_STATUS,
        Write::SetRisk { .. } => SET_RISK,
        Write::SoftDelete { .. } => SOFT_DELETE,
    }
}

/// The transaction that commits `write` together with `entry`.
pub fn transaction(write: Write, entry: OutboxWrite) -> (r: Transaction)
    ensures
        r.write == write,
        r.entry == entry,
        r.query@ == transaction_text(write),
{
    let query = if let Write::SoftDelete { .. } = write {
        String::from_str("BEGIN TRANSACTION;\n").concat(write_query(&write)).concat(";\n").concat(
            WRITE_OUTBOX,
        ).concat(";\nCOMMIT TRANSACTION;")
    } else {
        String::from_str("BEGIN TRANSACTION;\nLET $task = (").concat(write_query(&write)).concat(
            ");\nIF array::len($task) > 0 {\n",
        ).concat(WRITE_OUTBOX).concat(";\n};\nCOMMIT TRANSACTION;\nRETURN $task;")
    };
    Transaction { query, write, entry }
}

} // verus!
