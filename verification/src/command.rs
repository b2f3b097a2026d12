//! The write commands of the task repository as a state machine. A command
//! may read the record it depends on, then commits its write and the outbox
//! entry announcing it in one transaction, and replies. The machine makes
//! the decisions and names the next round trip; the service performs it and
//! feeds back what came of it, until the machine replies.
use vstd::prelude::*;
use vstd::string::*;
use crate::errors::AppError;
use crate::ids;
use crate::models::task::{
    allowed, progress_text, CreateTaskRequest, ProgressStatus, RiskStatus, Task, UpdateTaskRequest,
};
use crate::repository::{
    announces_create, announces_delete, announces_risk, announces_status, announces_update,
    completion_after, created_event, deleted_event, list_json, new_task, new_task_spec,
    outbox_write, plan_transition, records, risk_changed_event, status_changed_event, task_key,
    task_not_found, task_record_id, transaction, transaction_text, update_query_text,
    update_task_query, updated_event, Transaction, Write,
};

verus! {

/// The deepest nesting level a task may have; top-level tasks have level 0.
pub const MAX_LEVEL: u8 = 2;

/// The level of a subtask whose parent is not found: it is created one
/// level below the top.
pub const UNKNOWN_PARENT_LEVEL: u8 = 1;

/// The message refusing a subtask below a task at the deepest level.
pub const DEPTH_ERROR: &'static str = "tasks nest at most 3 levels deep";

/// The message refusing a completion outside 0 to 100.
pub const COMPLETION_ERROR: &'static str = "completion must be between 0 and 100";

/// A change to the task store that a client, `actor_id`, asks for.
#[derive(Debug, Clone)]
pub enum Command {
    Create { req: CreateTaskRequest, actor_id: String },
    Update { id: String, req: UpdateTaskRequest, actor_id: String },
    Transition { id: String, to: ProgressStatus, actor_id: String },
    ChangeRisk { id: String, to: RiskStatus, reason: Option<String>, actor_id: String },
    Delete { id: String, actor_id: String },
}

/// What a record is read for.
#[derive(Debug, Clone)]
pub enum ReadFor {
    /// The parent of a task to create.
    Parent { req: CreateTaskRequest, actor_id: String },
    /// The task a partial update that names a status applies to.
    Update { req: UpdateTaskRequest, actor_id: String },
    Transition { to: ProgressStatus, actor_id: String },
    ChangeRisk { to: RiskStatus, reason: Option<String>, actor_id: String },
}

/// What a transaction is for, and so how its outcome is answered.
#[derive(Debug, Clone)]
pub enum Pending {
    Created,
    /// A change of the task `id`, which must exist.
    Changed { id: String },
    Deleted,
}

/// Where a command stands.
#[derive(Debug, Clone)]
pub enum Flow {
    /// Waiting for the record of the task `id`.
    Reading { id: String, tenant_id: u128, purpose: ReadFor },
    /// Waiting for the outcome of the transaction.
    Writing { pending: Pending },
    Finished,
}

/// The next round trip, or the reply that ends the command.
#[derive(Debug)]
pub enum Action {
    Read { id: String },
    /// Commit a write and its outbox entry together.
    Write(Transaction),
    Reply(Result<Option<Task>, AppError>),
}

/// What came of a round trip.
#[derive(Debug)]
pub enum Feedback {
    /// The record read, or none when no task has the id.
    Read(Result<Option<Task>, AppError>),
    /// The outcome of the transaction: the record it returned (none when it
    /// found none), or the error that rolled it back.
    Written(Result<Option<Task>, AppError>),
}

/// The feedback a flow waits for.
pub open spec fn awaits(flow: Flow, fb: Feedback) -> bool {
    match flow {
        Flow::Reading { .. } => fb is Read,
        Flow::Writing { .. } => fb is Written,
        Flow::Finished => false,
    }
}

/// The number of round trips a flow can still make.
pub open spec fn rank(flow: Flow) -> nat {
    match flow {
        Flow::Reading { .. } => 2,
        Flow::Writing { .. } => 1,
        Flow::Finished => 0,
    }
}

/// The action fits the state it leaves the flow in: a flow waits for
/// exactly the outcome of the round trip it asked for, and a finished flow
/// has replied.
pub open spec fn consistent(flow: Flow, a: Action) -> bool {
    match flow {
        Flow::Reading { id, .. } => a matches Action::Read { id: i } && i@ == id@,
        Flow::Writing { .. } => a is Write,
        Flow::Finished => a is Reply,
    }
}

/// `e` is the error for a task id that names no task.
pub open spec fn not_found(e: AppError, id: Seq<char>) -> bool {
    e matches AppError::NotFound(m) && m@ == task_key(id)
}

/// `e` is the validation error carrying `m`.
pub open spec fn invalid(e: AppError, m: Seq<char>) -> bool {
    e matches AppError::Validation(t) && t@ == m
}

/// `e` refuses the move of a task from `from` to `to`.
pub open spec fn refused_move(e: AppError, from: ProgressStatus, to: ProgressStatus) -> bool {
    e matches AppError::InvalidTransition { from: f, to: t } && f@ == progress_text(from) && t@ == progress_text(to)
}

/// The request sets a completion above 100.
pub open spec fn completion_out_of_range(req: UpdateTaskRequest) -> bool {
    match req.completion {
        Some(c) => c > 100,
        None => false,
    }
}

/// A partial update may apply to a task in status `current`: it names no
/// status, the current one, or one the workflow allows next.
pub open spec fn update_allowed(req: UpdateTaskRequest, current: ProgressStatus) -> bool {
    match req.progress_status {
        Some(n) => n == current || allowed(current, n),
        None => true,
    }
}

/// `tx` commits its write and its outbox entry about `aggregate` in one
/// transaction, for tenant `tenant_id` and actor `actor_id`.
pub open spec fn commits(tx: Transaction, aggregate: Seq<char>, tenant_id: u128, actor_id: Seq<char>) -> bool {
    &&& tx.query@ == transaction_text(tx.write)
    &&& records(tx.entry, aggregate, tenant_id, actor_id)
}

/// `tx` creates a task from `req` at nesting level `level` and announces it.
pub open spec fn creates(tx: Transaction, req: CreateTaskRequest, actor_id: Seq<char>, level: u8, tenant_id: u128) -> bool {
    tx.write matches Write::Create { key, task } && {
        &&& new_task_spec(req, actor_id, level, task)
        &&& commits(tx, task_key(key@), tenant_id, actor_id)
        &&& announces_create(tx.entry.envelope.payload, key@, task)
    }
}

/// `tx` applies the partial update `req` to the task `id` and announces it.
pub open spec fn updates(tx: Transaction, id: Seq<char>, req: UpdateTaskRequest, tenant_id: u128, actor_id: Seq<char>) -> bool {
    tx.write matches Write::Update { id: i, query, dates, external_ref } && {
        &&& i@ == id
        &&& query@ == update_query_text(req, list_json(req.norm_refs), list_json(req.tags))
        &&& dates == req.dates
        &&& external_ref == req.external_ref
        &&& !completion_out_of_range(req)
        &&& commits(tx, task_key(id), tenant_id, actor_id)
        &&& announces_update(tx.entry.envelope.payload, id)
    }
}

/// `tx` moves the task `id` from `from` to `to` with `completion` and announces it.
pub open spec fn sets_status(
    tx: Transaction,
    id: Seq<char>,
    from: ProgressStatus,
    to: ProgressStatus,
    completion: u8,
    tenant_id: u128,
    actor_id: Seq<char>,
) -> bool {
    tx.write matches Write::SetStatus { id: i, status, completion: c } && {
        &&& i@ == id
        &&& status == to
        &&& c == completion
        &&& commits(tx, task_key(id), tenant_id, actor_id)
        &&& announces_status(tx.entry.envelope.payload, id, from, to, completion)
    }
}

/// `tx` moves the risk of the task `id` from `from` to `to` and announces it.
pub open spec fn sets_risk(
    tx: Transaction,
    id: Seq<char>,
    from: RiskStatus,
    to: RiskStatus,
    reason: Option<String>,
    tenant_id: u128,
    actor_id: Seq<char>,
) -> bool {
    tx.write matches Write::SetRisk { id: i, risk } && {
        &&& i@ == id
        &&& risk == to
        &&& commits(tx, task_key(id), tenant_id, actor_id)
        &&& announces_risk(tx.entry.envelope.payload, id, from, to, reason)
    }
}

/// `tx` marks the task `id` deleted and announces it.
pub open spec fn deletes(tx: Transaction, id: Seq<char>, tenant_id: u128, actor_id: Seq<char>) -> bool {
    tx.write matches Write::SoftDelete { id: i } && {
        &&& i@ == id
        &&& commits(tx, task_key(id), tenant_id, actor_id)
        &&& announces_delete(tx.entry.envelope.payload, id)
    }
}

/// How a command starts.
pub open spec fn start_spec(cmd: Command, tenant_id: u128, flow: Flow, a: Action) -> bool {
    match cmd {
        Command::Create { req, actor_id } => match req.parent_task_id {
            Some(pid) => {
                &&& flow == (Flow::Reading { id: pid, tenant_id, purpose: ReadFor::Parent { req, actor_id } })
                &&& a matches Action::Read { id: i } && i@ == pid@
            },
            None => {
                &&& flow == (Flow::Writing { pending: Pending::Created })
                &&& a matches Action::Write(tx) && creates(tx, req, actor_id@, 0, tenant_id)
            },
        },
        Command::Update { id, req, actor_id } => if completion_out_of_range(req) {
            &&& flow == Flow::Finished
            &&& a matches Action::Reply(Err(e)) && invalid(e, COMPLETION_ERROR@)
        } else if req.progress_status is Some {
            &&& flow == (Flow::Reading { id, tenant_id, purpose: ReadFor::Update { req, actor_id } })
            &&& a matches Action::Read { id: i } && i@ == id@
        } else {
            &&& flow == (Flow::Writing { pending: Pending::Changed { id } })
            &&& a matches Action::Write(tx) && updates(tx, id@, req, tenant_id, actor_id@)
        },
        Command::Transition { id, to, actor_id } => {
            &&& flow == (Flow::Reading { id, tenant_id, purpose: ReadFor::Transition { to, actor_id } })
            &&& a matches Action::Read { id: i } && i@ == id@
        },
        Command::ChangeRisk { id, to, reason, actor_id } => {
            &&& flow == (Flow::Reading { id, tenant_id, purpose: ReadFor::ChangeRisk { to, reason, actor_id } })
            &&& a matches Action::Read { id: i } && i@ == id@
        },
        Command::Delete { id, actor_id } => {
            &&& flow == (Flow::Writing { pending: Pending::Deleted })
            &&& a matches Action::Write(tx) && deletes(tx, id@, tenant_id, actor_id@)
        },
    }
}

/// How a command moves on the record `cur` of the task `id` it read.
pub open spec fn after_read_spec(id: String, tenant_id: u128, purpose: ReadFor, cur: Task, next: Flow, a: Action) -> bool {
    match purpose {
        ReadFor::Parent { req, actor_id } => if cur.level >= MAX_LEVEL {
            &&& next == Flow::Finished
            &&& a matches Action::Reply(Err(e)) && invalid(e, DEPTH_ERROR@)
        } else {
            &&& next == (Flow::Writing { pending: Pending::Created })
            &&& a matches Action::Write(tx) && creates(tx, req, actor_id@, (cur.level + 1) as u8, tenant_id)
        },
        ReadFor::Update { req, actor_id } => if completion_out_of_range(req) {
            &&& next == Flow::Finished
            &&& a matches Action::Reply(Err(e)) && invalid(e, COMPLETION_ERROR@)
        } else if update_allowed(req, cur.progress_status) {
            &&& next == (Flow::Writing { pending: Pending::Changed { id } })
            &&& a matches Action::Write(tx) && updates(tx, id@, req, tenant_id, actor_id@)
        } else {
            &&& next == Flow::Finished
            &&& a matches Action::Reply(Err(e)) && (req.progress_status matches Some(n) && refused_move(
                e,
                cur.progress_status,
                n,
            ))
        },
        ReadFor::Transition { to, actor_id } => if allowed(cur.progress_status, to) {
            &&& next == (Flow::Writing { pending: Pending::Changed { id } })
            &&& a matches Action::Write(tx) && sets_status(
                tx,
                id@,
                cur.progress_status,
                to,
                completion_after(to, cur.completion),
                tenant_id,
                actor_id@,
            )
        } else {
            &&& next == Flow::Finished
            &&& a matches Action::Reply(Err(e)) && refused_move(e, cur.progress_status, to)
        },
        ReadFor::ChangeRisk { to, reason, actor_id } => {
            &&& next == (Flow::Writing { pending: Pending::Changed { id } })
            &&& a matches Action::Write(tx) && sets_risk(tx, id@, cur.risk_status, to, reason, tenant_id, actor_id@)
        },
    }
}

/// One step of a command: how the flow moves on what came of its last round trip.
pub open spec fn step_spec(flow: Flow, fb: Feedback, next: Flow, a: Action) -> bool {
    match flow {
        Flow::Reading { id, tenant_id, purpose } => match fb {
            Feedback::Read(Err(e)) => next == Flow::Finished && a == Action::Reply(Err(e)),
            Feedback::Read(Ok(None)) => match purpose {
                ReadFor::Parent { req, actor_id } => {
                    &&& next == (Flow::Writing { pending: Pending::Created })
                    &&& a matches Action::Write(tx) && creates(tx, req, actor_id@, UNKNOWN_PARENT_LEVEL, tenant_id)
                },
                _ => next == Flow::Finished && (a matches Action::Reply(Err(e)) && not_found(e, id@)),
            },
            Feedback::Read(Ok(Some(cur))) => after_read_spec(id, tenant_id, purpose, cur, next, a),
            _ => false,
        },
        Flow::Writing { pending } => match fb {
            Feedback::Written(Err(e)) => next == Flow::Finished && a == Action::Reply(Err(e)),
            Feedback::Written(Ok(record)) => next == Flow::Finished && match pending {
                Pending::Deleted => a == Action::Reply(Ok(None)),
                Pending::Created => match record {
                    Some(t) => a == Action::Reply(Ok(Some(t))),
                    None => a matches Action::Reply(Err(e))
                        && (e matches AppError::Internal(m) && m@ == "CREATE returned no record"@),
                },
                Pending::Changed { id } => match record {
                    Some(t) => a == Action::Reply(Ok(Some(t))),
                    None => a matches Action::Reply(Err(e)) && not_found(e, id@),
                },
            },
            _ => false,
        },
        Flow::Finished => false,
    }
}

fn reply_err(e: AppError) -> (r: (Flow, Action))
    ensures
        r == (Flow::Finished, Action::Reply(Err(e))),
{
    (Flow::Finished, Action::Reply(Err(e)))
}

/// The transaction creating a task from `req` at level `level` under a
/// freshly drawn key.
fn create_write(req: CreateTaskRequest, actor_id: String, level: u8, tenant_id: u128) -> (r: (Flow, Action))
    ensures
        r.0 == (Flow::Writing { pending: Pending::Created }),
        r.1 matches Action::Write(tx) && creates(tx, req, actor_id@, level, tenant_id),
{
    let key = ids::simple_string(ids::new_v4());
    let task = new_task(req, actor_id.as_str(), level);
    let event = created_event(key.as_str(), &task);
    let entry = outbox_write(task_record_id(key.as_str()), event, tenant_id, actor_id);
    (Flow::Writing { pending: Pending::Created }, Action::Write(transaction(Write::Create { key, task }, entry)))
}

/// The transaction applying the partial update `req` to the task `id`.
fn update_write(id: String, req: UpdateTaskRequest, actor_id: String, tenant_id: u128) -> (r: (Flow, Action))
    requires
        !completion_out_of_range(req),
    ensures
        r.0 == (Flow::Writing { pending: Pending::Changed { id } }),
        r.1 matches Action::Write(tx) && updates(tx, id@, req, tenant_id, actor_id@),
{
    let query = update_task_query(&req);
    let entry = outbox_write(task_record_id(id.as_str()), updated_event(id.as_str()), tenant_id, actor_id);
    let i = id.clone();
    let write = Write::Update { id: i, query, dates: req.dates, external_ref: req.external_ref };
    (Flow::Writing { pending: Pending::Changed { id } }, Action::Write(transaction(write, entry)))
}

/// Starts a command for tenant `tenant_id`: the first round trip, or the
/// reply when the command fails before any.
pub fn start(cmd: Command, tenant_id: u128) -> (r: (Flow, Action))
    ensures
        start_spec(cmd, tenant_id, r.0, r.1),
        consistent(r.0, r.1),
        r.1 matches Action::Write(tx) ==> (tx.write matches Write::Create { task, .. } ==> task.level
            <= MAX_LEVEL),
{
    match cmd {
        Command::Create { req, actor_id } => {
            let parent = match &req.parent_task_id {
                Some(p) => Some(p.clone()),
                None => None,
            };
            match parent {
                Some(pid) => {
                    let i = pid.clone();
                    (Flow::Reading { id: pid, tenant_id, purpose: ReadFor::Parent { req, actor_id } }, Action::Read { id: i })
                },
                None => create_write(req, actor_id, 0, tenant_id),
            }
        },
        Command::Update { id, req, actor_id } => {
            if let Some(c) = req.completion {
                if c > 100 {
                    return reply_err(AppError::Validation(String::from_str(COMPLETION_ERROR)));
                }
            }
            if req.progress_status.is_some() {
                let i = id.clone();
                (Flow::Reading { id, tenant_id, purpose: ReadFor::Update { req, actor_id } }, Action::Read { id: i })
            } else {
                update_write(id, req, actor_id, tenant_id)
            }
        },
        Command::Transition { id, to, actor_id } => {
            let i = id.clone();
            (Flow::Reading { id, tenant_id, purpose: ReadFor::Transition { to, actor_id } }, Action::Read { id: i })
        },
        Command::ChangeRisk { id, to, reason, actor_id } => {
            let i = id.clone();
            (
                Flow::Reading { id, tenant_id, purpose: ReadFor::ChangeRisk { to, reason, actor_id } },
                Action::Read { id: i },
            )
        },
        Command::Delete { id, actor_id } => {
            let entry = outbox_write(task_record_id(id.as_str()), deleted_event(id.as_str()), tenant_id, actor_id);
            (Flow::Writing { pending: Pending::Deleted }, Action::Write(transaction(Write::SoftDelete { id }, entry)))
        },
    }
}

/// Checks a partial update that names a status against the task's current
/// status.
fn check_update(req: &UpdateTaskRequest, current: ProgressStatus) -> (r: Result<(), AppError>)
    ensures
        r is Ok <==> update_allowed(*req, current),
        r matches Err(e) ==> (req.progress_status matches Some(n) && refused_move(e, current, n)),
{
    match req.progress_status {
        Some(n) => if n == current || current.can_transition_to(&n) {
            Ok(())
        } else {
            Err(AppError::InvalidTransition { from: current.to_string(), to: n.to_string() })
        },
        None => Ok(()),
    }
}

fn after_read(id: String, tenant_id: u128, purpose: ReadFor, cur: Task) -> (r: (Flow, Action))
    ensures
        after_read_spec(id, tenant_id, purpose, cur, r.0, r.1),
{
    match purpose {
        ReadFor::Parent { req, actor_id } => if cur.level >= MAX_LEVEL {
            reply_err(AppError::Validation(String::from_str(DEPTH_ERROR)))
        } else {
            create_write(req, actor_id, cur.level + 1, tenant_id)
        },
        ReadFor::Update { req, actor_id } => {
            if let Some(c) = req.completion {
                if c > 100 {
                    return reply_err(AppError::Validation(String::from_str(COMPLETION_ERROR)));
                }
            }
            match check_update(&req, cur.progress_status) {
                Ok(_) => update_write(id, req, actor_id, tenant_id),
                Err(e) => reply_err(e),
            }
        },
        ReadFor::Transition { to, actor_id } => match plan_transition(&cur, to) {
            Ok(c) => {
                let entry = outbox_write(
                    task_record_id(id.as_str()),
                    status_changed_event(id.as_str(), cur.progress_status, to, c),
                    tenant_id,
                    actor_id,
                );
                let i = id.clone();
                let write = Write::SetStatus { id: i, status: to, completion: c };
                (Flow::Writing { pending: Pending::Changed { id } }, Action::Write(transaction(write, entry)))
            },
            Err(e) => reply_err(e),
        },
        ReadFor::ChangeRisk { to, reason, actor_id } => {
            let entry = outbox_write(
                task_record_id(id.as_str()),
                risk_changed_event(id.as_str(), cur.risk_status, to, reason),
                tenant_id,
                actor_id,
            );
            let i = id.clone();
            let write = Write::SetRisk { id: i, risk: to };
            (Flow::Writing { pending: Pending::Changed { id } }, Action::Write(transaction(write, entry)))
        },
    }
}

/// Moves a command on by what came of its last round trip. A command
/// commits at most one transaction, which carries its write and the outbox
/// entry announcing it together; it replies with success only once that
/// transaction has committed; a status it writes is one the workflow
/// allows; a task it creates is at most `MAX_LEVEL` deep; and every step
/// brings it closer to its reply.
pub fn step(flow: Flow, fb: Feedback) -> (r: (Flow, Action))
    requires
        awaits(flow, fb),
    ensures
        step_spec(flow, fb, r.0, r.1),
        consistent(r.0, r.1),
        rank(r.0) < rank(flow),
        r.1 matches Action::Reply(Ok(_)) ==> fb matches Feedback::Written(Ok(_)),
        r.1 is Write ==> fb matches Feedback::Read(Ok(_)),
        r.1 matches Action::Write(tx) ==> (tx.write matches Write::SetStatus { status, .. } ==> (
        fb matches Feedback::Read(Ok(Some(cur))) && allowed(cur.progress_status, status))),
        r.1 matches Action::Write(tx) ==> (tx.write matches Write::Create { task, .. } ==> task.level
            <= MAX_LEVEL),
{
    match flow {
        Flow::Reading { id, tenant_id, purpose } => match fb {
            Feedback::Read(Err(e)) => reply_err(e),
            Feedback::Read(Ok(None)) => match purpose {
                ReadFor::Parent { req, actor_id } => create_write(req, actor_id, UNKNOWN_PARENT_LEVEL, tenant_id),
                _ => reply_err(task_not_found(id.as_str())),
            },
            Feedback::Read(Ok(Some(cur))) => after_read(id, tenant_id, purpose, cur),
            _ => (Flow::Finished, Action::Reply(Ok(None))),
        },
        Flow::Writing { pending } => match fb {
            Feedback::Written(Err(e)) => reply_err(e),
            Feedback::Written(Ok(record)) => match pending {
                Pending::Deleted => (Flow::Finished, Action::Reply(Ok(None))),
                Pending::Created => match record {
                    Some(t) => (Flow::Finished, Action::Reply(Ok(Some(t)))),
                    None => reply_err(AppError::Internal(String::from_str("CREATE returned no record"))),
                },
                Pending::Changed { id } => match record {
                    Some(t) => (Flow::Finished, Action::Reply(Ok(Some(t)))),
                    None => reply_err(task_not_found(id.as_str())),
                },
            },
            _ => (Flow::Finished, Action::Reply(Ok(None))),
        },
        Flow::Finished => (Flow::Finished, Action::Reply(Ok(None))),
    }
}

} // verus!
