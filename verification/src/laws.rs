//! Laws that tie several functions of the library together.
use vstd::prelude::*;
use crate::client::bare_id;
use crate::ids::{hex_digit, hex_fixed, simple_text};
use crate::models::api::Pagination;
use crate::models::task::UpdateTaskRequest;
use crate::models::task::CreateTaskRequest;
use crate::repository::{
    completion_after, lemma_update_steps, list_conditions, new_task_spec, or_empty, push_if,
    task_key, update_assignments, update_assignments_steps, update_query_text, NewTask,
};
use crate::models::task::{priority_text, progress_text, risk_text};
use crate::text::decimal;
use crate::tenant::db_name_of;
use crate::command::{
    after_read_spec, invalid, start_spec, Action, Command, Flow, ReadFor, COMPLETION_ERROR, MAX_LEVEL,
};
use crate::client::form_priority_spec;
use crate::events::TaskEvent;
use crate::models::task::{allowed, parse_priority, Priority, Task};
use crate::repository::Write;
use crate::ui::{page_step, PageAction, PageEvent, TaskListState};
use crate::models::task::ProgressStatus;

verus! {

/// `16` to the power `w`.
pub open spec fn pow16(w: nat) -> nat
    decreases w,
{
    if w == 0 { 1 } else { 16 * pow16((w - 1) as nat) }
}

proof fn lemma_hex_digit_injective(a: nat, b: nat)
    requires
        a < 16,
        b < 16,
        hex_digit(a) == hex_digit(b),
    ensures
        a == b,
{
}

proof fn lemma_hex_fixed_len(v: nat, w: nat)
    ensures
        hex_fixed(v, w).len() == w,
    decreases w,
{
    if w > 0 {
        lemma_hex_fixed_len(v / 16, (w - 1) as nat);
    }
}

proof fn lemma_hex_fixed_injective(v: nat, u: nat, w: nat)
    requires
        v < pow16(w),
        u < pow16(w),
        hex_fixed(v, w) == hex_fixed(u, w),
    ensures
        v == u,
    decreases w,
{
    if w > 0 {
        let w1 = (w - 1) as nat;
        let hv = hex_fixed(v / 16, w1);
        let hu = hex_fixed(u / 16, w1);
        lemma_hex_fixed_len(v / 16, w1);
        lemma_hex_fixed_len(u / 16, w1);
        assert(hex_fixed(v, w) == hv + seq![hex_digit(v % 16)]);
        assert(hex_fixed(v, w)[w1 as int] == hex_digit(v % 16));
        assert(hex_fixed(u, w)[w1 as int] == hex_digit(u % 16));
        lemma_hex_digit_injective(v % 16, u % 16);
        assert(hv =~= hex_fixed(v, w).take(w1 as int));
        assert(hu =~= hex_fixed(u, w).take(w1 as int));
        let p = pow16(w1);
        assert(v / 16 < p) by (nonlinear_arith)
            requires
                v < 16 * p,
        {}
        assert(u / 16 < p) by (nonlinear_arith)
            requires
                u < 16 * p,
        {}
        lemma_hex_fixed_injective(v / 16, u / 16, w1);
    }
}

/// Different tenants are kept in different databases: the database name
/// determines the tenant.
pub proof fn lemma_tenant_databases_distinct(a: u128, b: u128)
    ensures
        db_name_of(a) == db_name_of(b) ==> a == b,
{
    reveal_with_fuel(pow16, 33);
    assert(pow16(32) == 0x1_0000_0000_0000_0000_0000_0000_0000_0000nat);
    if db_name_of(a) == db_name_of(b) {
        let pre = "tenant_"@;
        assert(simple_text(a) =~= db_name_of(a).skip(pre.len() as int));
        assert(simple_text(b) =~= db_name_of(b).skip(pre.len() as int));
        lemma_hex_fixed_injective(a as nat, b as nat, 32);
    }
}

/// A task is addressed the same way by its record id `task:<id>` and by its
/// bare id: the client strips exactly the table prefix, and leaves an id
/// without it as it is.
pub proof fn lemma_record_id_and_bare_id_agree(id: Seq<char>)
    ensures
        bare_id(task_key(id)) == id,
        !(id.len() >= 5 && id.take(5) == "task:"@) ==> bare_id(id) == id,
{
    reveal_strlit("task:");
    assert(("task:"@ + id).take(5) =~= "task:"@);
    assert(("task:"@ + id).skip(5) =~= id);
}

/// The task list never shows deleted tasks: its first condition keeps live
/// tasks only, whatever the filters.
pub proof fn lemma_list_shows_live_tasks_only(
    status: Option<ProgressStatus>,
    assigned_to: Option<Seq<char>>,
    party_id: Option<Seq<char>>,
)
    ensures
        list_conditions(status, assigned_to, party_id).len() >= 1,
        list_conditions(status, assigned_to, party_id)[0] == "deleted_at = NONE"@,
{
}

/// Every partial update stamps the update time first, and one that changes
/// nothing writes the update time only.
pub proof fn lemma_update_always_stamps_time(
    req: UpdateTaskRequest,
    norm_json: Seq<char>,
    tags_json: Seq<char>,
)
    ensures
        update_assignments(req, norm_json, tags_json)[0] == "updated_at = time::now()"@,
        req.spec_is_empty() ==> update_query_text(req, norm_json, tags_json)
            == "UPDATE type::record('task', $id) SET "@ + "updated_at = time::now()"@
            + " RETURN AFTER"@,
{
    let t = "updated_at = time::now()"@;
    lemma_update_steps(req, norm_json, tags_json);
    let a0 = seq![t];
    let a1 = push_if(a0, req.subject, "subject = '"@ + or_empty(req.subject) + "'"@);
    let a2 = push_if(a1, req.description, "description = '"@ + or_empty(req.description) + "'"@);
    let a3 = push_if(a2, req.priority, "priority = '"@ + match req.priority {
        Some(p) => priority_text(p),
        None => Seq::empty(),
    } + "'"@);
    let a4 = push_if(a3, req.progress_status, "progress_status = '"@ + match req.progress_status {
        Some(p) => progress_text(p),
        None => Seq::empty(),
    } + "'"@);
    let a5 = push_if(a4, req.risk_status, "risk_status = '"@ + match req.risk_status {
        Some(p) => risk_text(p),
        None => Seq::empty(),
    } + "'"@);
    let a6 = push_if(a5, req.completion, "completion = "@ + match req.completion {
        Some(c) => decimal(c as nat),
        None => Seq::empty(),
    });
    let a7 = push_if(a6, req.dates, "dates = $dates"@);
    let a8 = push_if(a7, req.assigned_to, "assigned_to = '"@ + or_empty(req.assigned_to) + "'"@);
    let a9 = push_if(a8, req.norm_refs, "norm_refs = "@ + norm_json);
    let a10 = push_if(a9, req.tags, "tags = "@ + tags_json);
    let a11 = push_if(a10, req.external_ref, "external_ref = $external_ref"@);
    assert(a11 == update_assignments_steps(req, norm_json, tags_json));
    assert(a1.len() >= 1 && a1[0] == t);
    assert(a2.len() >= 1 && a2[0] == t);
    assert(a3.len() >= 1 && a3[0] == t);
    assert(a4.len() >= 1 && a4[0] == t);
    assert(a5.len() >= 1 && a5[0] == t);
    assert(a6.len() >= 1 && a6[0] == t);
    assert(a7.len() >= 1 && a7[0] == t);
    assert(a8.len() >= 1 && a8[0] == t);
    assert(a9.len() >= 1 && a9[0] == t);
    assert(a10.len() >= 1 && a10[0] == t);
    assert(a11.len() >= 1 && a11[0] == t);
    if req.spec_is_empty() {
        assert(a11 =~= seq![t]);
    }
}

/// Consecutive pages are adjacent: the next page starts where the current
/// page ends, so no row is listed twice or skipped.
pub proof fn lemma_pages_adjacent(page: u32, page_size: u32)
    requires
        1 <= page < u32::MAX,
    ensures
        (Pagination { page: (page + 1) as u32, page_size }).spec_window().1
            == (Pagination { page, page_size }).spec_window().1 + page_size,
{
    let k = (page - 1) as int;
    assert((k + 1) * page_size == k * page_size + page_size) by (nonlinear_arith);
}

/// The documented ranges of a task: completion from 0 to 100, nesting
/// level from 0 to 2.
pub open spec fn in_documented_range(completion: u8, level: u8) -> bool {
    completion <= 100 && level <= 2
}

/// A new task starts within the documented ranges when it is created at a
/// level the commands admit (see `command::step`), and a status transition
/// keeps a completion within 0 to 100 there.
pub proof fn lemma_task_ranges_kept(
    req: CreateTaskRequest,
    actor_id: Seq<char>,
    level: u8,
    t: NewTask,
    to: ProgressStatus,
    completion: u8,
)
    requires
        new_task_spec(req, actor_id, level, t),
        level <= MAX_LEVEL,
        completion <= 100,
    ensures
        in_documented_range(t.completion, t.level),
        completion_after(to, completion) <= 100,
{
}

/// A transition keeps the task's completion, except that completing or
/// verifying a task sets it to 100.
pub proof fn lemma_transition_completion(to: ProgressStatus, current: u8)
    ensures
        (to == ProgressStatus::Completed || to == ProgressStatus::Verified) ==> completion_after(to, current) == 100,
        !(to == ProgressStatus::Completed || to == ProgressStatus::Verified) ==> completion_after(to, current)
            == current,
{
}

/// After reading the task, a transition either writes and announces the
/// requested status, with the current completion kept unless the task is
/// completed or verified (then 100), or, for a move the workflow does not
/// allow, replies without writing.
pub proof fn lemma_transition_writes_completion(
    id: String,
    tenant_id: u128,
    to: ProgressStatus,
    actor_id: String,
    cur: Task,
    next: Flow,
    a: Action,
)
    requires
        after_read_spec(id, tenant_id, (ReadFor::Transition { to, actor_id }), cur, next, a),
    ensures
        allowed(cur.progress_status, to) ==> (a matches Action::Write(tx) && (tx.write matches Write::SetStatus {
            status,
            completion,
            ..
        } && status == to && completion == (if to == ProgressStatus::Completed || to
            == ProgressStatus::Verified { 100u8 } else { cur.completion }) && (
        tx.entry.envelope.payload matches TaskEvent::StatusChanged(e) && e.completion == completion
            && e.from_status == cur.progress_status && e.to_status == to))),
        !allowed(cur.progress_status, to) ==> a is Reply,
{
}

/// A partial update is refused for its completion exactly when it sets one
/// above 100; otherwise it goes on to read the task or to write.
pub proof fn lemma_update_completion_refusal(
    id: String,
    req: UpdateTaskRequest,
    actor_id: String,
    tenant_id: u128,
    flow: Flow,
    a: Action,
)
    requires
        start_spec((Command::Update { id, req, actor_id }), tenant_id, flow, a),
    ensures
        (req.completion matches Some(c) && c > 100) ==> (a matches Action::Reply(Err(e)) && invalid(
            e,
            COMPLETION_ERROR@,
        )),
        !(req.completion matches Some(c) && c > 100) ==> !(a is Reply),
{
}

/// After reading the task, a partial update with a completion of at most
/// 100 is written whenever it names no status, the current one, or one the
/// workflow allows next.
pub proof fn lemma_update_written_when_in_range(
    id: String,
    tenant_id: u128,
    req: UpdateTaskRequest,
    actor_id: String,
    cur: Task,
    next: Flow,
    a: Action,
)
    requires
        after_read_spec(id, tenant_id, (ReadFor::Update { req, actor_id }), cur, next, a),
        !(req.completion matches Some(c) && c > 100),
        req.progress_status matches Some(n) ==> (n == cur.progress_status || allowed(cur.progress_status, n)),
    ensures
        a matches Action::Write(tx) && tx.write is Update,
{
}

/// The task form's priority is the priority whose name was chosen; any
/// other choice counts as low.
pub proof fn lemma_form_priority_is_named(v: Seq<char>)
    ensures
        parse_priority(v) matches Some(p) ==> form_priority_spec(v) == p,
        parse_priority(v) is None ==> form_priority_spec(v) == Priority::Low,
{
    reveal_strlit("high");
    reveal_strlit("normal");
    reveal_strlit("low");
    assert("low"@.len() != "high"@.len());
    assert("low"@.len() != "normal"@.len());
    assert("normal"@.len() != "high"@.len());
}

/// Every successful write of the task page is followed by a fetch of the
/// current page: loading, no error shown, the rest of the page kept.
pub proof fn lemma_successful_write_refetches(before: TaskListState, ev: PageEvent, s: TaskListState, a: PageAction)
    requires
        page_step(before, ev, s, a),
        (ev matches PageEvent::Created(Ok(_))) || (ev matches PageEvent::Updated(Ok(_))) || (
        ev matches PageEvent::Deleted(Ok(_))),
    ensures
        s.loading,
        s.error is None,
        a == PageAction::Fetch(before.page),
        s.page == before.page,
        s.tasks == before.tasks,
        s.form_open == before.form_open,
        s.edit_form_open == before.edit_form_open,
{
}

/// A failed write of the task page shows its error and fetches nothing.
pub proof fn lemma_failed_write_is_shown(before: TaskListState, ev: PageEvent, s: TaskListState, a: PageAction)
    requires
        page_step(before, ev, s, a),
        (ev matches PageEvent::Created(Err(_))) || (ev matches PageEvent::Updated(Err(_))) || (
        ev matches PageEvent::Deleted(Err(_))),
    ensures
        s.error is Some,
        a == PageAction::Nothing,
        s.page == before.page,
        s.tasks == before.tasks,
{
}

} // verus!
