//! The state of the browser client's task page and task form, and how
//! they move on user input and on the answers of the API.
use vstd::prelude::*;
use vstd::string::*;
use crate::client::{form_request, form_status, form_status_spec, form_priority_spec, non_empty};
use crate::models::api::PagedResponse;
use crate::models::task::{CreateTaskRequest, ProgressStatus, Task, TaskSummary};
use crate::text::blank;

verus! {

// ── Task form ──────────────────────────────────────────────────

/// The fields of the task form, as typed.
#[derive(Debug, Clone)]
pub struct TaskForm {
    pub subject: String,
    pub company: String,
    pub assigned_to: String,
    /// Selected priority value: `high`, `normal` or `low`.
    pub priority: String,
    /// Selected status value.
    pub status: String,
    pub start_date: String,
    pub due_date: String,
    pub details: String,
    /// The message shown above the fields, if any.
    pub error: Option<String>,
}

/// The text of an optional initial value, empty when absent.
pub open spec fn text_or(o: Option<String>, default: Seq<char>) -> Seq<char> {
    match o {
        Some(s) => s@,
        None => default,
    }
}

/// The form after a reset: empty fields, low priority, status open.
pub open spec fn is_reset(f: TaskForm) -> bool {
    &&& f.subject@ == Seq::<char>::empty()
    &&& f.company@ == Seq::<char>::empty()
    &&& f.assigned_to@ == Seq::<char>::empty()
    &&& f.priority@ == "low"@
    &&& f.status@ == "open"@
    &&& f.start_date@ == Seq::<char>::empty()
    &&& f.due_date@ == Seq::<char>::empty()
    &&& f.details@ == Seq::<char>::empty()
    &&& f.error is None
}

fn text_or_default(o: Option<String>, default: &str) -> (r: String)
    ensures
        r@ == text_or(o, default@),
{
    match o {
        Some(s) => s,
        None => String::from_str(default),
    }
}

impl TaskForm {
    /// A form opened with the given initial values: priority normal and
    /// status open unless given, everything else empty unless given.
    pub fn new(
        initial_subject: Option<String>,
        initial_company: Option<String>,
        initial_assigned_to: Option<String>,
        initial_priority: Option<String>,
        initial_description: Option<String>,
        initial_status: Option<String>,
    ) -> (r: TaskForm)
        ensures
            r.subject@ == text_or(initial_subject, Seq::empty()),
            r.company@ == text_or(initial_company, Seq::empty()),
            r.assigned_to@ == text_or(initial_assigned_to, Seq::empty()),
            r.priority@ == text_or(initial_priority, "normal"@),
            r.status@ == text_or(initial_status, "open"@),
            r.start_date@ == Seq::<char>::empty(),
            r.due_date@ == Seq::<char>::empty(),
            r.details@ == text_or(initial_description, Seq::empty()),
            r.error is None,
    {
        proof {
            reveal_strlit("");
        }
        TaskForm {
            subject: text_or_default(initial_subject, ""),
            company: text_or_default(initial_company, ""),
            assigned_to: text_or_default(initial_assigned_to, ""),
            priority: text_or_default(initial_priority, "normal"),
            status: text_or_default(initial_status, "open"),
            start_date: String::new(),
            due_date: String::new(),
            details: text_or_default(initial_description, ""),
            error: None,
        }
    }

    /// The form opened to edit `task`.
    pub fn for_task(task: &Task) -> (r: TaskForm)
        ensures
            r.subject@ == task.subject@,
            r.company@ == text_or(task.party_id, Seq::empty()),
            r.assigned_to@ == text_or(task.assigned_to, Seq::empty()),
            r.priority@ == crate::models::task::priority_text(task.priority),
            r.status@ == "open"@,
            r.details@ == task.description@,
            r.error is None,
    {
        let company = match &task.party_id {
            Some(p) => Some(p.clone()),
            None => None,
        };
        let assigned = match &task.assigned_to {
            Some(a) => Some(a.clone()),
            None => None,
        };
        TaskForm::new(
            Some(task.subject.clone()),
            company,
            assigned,
            Some(task.priority.to_string()),
            Some(task.description.clone()),
            None,
        )
    }

    /// Empties the form: no text, low priority, status open, no message.
    pub fn reset(&mut self)
        ensures
            is_reset(*final(self)),
    {
        self.subject = String::new();
        self.company = String::new();
        self.assigned_to = String::new();
        self.priority = String::from_str("low");
        self.status = String::from_str("open");
        self.start_date = String::new();
        self.due_date = String::new();
        self.details = String::new();
        self.error = None;
    }

    /// Cancels the form: it is emptied as by `reset`, and the dialog closes.
    pub fn cancel(&mut self)
        ensures
            is_reset(*final(self)),
    {
        self.reset();
    }

    /// The status the form's selection stands for, if the create request
    /// is to name one.
    pub fn chosen_status(&self) -> (r: Option<ProgressStatus>)
        ensures
            r == form_status_spec(self.status@),
    {
        form_status(self.status.as_str())
    }

    /// Saves the form. A blank subject keeps the form as it is, with the
    /// message `Subject is required.`; otherwise the form gives its create
    /// request and is reset, and the dialog closes.
    pub fn save(&mut self) -> (r: Option<CreateTaskRequest>)
        ensures
            blank(old(self).subject@) ==> {
                &&& r is None
                &&& final(self).subject == old(self).subject
                &&& final(self).company == old(self).company
                &&& final(self).assigned_to == old(self).assigned_to
                &&& final(self).priority == old(self).priority
                &&& final(self).status == old(self).status
                &&& final(self).start_date == old(self).start_date
                &&& final(self).due_date == old(self).due_date
                &&& final(self).details == old(self).details
                &&& (final(self).error matches Some(m) && m@ == "Subject is required."@)
            },
            !blank(old(self).subject@) ==> (r matches Some(req) && {
                &&& req.subject == old(self).subject
                &&& req.description == non_empty(old(self).details)
                &&& req.priority == Some(form_priority_spec(old(self).priority@))
                &&& req.assigned_to == non_empty(old(self).assigned_to)
                &&& req.party_id == non_empty(old(self).company)
                &&& req.dates is None
                &&& req.parent_task_id is None
                &&& req.norm_refs is None
                &&& req.tags is None
                &&& req.external_ref is None
                &&& is_reset(*final(self))
            }),
    {
        let subject = self.subject.clone();
        let details = self.details.clone();
        let assigned_to = self.assigned_to.clone();
        let company = self.company.clone();
        match form_request(subject, details, self.priority.as_str(), assigned_to, company) {
            Err(m) => {
                self.error = Some(m);
                None
            },
            Ok(req) => {
                self.reset();
                Some(req)
            },
        }
    }
}

// ── Task page ──────────────────────────────────────────────────

/// What the task page shows and holds.
#[derive(Debug, Clone)]
pub struct TaskListState {
    pub tasks: Option<PagedResponse<TaskSummary>>,
    pub loading: bool,
    pub error: Option<String>,
    pub form_open: bool,
    pub page: u32,
    pub edit_task_id: Option<String>,
    pub edit_task: Option<Task>,
    pub edit_form_open: bool,
}

/// Input to the task page: a user's action or an answer of the API.
#[derive(Debug)]
pub enum PageEvent {
    Reload,
    AddClicked,
    /// The new-task form was saved with this request; its dialog closes.
    FormSubmitted(CreateTaskRequest),
    /// The new-task form was cancelled; its dialog closes.
    FormCancelled,
    EditClicked(String),
    /// The edit form was saved with this request; its dialog closes.
    EditSubmitted(CreateTaskRequest),
    /// The edit form was cancelled; its dialog closes.
    EditCancelled,
    DeleteClicked(String),
    Fetched(Result<PagedResponse<TaskSummary>, String>),
    Created(Result<(), String>),
    TaskLoaded(Result<Task, String>),
    Updated(Result<(), String>),
    Deleted(Result<(), String>),
}

/// The API call the page makes next, if any.
#[derive(Debug)]
pub enum PageAction {
    Nothing,
    Fetch(u32),
    Create(CreateTaskRequest),
    LoadTask(String),
    Update { id: String, req: CreateTaskRequest },
    Delete(String),
}

/// `s` is `before` with a fetch of the current page under way: loading,
/// no error shown, everything else kept.
pub open spec fn fetching(before: TaskListState, s: TaskListState) -> bool {
    s == TaskListState { loading: true, error: None, ..before }
}

/// `s` is `before` showing the error `e`, everything else kept.
pub open spec fn showing_error(before: TaskListState, s: TaskListState, e: String) -> bool {
    s == TaskListState { error: Some(e), ..before }
}

/// How the page moves on an event.
pub open spec fn page_step(before: TaskListState, ev: PageEvent, s: TaskListState, a: PageAction) -> bool {
    match ev {
        PageEvent::Reload => fetching(before, s) && a == PageAction::Fetch(before.page),
        PageEvent::AddClicked => s == (TaskListState { form_open: true, ..before }) && a == PageAction::Nothing,
        PageEvent::FormSubmitted(req) => {
            &&& s == (TaskListState { form_open: false, ..before })
            &&& a == PageAction::Create(req)
        },
        PageEvent::FormCancelled => s == (TaskListState { form_open: false, ..before }) && a == PageAction::Nothing,
        PageEvent::EditCancelled => {
            &&& s == (TaskListState { edit_form_open: false, ..before })
            &&& a == PageAction::Nothing
        },
        PageEvent::EditClicked(id) => s == before && a == PageAction::LoadTask(id),
        PageEvent::EditSubmitted(req) => {
            &&& s == (TaskListState { edit_task_id: None, edit_task: None, edit_form_open: false, ..before })
            &&& a == match before.edit_task_id {
                Some(id) => PageAction::Update { id, req },
                None => PageAction::Nothing,
            }
        },
        PageEvent::DeleteClicked(id) => s == before && a == PageAction::Delete(id),
        PageEvent::Fetched(Ok(data)) => {
            &&& s == (TaskListState { tasks: Some(data), loading: false, ..before })
            &&& a == PageAction::Nothing
        },
        PageEvent::Fetched(Err(e)) => {
            &&& s == (TaskListState { error: Some(e), loading: false, ..before })
            &&& a == PageAction::Nothing
        },
        PageEvent::TaskLoaded(Ok(task)) => {
            &&& s == (TaskListState {
                edit_task_id: Some(task.id),
                edit_task: Some(task),
                edit_form_open: true,
                ..before
            })
            &&& a == PageAction::Nothing
        },
        PageEvent::TaskLoaded(Err(e)) => showing_error(before, s, e) && a == PageAction::Nothing,
        PageEvent::Created(Ok(_)) | PageEvent::Updated(Ok(_)) | PageEvent::Deleted(Ok(_)) =>
            fetching(before, s) && a == PageAction::Fetch(before.page),
        PageEvent::Created(Err(e)) | PageEvent::Updated(Err(e)) | PageEvent::Deleted(Err(e)) =>
            showing_error(before, s, e) && a == PageAction::Nothing,
    }
}

impl TaskListState {
    /// The page as it opens: page 1, nothing shown yet, its first fetch under way.
    pub fn open() -> (r: (TaskListState, PageAction))
        ensures
            r.0.tasks is None,
            r.0.loading,
            r.0.error is None,
            !r.0.form_open,
            r.0.page == 1,
            r.0.edit_task_id is None,
            r.0.edit_task is None,
            !r.0.edit_form_open,
            r.1 == PageAction::Fetch(1),
    {
        (
            TaskListState {
                tasks: None,
                loading: true,
                error: None,
                form_open: false,
                page: 1,
                edit_task_id: None,
                edit_task: None,
                edit_form_open: false,
            },
            PageAction::Fetch(1),
        )
    }

    /// Moves the page on an event. Every successful write is followed by a
    /// fetch of the current page; every failure is shown.
    pub fn on(self, ev: PageEvent) -> (r: (TaskListState, PageAction))
        ensures
            page_step(self, ev, r.0, r.1),
    {
        let page = self.page;
        match ev {
            PageEvent::Reload => (TaskListState { loading: true, error: None, ..self }, PageAction::Fetch(page)),
            PageEvent::AddClicked => (TaskListState { form_open: true, ..self }, PageAction::Nothing),
            PageEvent::FormSubmitted(req) => (TaskListState { form_open: false, ..self }, PageAction::Create(req)),
            PageEvent::FormCancelled => (TaskListState { form_open: false, ..self }, PageAction::Nothing),
            PageEvent::EditCancelled => (TaskListState { edit_form_open: false, ..self }, PageAction::Nothing),
            PageEvent::EditClicked(id) => (self, PageAction::LoadTask(id)),
            PageEvent::EditSubmitted(req) => {
                let action = match self.edit_task_id {
                    Some(id) => PageAction::Update { id, req },
                    None => PageAction::Nothing,
                };
                (
                    TaskListState { edit_task_id: None, edit_task: None, edit_form_open: false, ..self },
                    action,
                )
            },
            PageEvent::DeleteClicked(id) => (self, PageAction::Delete(id)),
            PageEvent::Fetched(Ok(data)) => (
                TaskListState { tasks: Some(data), loading: false, ..self },
                PageAction::Nothing,
            ),
            PageEvent::Fetched(Err(e)) => (
                TaskListState { error: Some(e), loading: false, ..self },
                PageAction::Nothing,
            ),
            PageEvent::TaskLoaded(Ok(task)) => {
                let id = task.id.clone();
                (
                    TaskListState {
                        edit_task_id: Some(id),
                        edit_task: Some(task),
                        edit_form_open: true,
                        ..self
                    },
                    PageAction::Nothing,
                )
            },
            PageEvent::TaskLoaded(Err(e)) => (TaskListState { error: Some(e), ..self }, PageAction::Nothing),
            PageEvent::Created(Ok(_)) | PageEvent::Updated(Ok(_)) | PageEvent::Deleted(Ok(_)) => (
                TaskListState { loading: true, error: None, ..self },
                PageAction::Fetch(page),
            ),
            PageEvent::Created(Err(e)) | PageEvent::Updated(Err(e)) | PageEvent::Deleted(Err(e)) => (
                TaskListState { error: Some(e), ..self },
                PageAction::Nothing,
            ),
        }
    }
}

// ── Navigation ─────────────────────────────────────────────────

/// The pages of the client.
#[derive(Debug, Clone, Copy, PartialEq, Eq, Structural)]
pub enum Route {
    TaskList,
    NotFound,
}

/// The page a path shows: the task list at `/` and `/tasks`, otherwise
/// the not-found page.
pub fn route(path: &str) -> (r: Route)
    ensures
        r == (if path@ == "/"@ || path@ == "/tasks"@ { Route::TaskList } else { Route::NotFound }),
{
    if crate::text::str_eq(path, "/") || crate::text::str_eq(path, "/tasks") {
        Route::TaskList
    } else {
        Route::NotFound
    }
}

/// The entries of the side navigation: label, target and whether it is the
/// current section, top to bottom.
pub fn nav_entries() -> (r: [(&'static str, &'static str, bool); 4])
    ensures
        r[0].0@ == "Tasks"@ && r[0].1@ == "/tasks"@ && r[0].2,
        r[1].0@ == "Contacts"@ && r[1].1@ == "/contacts"@ && !r[1].2,
        r[2].0@ == "Reports"@ && r[2].1@ == "/reports"@ && !r[2].2,
        r[3].0@ == "Settings"@ && r[3].1@ == "/settings"@ && !r[3].2,
{
    [
        ("Tasks", "/tasks", true),
        ("Contacts", "/contacts", false),
        ("Reports", "/reports", false),
        ("Settings", "/settings", false),
    ]
}

/// The style class of a navigation entry.
pub fn nav_class(active: bool) -> (r: &'static str)
    ensures
        r@ == (if active { "nav-icon-btn active"@ } else { "nav-icon-btn"@ }),
{
    if active { "nav-icon-btn active" } else { "nav-icon-btn" }
}

} // verus!
