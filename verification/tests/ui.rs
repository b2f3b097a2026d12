use apqp::models::api::PagedResponse;
use apqp::models::task::{Priority, ProgressStatus, RiskStatus, Task, TaskDates};
use apqp::time::Timestamp;
use apqp::ui::{nav_class, nav_entries, route, PageAction, PageEvent, Route, TaskForm, TaskListState};

fn task() -> Task {
    Task {
        id: "task:t1".into(),
        subject: "Audit".into(),
        description: "details".into(),
        priority: Priority::High,
        progress_status: ProgressStatus::Open,
        risk_status: RiskStatus::Pending,
        completion: 0,
        dates: TaskDates::default(),
        assigned_to: None,
        created_by: "u".into(),
        party_id: Some("ACME".into()),
        parent_task_id: None,
        level: 0,
        norm_refs: vec![],
        tags: vec![],
        external_ref: None,
        created_at: Timestamp { secs: 0, nanos: 0 },
        updated_at: Timestamp { secs: 0, nanos: 0 },
        deleted_at: None,
    }
}

#[test]
fn new_form_defaults() {
    let f = TaskForm::new(None, None, None, None, None, None);
    assert_eq!((f.subject.as_str(), f.priority.as_str(), f.status.as_str()), ("", "normal", "open"));
    assert!(f.error.is_none());
}

#[test]
fn edit_form_shows_task() {
    let f = TaskForm::for_task(&task());
    assert_eq!(f.subject, "Audit");
    assert_eq!(f.company, "ACME");
    assert_eq!(f.assigned_to, "");
    assert_eq!(f.priority, "high");
    assert_eq!(f.details, "details");
}

#[test]
fn saving_a_blank_form_shows_the_message() {
    let mut f = TaskForm::new(Some("  ".into()), None, None, None, None, None);
    assert!(f.save().is_none());
    assert_eq!(f.error.as_deref(), Some("Subject is required."));
    assert_eq!(f.subject, "  ");
}

#[test]
fn saving_gives_the_request_and_resets() {
    let mut f = TaskForm::new(Some("Audit".into()), Some("ACME".into()), None, Some("high".into()), None, Some("completed".into()));
    assert_eq!(f.chosen_status(), Some(ProgressStatus::Completed));
    let req = f.save().unwrap();
    assert_eq!(req.subject, "Audit");
    assert_eq!(req.party_id.as_deref(), Some("ACME"));
    assert_eq!(req.priority, Some(Priority::High));
    assert!(req.description.is_none());
    assert_eq!((f.subject.as_str(), f.priority.as_str(), f.status.as_str()), ("", "low", "open"));
}

#[test]
fn page_opens_with_a_fetch() {
    let (s, a) = TaskListState::open();
    assert!(matches!(a, PageAction::Fetch(1)));
    assert!(s.loading && s.tasks.is_none() && s.error.is_none());
}

#[test]
fn page_shows_fetched_tasks() {
    let (s, _) = TaskListState::open();
    let data = PagedResponse { items: vec![], total: 0, page: 1, page_size: 25 };
    let (s, a) = s.on(PageEvent::Fetched(Ok(data)));
    assert!(matches!(a, PageAction::Nothing));
    assert!(!s.loading && s.tasks.is_some());
    let (s, _) = s.on(PageEvent::Fetched(Err("HTTP 500".into())));
    assert_eq!(s.error.as_deref(), Some("HTTP 500"));
}

#[test]
fn writes_refetch_the_current_page() {
    let (s, _) = TaskListState::open();
    let (s, a) = s.on(PageEvent::DeleteClicked("task:t1".into()));
    assert!(matches!(a, PageAction::Delete(ref id) if id == "task:t1"));
    let (s, a) = s.on(PageEvent::Deleted(Ok(())));
    assert!(matches!(a, PageAction::Fetch(1)));
    assert!(s.loading);
    let (s, a) = s.on(PageEvent::Created(Err("conflict".into())));
    assert!(matches!(a, PageAction::Nothing));
    assert_eq!(s.error.as_deref(), Some("conflict"));
}

#[test]
fn editing_loads_then_updates() {
    let (s, _) = TaskListState::open();
    let (s, a) = s.on(PageEvent::EditClicked("task:t1".into()));
    assert!(matches!(a, PageAction::LoadTask(_)));
    let (s, _) = s.on(PageEvent::TaskLoaded(Ok(task())));
    assert!(s.edit_form_open);
    assert_eq!(s.edit_task_id.as_deref(), Some("task:t1"));
    let mut f = TaskForm::for_task(s.edit_task.as_ref().unwrap());
    let req = f.save().unwrap();
    let (s, a) = s.on(PageEvent::EditSubmitted(req));
    match a {
        PageAction::Update { id, req } => {
            assert_eq!(id, "task:t1");
            assert_eq!(req.subject, "Audit");
        }
        other => panic!("{:?}", other),
    }
    assert!(!s.edit_form_open && s.edit_task.is_none() && s.edit_task_id.is_none());
    // the form was reset by saving: a second save is refused
    assert!(f.save().is_none());
    let again = TaskForm::new(Some("Again".into()), None, None, None, None, None).save().unwrap();
    let (_, a) = s.on(PageEvent::EditSubmitted(again));
    assert!(matches!(a, PageAction::Nothing));
}

#[test]
fn navigation() {
    assert_eq!(route("/"), Route::TaskList);
    assert_eq!(route("/tasks"), Route::TaskList);
    assert_eq!(route("/contacts"), Route::NotFound);
    assert_eq!(nav_entries()[0], ("Tasks", "/tasks", true));
    assert_eq!(nav_entries()[3], ("Settings", "/settings", false));
    assert_eq!(nav_class(true), "nav-icon-btn active");
    assert_eq!(nav_class(false), "nav-icon-btn");
}

#[test]
fn new_task_dialog_closes_on_save_and_on_cancel() {
    let (s, _) = TaskListState::open();
    let (s, _) = s.on(PageEvent::AddClicked);
    assert!(s.form_open);
    let mut f = TaskForm::new(Some("Fix gasket".into()), None, None, Some("high".into()), None, None);
    let req = f.save().unwrap();
    assert_eq!(req.subject, "Fix gasket");
    assert_eq!(req.priority, Some(Priority::High));
    assert!(req.description.is_none() && req.assigned_to.is_none() && req.party_id.is_none());
    assert!(req.dates.is_none() && req.parent_task_id.is_none() && req.norm_refs.is_none());
    assert!(req.tags.is_none() && req.external_ref.is_none());
    let (s, a) = s.on(PageEvent::FormSubmitted(req));
    assert!(matches!(a, PageAction::Create(ref r) if r.subject == "Fix gasket"));
    assert!(!s.form_open);
    let (s, _) = s.on(PageEvent::AddClicked);
    let mut f = TaskForm::new(Some("Draft".into()), Some("ACME".into()), None, None, None, None);
    f.cancel();
    assert_eq!((f.subject.as_str(), f.company.as_str(), f.priority.as_str()), ("", "", "low"));
    let (s, a) = s.on(PageEvent::FormCancelled);
    assert!(matches!(a, PageAction::Nothing));
    assert!(!s.form_open);
}

#[test]
fn edit_dialog_closes_on_cancel() {
    let (s, _) = TaskListState::open();
    let (s, _) = s.on(PageEvent::TaskLoaded(Ok(task())));
    assert!(s.edit_form_open);
    let (s, a) = s.on(PageEvent::EditCancelled);
    assert!(matches!(a, PageAction::Nothing));
    assert!(!s.edit_form_open);
}
