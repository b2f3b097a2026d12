use apqp::client::{
    assignee_text, clean_id, completion_text, default_headers, form_priority, form_request,
    form_status, http_error, list_tasks_url, page_line, priority_badge, progress_badge,
    reply_error, task_url, tasks_url,
};
use apqp::client::{due_text, task_table, TableBody, EMPTY_TABLE};
use apqp::models::api::PagedResponse;
use apqp::models::task::{RiskStatus, TaskSummary};
use apqp::models::task::{Priority, ProgressStatus};
use apqp::time::Timestamp;

#[test]
fn ids_lose_their_table_prefix() {
    assert_eq!(clean_id("task:abc"), "abc");
    assert_eq!(clean_id("abc"), "abc");
    assert_eq!(clean_id("task:"), "");
    assert_eq!(clean_id("task"), "task");
    assert_eq!(clean_id("task:task:x"), "task:x");
}

#[test]
fn paths() {
    assert_eq!(tasks_url(), "/api/tasks");
    assert_eq!(list_tasks_url(&None, 1), "/api/tasks?page=1&page_size=25");
    assert_eq!(list_tasks_url(&Some("open".into()), 12), "/api/tasks?page=12&page_size=25&progress_status=open");
    assert_eq!(task_url("task:t1"), "/api/tasks/t1");
    assert_eq!(task_url("t1"), task_url("task:t1"));
}

#[test]
fn headers() {
    let h = default_headers();
    assert_eq!(h, [("X-Tenant-ID", "00000000-0000-0000-0000-000000000001"), ("X-Actor-ID", "dev-user")]);
}

#[test]
fn error_texts() {
    assert_eq!(http_error(404), "HTTP 404");
    assert_eq!(http_error(500), "HTTP 500");
    assert_eq!(reply_error(Some("validation error: x".into())), "validation error: x");
    assert_eq!(reply_error(None), "Unknown error");
}

#[test]
fn badges() {
    assert_eq!(progress_badge(ProgressStatus::WaitingForFeedback), ("Waiting", "badge badge-in-progress"));
    assert_eq!(progress_badge(ProgressStatus::Rejected), ("Rejected", "badge badge-high"));
    assert_eq!(progress_badge(ProgressStatus::Cancelled), ("Cancelled", "badge badge-cancelled"));
    assert_eq!(priority_badge(Priority::Normal), ("Normal", "badge badge-normal"));
    assert_eq!(priority_badge(Priority::Low), ("Low", "badge badge-low"));
}

#[test]
fn form_choices() {
    assert_eq!(form_priority("high"), Priority::High);
    assert_eq!(form_priority("normal"), Priority::Normal);
    assert_eq!(form_priority("whatever"), Priority::Low);
    assert_eq!(form_status("in_progress"), Some(ProgressStatus::InProgress));
    assert_eq!(form_status("completed"), Some(ProgressStatus::Completed));
    assert_eq!(form_status("open"), None);
}

#[test]
fn form_submission() {
    let r = form_request("  ".into(), "d".into(), "high", "".into(), "".into());
    assert_eq!(r.unwrap_err(), "Subject is required.");
    let r = form_request("Audit".into(), "".into(), "normal", "Ann".into(), "".into()).unwrap();
    assert_eq!(r.subject, "Audit");
    assert!(r.description.is_none());
    assert_eq!(r.priority, Some(Priority::Normal));
    assert_eq!(r.assigned_to.as_deref(), Some("Ann"));
    assert!(r.party_id.is_none() && r.dates.is_none() && r.tags.is_none());
}

#[test]
fn table_texts() {
    assert_eq!(page_line(3, 1, 25), "3 tasks total · Page 1 of 1");
    assert_eq!(page_line(0, 1, 25), "0 tasks total · Page 1 of 0");
    assert_eq!(page_line(51, 2, 25), "51 tasks total · Page 2 of 3");
    assert_eq!(completion_text(42), "42%");
    assert_eq!(assignee_text(&None), "—");
    assert_eq!(assignee_text(&Some("Bo".into())), "Bo");
}

#[test]
fn due_dates() {
    assert_eq!(due_text(Some(Timestamp { secs: 1431648000, nanos: 0 })), "15.05.2015");
    assert_eq!(due_text(Some(Timestamp { secs: 0, nanos: 0 })), "01.01.1970");
    assert_eq!(due_text(None), "—");
}

fn summary(subject: &str, completion: u8, assigned_to: Option<&str>) -> TaskSummary {
    TaskSummary {
        id: "task:t1".into(),
        subject: subject.into(),
        priority: Priority::High,
        progress_status: ProgressStatus::InProgress,
        risk_status: RiskStatus::Green,
        completion,
        planned_end: None,
        assigned_to: assigned_to.map(|a| a.to_string()),
        party_id: None,
    }
}

#[test]
fn empty_page_shows_the_empty_text() {
    let page = PagedResponse { items: vec![], total: 0, page: 1, page_size: 25 };
    let v = task_table(&Some(page), false, &None);
    assert!(matches!(v.body, Some(TableBody::Empty)));
    assert_eq!(EMPTY_TABLE, "No tasks yet — create your first task.");
    assert!(v.banner.is_none() && !v.spinner);
    let v = task_table(&None, true, &Some("HTTP 500".into()));
    assert!(v.body.is_none() && v.spinner);
    assert_eq!(v.banner.as_deref(), Some("HTTP 500"));
}

#[test]
fn table_shows_one_row_per_task_in_order() {
    let page = PagedResponse {
        items: vec![summary("PPAP", 40, Some("Ann")), summary("FMEA", 0, None)],
        total: 2,
        page: 1,
        page_size: 25,
    };
    match task_table(&Some(page), false, &None).body {
        Some(TableBody::Rows { rows, footer }) => {
            assert_eq!(rows.len(), 2);
            assert_eq!(rows[0].subject, "PPAP");
            assert_eq!(rows[0].priority, ("High", "badge badge-high"));
            assert_eq!(rows[0].status, ("In Progress", "badge badge-in-progress"));
            assert_eq!(rows[0].due, "—");
            assert_eq!(rows[0].assignee, "Ann");
            assert_eq!(rows[0].completion, "40%");
            assert_eq!(rows[1].subject, "FMEA");
            assert_eq!(rows[1].assignee, "—");
            assert_eq!(rows[1].completion, "0%");
            assert_eq!(footer, "2 tasks total · Page 1 of 1");
        }
        other => panic!("{:?}", other),
    }
}
