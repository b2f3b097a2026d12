//! Laws of the task status models.
use vstd::prelude::*;
use super::task::{
    allowed, parse_priority, parse_progress, parse_risk, priority_text, progress_text, risk_text,
    successors, Priority, ProgressStatus, RiskStatus,
};

verus! {

/// Every progress status is read back from its own name.
pub proof fn lemma_progress_name_round_trip(s: ProgressStatus)
    ensures
        parse_progress(progress_text(s)) == Some(s),
{
    reveal_strlit("open");
    reveal_strlit("in_progress");
    reveal_strlit("waiting_for_feedback");
    reveal_strlit("completed");
    reveal_strlit("verified");
    reveal_strlit("rejected");
    reveal_strlit("deferred");
    reveal_strlit("cancelled");
    match s {
        ProgressStatus::Open => {},
        ProgressStatus::InProgress => {
            assert("in_progress"@.len() != "open"@.len());
        },
        ProgressStatus::WaitingForFeedback => {
            assert("waiting_for_feedback"@.len() != "open"@.len());
            assert("waiting_for_feedback"@.len() != "in_progress"@.len());
        },
        ProgressStatus::Completed => {
            assert("completed"@.len() != "open"@.len());
            assert("completed"@.len() != "in_progress"@.len());
            assert("completed"@.len() != "waiting_for_feedback"@.len());
        },
        ProgressStatus::Verified => {
            assert("verified"@.len() != "open"@.len());
            assert("verified"@.len() != "in_progress"@.len());
            assert("verified"@.len() != "waiting_for_feedback"@.len());
            assert("verified"@.len() != "completed"@.len());
        },
        ProgressStatus::Rejected => {
            assert("rejected"@.len() != "open"@.len());
            assert("rejected"@.len() != "in_progress"@.len());
            assert("rejected"@.len() != "waiting_for_feedback"@.len());
            assert("rejected"@.len() != "completed"@.len());
            assert("rejected"@[0] != "verified"@[0]);
        },
        ProgressStatus::Deferred => {
            assert("deferred"@.len() != "open"@.len());
            assert("deferred"@.len() != "in_progress"@.len());
            assert("deferred"@.len() != "waiting_for_feedback"@.len());
            assert("deferred"@.len() != "completed"@.len());
            assert("deferred"@[0] != "verified"@[0]);
            assert("deferred"@[0] != "rejected"@[0]);
        },
        ProgressStatus::Cancelled => {
            assert("cancelled"@.len() != "open"@.len());
            assert("cancelled"@.len() != "in_progress"@.len());
            assert("cancelled"@.len() != "waiting_for_feedback"@.len());
            assert("cancelled"@[1] != "completed"@[1]);
            assert("cancelled"@.len() != "verified"@.len());
            assert("cancelled"@.len() != "rejected"@.len());
            assert("cancelled"@.len() != "deferred"@.len());
        },
    }
}

/// A text that parses as a progress status is exactly that status's name.
pub proof fn lemma_progress_parse_gives_name(t: Seq<char>)
    ensures
        parse_progress(t) matches Some(s) ==> progress_text(s) == t,
{
}

/// Every risk status is read back from its own name.
pub proof fn lemma_risk_name_round_trip(s: RiskStatus)
    ensures
        parse_risk(risk_text(s)) == Some(s),
{
    reveal_strlit("green");
    reveal_strlit("yellow");
    reveal_strlit("yellow_red");
    reveal_strlit("red");
    reveal_strlit("pending");
    reveal_strlit("not_applicable");
    match s {
        RiskStatus::Green => {},
        RiskStatus::Yellow => {
            assert("yellow"@.len() != "green"@.len());
        },
        RiskStatus::YellowRed => {
            assert("yellow_red"@.len() != "green"@.len());
            assert("yellow_red"@.len() != "yellow"@.len());
        },
        RiskStatus::Red => {
            assert("red"@.len() != "green"@.len());
            assert("red"@.len() != "yellow"@.len());
            assert("red"@.len() != "yellow_red"@.len());
        },
        RiskStatus::Pending => {
            assert("pending"@.len() != "green"@.len());
            assert("pending"@.len() != "yellow"@.len());
            assert("pending"@.len() != "yellow_red"@.len());
            assert("pending"@.len() != "red"@.len());
        },
        RiskStatus::NotApplicable => {
            assert("not_applicable"@.len() != "green"@.len());
            assert("not_applicable"@.len() != "yellow"@.len());
            assert("not_applicable"@.len() != "yellow_red"@.len());
            assert("not_applicable"@.len() != "red"@.len());
            assert("not_applicable"@.len() != "pending"@.len());
        },
    }
}

/// A text that parses as a risk status is exactly that status's name.
pub proof fn lemma_risk_parse_gives_name(t: Seq<char>)
    ensures
        parse_risk(t) matches Some(s) ==> risk_text(s) == t,
{
}

/// Every priority is read back from its own name.
pub proof fn lemma_priority_name_round_trip(p: Priority)
    ensures
        parse_priority(priority_text(p)) == Some(p),
{
    reveal_strlit("high");
    reveal_strlit("normal");
    reveal_strlit("low");
    match p {
        Priority::High => {},
        Priority::Normal => {
            assert("normal"@.len() != "high"@.len());
        },
        Priority::Low => {
            assert("low"@.len() != "high"@.len());
            assert("low"@.len() != "normal"@.len());
        },
    }
}

/// A text that parses as a priority is exactly that priority's name.
pub proof fn lemma_priority_parse_gives_name(t: Seq<char>)
    ensures
        parse_priority(t) matches Some(p) ==> priority_text(p) == t,
{
}

/// A status is terminal exactly when the workflow allows no successor.
pub proof fn lemma_terminal_iff_no_successor(s: ProgressStatus)
    ensures
        s.spec_is_terminal() <==> successors(s).len() == 0,
        s.spec_is_terminal() <==> (forall|t: ProgressStatus| !allowed(s, t)),
{
    if !s.spec_is_terminal() {
        assert(allowed(s, successors(s)[0]));
    }
}

/// No status is its own successor.
pub proof fn lemma_no_self_transition(s: ProgressStatus)
    ensures
        !allowed(s, s),
{
}

/// A task is verified only after it was completed.
pub proof fn lemma_verified_only_from_completed(s: ProgressStatus)
    ensures
        allowed(s, ProgressStatus::Verified) <==> s == ProgressStatus::Completed,
{
}

/// A sequence of statuses in which each step is allowed by the workflow.
pub open spec fn is_walk(p: Seq<ProgressStatus>) -> bool {
    forall|i: int| 0 <= i < p.len() - 1 ==> allowed(#[trigger] p[i], p[i + 1])
}

/// From every status the workflow can still reach a terminal status.
pub proof fn lemma_terminal_reachable(s: ProgressStatus)
    ensures
        exists|p: Seq<ProgressStatus>|
            p.len() > 0 && p[0] == s && #[trigger] is_walk(p) && p.last().spec_is_terminal(),
{
    let p: Seq<ProgressStatus> = match s {
        ProgressStatus::Open => seq![s, ProgressStatus::Cancelled],
        ProgressStatus::InProgress => seq![s, ProgressStatus::Cancelled],
        ProgressStatus::WaitingForFeedback => seq![s, ProgressStatus::Cancelled],
        ProgressStatus::Completed => seq![s, ProgressStatus::Verified],
        ProgressStatus::Rejected => seq![s, ProgressStatus::Open, ProgressStatus::Cancelled],
        ProgressStatus::Deferred => seq![s, ProgressStatus::Cancelled],
        ProgressStatus::Verified => seq![s],
        ProgressStatus::Cancelled => seq![s],
    };
    assert(allowed(p[0], successors(p[0]).last()) || p.len() <= 2);
    assert forall|i: int| 0 <= i < p.len() - 1 implies allowed(#[trigger] p[i], p[i + 1]) by {
        if s == ProgressStatus::Rejected {
            assert(successors(ProgressStatus::Rejected)[0] == ProgressStatus::Open);
            assert(successors(ProgressStatus::Open)[2] == ProgressStatus::Cancelled);
        } else if s == ProgressStatus::Completed {
            assert(successors(s)[0] == ProgressStatus::Verified);
        } else if s == ProgressStatus::Open {
            assert(successors(s)[2] == ProgressStatus::Cancelled);
        } else if s == ProgressStatus::InProgress {
            assert(successors(s)[3] == ProgressStatus::Cancelled);
        } else if s == ProgressStatus::WaitingForFeedback {
            assert(successors(s)[2] == ProgressStatus::Cancelled);
        } else if s == ProgressStatus::Deferred {
            assert(successors(s)[1] == ProgressStatus::Cancelled);
        }
    }
    assert(is_walk(p));
}

/// No status lists the same successor twice.
pub proof fn lemma_successors_distinct(s: ProgressStatus)
    ensures
        successors(s).no_duplicates(),
{
}

/// Every status can be reached from `Open` by steps the workflow allows.
pub proof fn lemma_reachable_from_open(s: ProgressStatus)
    ensures
        exists|p: Seq<ProgressStatus>|
            p.len() > 0 && p[0] == ProgressStatus::Open && #[trigger] is_walk(p) && p.last() == s,
{
    let p: Seq<ProgressStatus> = match s {
        ProgressStatus::Open => seq![ProgressStatus::Open],
        ProgressStatus::InProgress => seq![ProgressStatus::Open, ProgressStatus::InProgress],
        ProgressStatus::WaitingForFeedback => seq![
            ProgressStatus::Open,
            ProgressStatus::InProgress,
            ProgressStatus::WaitingForFeedback,
        ],
        ProgressStatus::Completed => seq![
            ProgressStatus::Open,
            ProgressStatus::InProgress,
            ProgressStatus::Completed,
        ],
        ProgressStatus::Verified => seq![
            ProgressStatus::Open,
            ProgressStatus::InProgress,
            ProgressStatus::Completed,
            ProgressStatus::Verified,
        ],
        ProgressStatus::Rejected => seq![
            ProgressStatus::Open,
            ProgressStatus::InProgress,
            ProgressStatus::Completed,
            ProgressStatus::Rejected,
        ],
        ProgressStatus::Deferred => seq![ProgressStatus::Open, ProgressStatus::Deferred],
        ProgressStatus::Cancelled => seq![ProgressStatus::Open, ProgressStatus::Cancelled],
    };
    assert(successors(ProgressStatus::Open)[0] == ProgressStatus::InProgress);
    assert(successors(ProgressStatus::Open)[1] == ProgressStatus::Deferred);
    assert(successors(ProgressStatus::Open)[2] == ProgressStatus::Cancelled);
    assert(successors(ProgressStatus::InProgress)[0] == ProgressStatus::WaitingForFeedback);
    assert(successors(ProgressStatus::InProgress)[1] == ProgressStatus::Completed);
    assert(successors(ProgressStatus::Completed)[0] == ProgressStatus::Verified);
    assert(successors(ProgressStatus::Completed)[1] == ProgressStatus::Rejected);
    assert forall|i: int| 0 <= i < p.len() - 1 implies allowed(#[trigger] p[i], p[i + 1]) by {}
    assert(is_walk(p));
}

} // verus!
