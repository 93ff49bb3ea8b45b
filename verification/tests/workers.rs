use nomi::realtime::{admin_frame_for, session_id_from_topic, AdminStreamFrame, StreamEnvelope};
use nomi::workers::{
    approval_resume_follow_up, delegation_follow_up, extract_project_id, reply_text, task_messages, turn_job_follow_up,
    ClaimedDelegation, DelegationOutcome, DelegationStatus, JobMark, QueuedJobOutcome, NIL_ID,
};
use nomi::llm::types::{ContentBlock, LlmRole};

const PROJECT: &str = "67e55044-10b1-426f-9247-bb680e5fe0c8";

#[test]
fn a_planning_task_names_its_project() {
    let id = uuid::Uuid::parse_str(PROJECT).unwrap().as_u128();
    assert_eq!(extract_project_id(&format!("Project {PROJECT}: build a landing page")), Some(id));
    assert_eq!(extract_project_id(&format!("Project  {PROJECT} : spaced")), Some(id));
}

#[test]
fn other_tasks_name_no_project() {
    assert_eq!(extract_project_id("Build a landing page"), None);
    assert_eq!(extract_project_id(&format!("Project {PROJECT} without a colon")), None);
    assert_eq!(extract_project_id("Project not-a-uuid: x"), None);
}

#[test]
fn a_task_becomes_one_user_message() {
    let ms = task_messages("summarize my budget");
    assert_eq!(ms.len(), 1);
    assert_eq!(ms[0].role, LlmRole::User);
    assert_eq!(ms[0].content, vec![ContentBlock::Text { text: "summarize my budget".to_string() }]);
}

fn delegation(target: &str, task: &str) -> ClaimedDelegation {
    ClaimedDelegation { id: 1, session_id: 2, user_id: 3, target_agent_type: target.to_string(), task: task.to_string() }
}

#[test]
fn an_answered_coding_delegation_marks_its_project_ready() {
    let d = delegation("coding", &format!("Project {PROJECT}: build it"));
    let f = delegation_follow_up(&d, "coding", DelegationOutcome::Replied { result: "done".to_string(), phrased: None });
    assert_eq!(f.message.as_deref(), Some("done"));
    assert_eq!(f.status, DelegationStatus::Completed { result: "done".to_string() });
    assert_eq!(f.ready_project, Some(uuid::Uuid::parse_str(PROJECT).unwrap().as_u128()));
}

#[test]
fn the_supervisors_rewording_is_posted_but_the_raw_result_is_stored() {
    let d = delegation("money", &format!("Project {PROJECT}: budget"));
    let f = delegation_follow_up(
        &d,
        "coding",
        DelegationOutcome::Replied { result: "raw".to_string(), phrased: Some("nicely put".to_string()) },
    );
    assert_eq!(f.message.as_deref(), Some("nicely put"));
    assert_eq!(f.status, DelegationStatus::Completed { result: "raw".to_string() });
    assert_eq!(f.ready_project, None);
}

#[test]
fn a_failed_delegation_apologises_and_fails() {
    let d = delegation("money", "budget");
    let f = delegation_follow_up(&d, "coding", DelegationOutcome::Failed("timeout".to_string()));
    assert_eq!(f.message.as_deref(), Some("I wasn't able to get an answer from the money agent \u{2014} timeout."));
    assert_eq!(f.status, DelegationStatus::Failed { error: "timeout".to_string() });
    let f = delegation_follow_up(&d, "coding", DelegationOutcome::UnknownAgent);
    assert_eq!(f.message, None);
    assert_eq!(f.status, DelegationStatus::Failed { error: "unknown target agent".to_string() });
    let f = delegation_follow_up(&d, "coding", DelegationOutcome::NoConnection("pool closed".to_string()));
    assert_eq!(f.status, DelegationStatus::Failed { error: "pool closed".to_string() });
}

#[test]
fn a_finished_turn_job_completes_and_announces_its_reply() {
    let f = turn_job_follow_up(10, 20, QueuedJobOutcome::Processed { session_id: 20, message_id: Some(30) });
    assert_eq!(f.mark, JobMark::Completed);
    match f.announce {
        Some((20, StreamEnvelope::TurnCompleted { turn_job_id: 10, message_id: 30 })) => {}
        other => panic!("unexpected announcement {other:?}"),
    }
    let f = turn_job_follow_up(10, 20, QueuedJobOutcome::Processed { session_id: 20, message_id: None });
    assert!(matches!(f.announce, Some((20, StreamEnvelope::TurnCompleted { turn_job_id: 10, message_id: NIL_ID }))));
}

#[test]
fn a_failed_turn_job_is_marked_with_its_error() {
    let f = turn_job_follow_up(10, 20, QueuedJobOutcome::Failed("boom".to_string()));
    assert_eq!(f.mark, JobMark::Failed { error: "boom".to_string() });
    assert!(f.announce.is_none());
    let f = turn_job_follow_up(10, 20, QueuedJobOutcome::Unresolved("no identity".to_string()));
    assert_eq!(f.mark, JobMark::Failed { error: "no identity".to_string() });
}

#[test]
fn a_resumed_turn_announces_under_the_nil_job_id() {
    let f = approval_resume_follow_up(QueuedJobOutcome::Processed { session_id: 5, message_id: Some(6) });
    assert_eq!(f.mark, JobMark::Completed);
    assert!(matches!(f.announce, Some((5, StreamEnvelope::TurnCompleted { turn_job_id: 0, message_id: 6 }))));
}

#[test]
fn topics_name_their_session() {
    let id = uuid::Uuid::parse_str(PROJECT).unwrap().as_u128();
    assert_eq!(session_id_from_topic(&format!("chat/{PROJECT}/stream")), Some(id));
    assert_eq!(session_id_from_topic(&format!("chat/{PROJECT}/other")), None);
    assert_eq!(session_id_from_topic(&format!("room/{PROJECT}/stream")), None);
    assert_eq!(session_id_from_topic("chat/xyz/stream"), None);
}

#[test]
fn only_agent_lifecycle_reaches_administrators() {
    let started = StreamEnvelope::AgentSessionStarted {
        agent_session_id: 1,
        session_id: 2,
        agent_type: "money".to_string(),
        agent_display_name: "Money".to_string(),
        channel: "web".to_string(),
        sender_label: "a@b.c".to_string(),
    };
    assert!(matches!(admin_frame_for(9, started), Some(AdminStreamFrame::AgentSessionStarted { session_id: 2, .. })));
    let phase = StreamEnvelope::AgentPhaseChanged { agent_session_id: 1, phase: "calling_tool".to_string(), detail: Some("read_file".to_string()) };
    match admin_frame_for(9, phase) {
        Some(AdminStreamFrame::AgentPhaseChanged { agent_session_id: 1, session_id: 9, phase, detail }) => {
            assert_eq!(phase, "calling_tool");
            assert_eq!(detail.as_deref(), Some("read_file"));
        }
        other => panic!("unexpected frame {other:?}"),
    }
    let ended = StreamEnvelope::AgentSessionEnded { agent_session_id: 1, session_id: 2, reason: "completed".to_string() };
    assert!(admin_frame_for(9, ended).is_some());
    assert!(admin_frame_for(9, StreamEnvelope::MessageCreated { message_id: 3 }).is_none());
    assert!(admin_frame_for(9, StreamEnvelope::TurnFailed { turn_job_id: 3, error: "secret".to_string() }).is_none());
}

use nomi::workers::{turn_worker_step, ApprovalResume, TurnJob, TurnWorkerAction, TurnWorkerEvent, TurnWorkerState};

fn turn_job() -> TurnJob {
    TurnJob { id: 1, session_id: 2, sender_channel_identity_id: 3, text: "hi".to_string() }
}

#[test]
fn the_turn_worker_drains_turns_then_resumes_then_waits() {
    let (s, a) = turn_worker_step(TurnWorkerState::Waiting, TurnWorkerEvent::Woke);
    assert_eq!(s, TurnWorkerState::DrainingTurns);
    assert!(matches!(a, TurnWorkerAction::ClaimTurn));
    let (s, a) = turn_worker_step(s, TurnWorkerEvent::TurnClaimed(Ok(Some(turn_job()))));
    assert!(matches!(a, TurnWorkerAction::ResolveTurnUser { sender_channel_identity_id: 3 }));
    let (s, a) = turn_worker_step(s, TurnWorkerEvent::TurnUserResolved(Ok(9)));
    assert!(matches!(a, TurnWorkerAction::RunTurn { user_id: 9, .. }));
    let (s, a) = turn_worker_step(s, TurnWorkerEvent::TurnProcessed(Ok(Some(40))));
    assert_eq!(s, TurnWorkerState::DrainingTurns);
    match a {
        TurnWorkerAction::FinishTurn { job_id: 1, follow_up } => {
            assert_eq!(follow_up.mark, JobMark::Completed);
            assert!(matches!(follow_up.announce, Some((2, StreamEnvelope::TurnCompleted { turn_job_id: 1, message_id: 40 }))));
        }
        other => panic!("unexpected {other:?}"),
    }
    let (s, a) = turn_worker_step(s, TurnWorkerEvent::TurnClaimed(Ok(None)));
    assert_eq!(s, TurnWorkerState::DrainingResumes);
    assert!(matches!(a, TurnWorkerAction::ClaimResume));
    let resume = ApprovalResume { id: 5, message_id: 6, decision: "approve".to_string(), remember: false };
    let (s, a) = turn_worker_step(s, TurnWorkerEvent::ResumeClaimed(Ok(Some(resume))));
    assert!(matches!(a, TurnWorkerAction::ResolveResumeSession { message_id: 6 }));
    let (s, a) = turn_worker_step(s, TurnWorkerEvent::ResumeSessionResolved(Ok(2)));
    assert!(matches!(a, TurnWorkerAction::ResolveResumeUser { message_id: 6 }));
    let (s, a) = turn_worker_step(s, TurnWorkerEvent::ResumeUserResolved(Err("no such turn".to_string())));
    assert_eq!(s, TurnWorkerState::DrainingResumes);
    match a {
        TurnWorkerAction::FinishResume { resume_id: 5, follow_up } => {
            assert_eq!(follow_up.mark, JobMark::Failed { error: "no such turn".to_string() });
        }
        other => panic!("unexpected {other:?}"),
    }
    let (s, a) = turn_worker_step(s, TurnWorkerEvent::ResumeClaimed(Err("db down".to_string())));
    assert_eq!(s, TurnWorkerState::Waiting);
    assert!(matches!(a, TurnWorkerAction::Wait));
}

#[test]
fn a_turn_whose_user_is_unknown_is_failed_and_the_queue_goes_on() {
    let s = TurnWorkerState::ResolvingTurnUser { job: turn_job() };
    let (s, a) = turn_worker_step(s, TurnWorkerEvent::TurnUserResolved(Err("missing identity".to_string())));
    assert_eq!(s, TurnWorkerState::DrainingTurns);
    match a {
        TurnWorkerAction::FinishTurn { job_id: 1, follow_up } => {
            assert_eq!(follow_up.mark, JobMark::Failed { error: "missing identity".to_string() });
            assert!(follow_up.announce.is_none());
        }
        other => panic!("unexpected {other:?}"),
    }
}

#[test]
fn an_event_out_of_turn_sends_the_worker_back_to_waiting() {
    let (s, a) = turn_worker_step(TurnWorkerState::DrainingTurns, TurnWorkerEvent::Woke);
    assert_eq!(s, TurnWorkerState::Waiting);
    assert!(matches!(a, TurnWorkerAction::Wait));
}

#[test]
fn a_reply_reads_as_its_text_blocks_in_order() {
    let content = vec![
        ContentBlock::Text { text: "Rent ".to_string() },
        ContentBlock::Thinking { text: "hidden".to_string(), signature: None },
        ContentBlock::Text { text: "is due".to_string() },
    ];
    assert_eq!(reply_text(&content), "Rent is due");
    assert_eq!(reply_text(&vec![]), "");
}

#[test]
fn every_delegation_outcome_is_announced_on_its_chat() {
    let d = delegation("money", "budget");
    let outcomes = vec![
        DelegationOutcome::UnknownAgent,
        DelegationOutcome::NoConnection("pool closed".to_string()),
        DelegationOutcome::Replied { result: "done".to_string(), phrased: None },
        DelegationOutcome::Failed("timeout".to_string()),
    ];
    for outcome in outcomes {
        let f = delegation_follow_up(&d, "coding", outcome);
        assert!(matches!(f.announce, (2, StreamEnvelope::AgentDelegationUpdated { delegation_id: 1 })));
    }
}
