use vstd::prelude::*;

use crate::ids::{parse_uuid, uuid_from_text};
use crate::llm::types::{ContentBlock, LlmMessage, LlmRole};
use crate::realtime::StreamEnvelope;
use crate::schedule::{is_next_occurrence, next_occurrence, occurrence_defined, occurrence_exists};
use crate::text::{after_prefix, join2, split_at_first, split_once, str_eq, strip_prefix, trim, trimmed};
use crate::time::UtcInstant;

verus! {

/// The reply budget of an agent turn run for a fired reminder.
pub const REMINDER_MAX_TOKENS: u32 = 1024;

/// The reply budget of an agent turn run for a delegated task.
pub const DELEGATED_MAX_TOKENS: u32 = 1024;

/// What a reminder that needed an unattended tool approval leaves in its chat.
pub const APPROVAL_NOTICE: &'static str = "Your reminder needed a tool approval it can't get automatically, so it didn't complete.";

/// A reminder the scheduler has claimed to fire.
#[derive(Debug, Clone)]
pub struct ClaimedJob {
    pub id: u128,
    pub session_id: u128,
    pub user_id: u128,
    pub target_agent_type: String,
    pub prompt: String,
    pub recurrence: Option<String>,
    pub recurrence_weekday: Option<i16>,
    pub recurrence_day_of_month: Option<i16>,
    pub run_at: UtcInstant,
}

impl ClaimedJob {
    /// A job whose next occurrence, if it recurs, exists.
    pub open spec fn schedulable(self) -> bool {
        &&& self.run_at.valid()
        &&& self.recurrence matches Some(r) ==> occurrence_defined(
            self.run_at,
            r@,
            self.recurrence_weekday,
            self.recurrence_day_of_month,
        )
    }
}

impl ClaimedJob {
    /// Whether the job can be fired: its time is in range and, if it recurs, its next run
    /// exists.
    pub fn is_schedulable(&self) -> (r: bool)
        ensures
            r == self.schedulable(),
    {
        if !self.run_at.is_valid() {
            return false;
        }
        match &self.recurrence {
            Some(r) => occurrence_exists(self.run_at, r.as_str(), self.recurrence_weekday, self.recurrence_day_of_month),
            None => true,
        }
    }
}

/// What becomes of a scheduled job's row.
#[derive(Debug, Clone, Copy, PartialEq, Eq)]
pub enum JobUpdate {
    /// Its target agent does not exist: it will never fire.
    Cancel,
    /// A one-time job has fired.
    Complete,
    /// A recurring job has fired and waits for its next run.
    Reschedule { next_run_at: UtcInstant },
}

/// After firing, a recurring job moves to its next occurrence and a one-time job completes.
pub open spec fn is_update_after_firing(job: ClaimedJob, u: JobUpdate) -> bool {
    match job.recurrence {
        Some(r) => u matches JobUpdate::Reschedule { next_run_at } && is_next_occurrence(
            job.run_at,
            r@,
            job.recurrence_weekday,
            job.recurrence_day_of_month,
            next_run_at,
        ),
        None => u == JobUpdate::Complete,
    }
}

/// How a fired job's row is updated.
pub fn update_after_firing(job: &ClaimedJob) -> (u: JobUpdate)
    requires
        job.schedulable(),
    ensures
        is_update_after_firing(*job, u),
{
    match &job.recurrence {
        Some(recurrence) => JobUpdate::Reschedule {
            next_run_at: next_occurrence(
                job.run_at,
                recurrence.as_str(),
                job.recurrence_weekday,
                job.recurrence_day_of_month,
            ),
        },
        None => JobUpdate::Complete,
    }
}

/// `ms` is the conversation an agent turn for `task` starts from: the task as one user
/// message of one text block.
pub open spec fn is_task_conversation(ms: Seq<LlmMessage>, task: Seq<char>) -> bool {
    &&& ms.len() == 1
    &&& ms[0].role == LlmRole::User
    &&& ms[0].content@.len() == 1
    &&& ms[0].content@[0] matches ContentBlock::Text { text } && text@ == task
}

/// The conversation an agent turn for a task starts from.
pub fn task_messages(task: &str) -> (ms: Vec<LlmMessage>)
    ensures
        is_task_conversation(ms@, task@),
{
    let text = task.to_owned();
    let content = vec![ContentBlock::Text { text }];
    vec![LlmMessage { role: LlmRole::User, content }]
}

/// The text of a reply: its text blocks one after another, everything else left out.
pub open spec fn reply_text_of(bs: Seq<ContentBlock>) -> Seq<char>
    decreases bs.len(),
{
    if bs.len() == 0 {
        Seq::empty()
    } else {
        reply_text_of(bs.drop_last()) + match bs.last() {
            ContentBlock::Text { text } => text@,
            _ => Seq::empty(),
        }
    }
}

/// The text of a reply's content.
pub fn reply_text(content: &Vec<ContentBlock>) -> (r: String)
    ensures
        r@ == reply_text_of(content@),
{
    let mut r = String::new();
    let mut i: usize = 0;
    while i < content.len()
        invariant
            i <= content.len(),
            r@ == reply_text_of(content@.take(i as int)),
        decreases content.len() - i,
    {
        assert(content@.take(i as int + 1).drop_last() =~= content@.take(i as int));
        match &content[i] {
            ContentBlock::Text { text } => {
                r.append(text.as_str());
            },
            _ => {},
        }
        i = i + 1;
    }
    assert(content@.take(content.len() as int) =~= content@);
    r
}

/// How an agent turn run for a scheduled or delegated task ended.
#[derive(Debug, Clone)]
pub enum TaskOutcome {
    /// The job names an agent that does not exist.
    UnknownAgent,
    /// The agent answered (a reply, or a completed task's summary).
    Replied(String),
    /// The agent stopped to ask for a tool approval nobody can give unattended.
    AwaitingApproval,
    /// The turn failed with this error.
    Failed(String),
}

/// What the scheduler does once a reminder's turn has ended.
#[derive(Debug, Clone)]
pub struct ReminderFollowUp {
    /// The message posted in the job's chat under the agent's name, if any.
    pub message: Option<String>,
    /// Whether the chat's stream is told that the message was created.
    pub announce_message: bool,
    /// The text delivered to the user as a notification, if any.
    pub notification: Option<String>,
    /// What becomes of the job's row.
    pub update: JobUpdate,
}

/// The apology left in a chat when a reminder's turn failed with `error`.
pub open spec fn reminder_failure_text(error: Seq<char>) -> Seq<char> {
    "I wasn't able to complete your reminder \u{2014} "@ + error + "."@
}

/// What a reminder's ended turn leaves in its chat and delivers to its user.
#[derive(Debug, Clone)]
pub struct ReminderPosting {
    /// The message posted in the job's chat under the agent's name, if any.
    pub message: Option<String>,
    /// Whether the chat's stream is told that the message was created.
    pub announce_message: bool,
    /// The text delivered to the user as a notification, if any.
    pub notification: Option<String>,
}

/// `p` is what a turn that ended with `outcome` posts: nothing for an unknown agent; the reply
/// (announced and delivered as a notification); a notice about the approval it could not
/// get; or an apology naming the error.
pub open spec fn is_reminder_posting(outcome: TaskOutcome, p: ReminderPosting) -> bool {
    match outcome {
        TaskOutcome::UnknownAgent => {
            &&& p.message is None
            &&& !p.announce_message
            &&& p.notification is None
        },
        TaskOutcome::Replied(text) => {
            &&& p.message == Some(text)
            &&& p.announce_message
            &&& p.notification == Some(text)
        },
        TaskOutcome::AwaitingApproval => {
            &&& p.message matches Some(m) && m@ == APPROVAL_NOTICE@
            &&& !p.announce_message
            &&& p.notification is None
        },
        TaskOutcome::Failed(e) => {
            &&& p.message matches Some(m) && m@ == reminder_failure_text(e@)
            &&& !p.announce_message
            &&& p.notification is None
        },
    }
}

/// What a reminder's turn that ended with `outcome` posts.
pub fn reminder_posting(outcome: TaskOutcome) -> (p: ReminderPosting)
    ensures
        is_reminder_posting(outcome, p),
{
    match outcome {
        TaskOutcome::UnknownAgent => ReminderPosting { message: None, announce_message: false, notification: None },
        TaskOutcome::Replied(text) => {
            let notification = text.clone();
            ReminderPosting { message: Some(text), announce_message: true, notification: Some(notification) }
        },
        TaskOutcome::AwaitingApproval => ReminderPosting {
            message: Some(APPROVAL_NOTICE.to_owned()),
            announce_message: false,
            notification: None,
        },
        TaskOutcome::Failed(e) => {
            let head = join2("I wasn't able to complete your reminder \u{2014} ", e.as_str());
            let message = join2(head.as_str(), ".");
            ReminderPosting { message: Some(message), announce_message: false, notification: None }
        },
    }
}

/// What becomes of a reminder's row once its turn has ended: a job whose agent does not
/// exist is cancelled; one that fired is rescheduled or completed, when its next run exists.
/// `None` says that the job fired but has no next run to move to (a weekday outside 0 to 6,
/// or a day of the month that no month has).
pub fn reminder_update(job: &ClaimedJob, agent_exists: bool) -> (u: Option<JobUpdate>)
    ensures
        !agent_exists ==> u == Some(JobUpdate::Cancel),
        agent_exists ==> (u is Some <==> job.schedulable()),
        agent_exists ==> (u matches Some(x) ==> is_update_after_firing(*job, x)),
{
    if !agent_exists {
        Some(JobUpdate::Cancel)
    } else if job.is_schedulable() {
        Some(update_after_firing(job))
    } else {
        None
    }
}

/// A reminder whose agent does not exist is cancelled. Otherwise the chat gets the reply (which
/// is also announced and delivered as a notification), a notice about the approval it could
/// not get, or an apology naming the error; then a recurring job is rescheduled and a one-time
/// job completed.
pub fn reminder_follow_up(job: &ClaimedJob, outcome: TaskOutcome) -> (f: ReminderFollowUp)
    requires
        job.schedulable(),
    ensures
        match outcome {
            TaskOutcome::UnknownAgent => {
                &&& f.message is None
                &&& !f.announce_message
                &&& f.notification is None
                &&& f.update == JobUpdate::Cancel
            },
            TaskOutcome::Replied(text) => {
                &&& f.message == Some(text)
                &&& f.announce_message
                &&& f.notification == Some(text)
                &&& is_update_after_firing(*job, f.update)
            },
            TaskOutcome::AwaitingApproval => {
                &&& f.message matches Some(m) && m@ == APPROVAL_NOTICE@
                &&& !f.announce_message
                &&& f.notification is None
                &&& is_update_after_firing(*job, f.update)
            },
            TaskOutcome::Failed(e) => {
                &&& f.message matches Some(m) && m@ == reminder_failure_text(e@)
                &&& !f.announce_message
                &&& f.notification is None
                &&& is_update_after_firing(*job, f.update)
            },
        },
{
    let update = match &outcome {
        TaskOutcome::UnknownAgent => JobUpdate::Cancel,
        _ => update_after_firing(job),
    };
    let posting = reminder_posting(outcome);
    ReminderFollowUp {
        message: posting.message,
        announce_message: posting.announce_message,
        notification: posting.notification,
        update,
    }
}

/// A task handed from one agent to another, claimed by the delegation worker.
#[derive(Debug, Clone)]
pub struct ClaimedDelegation {
    pub id: u128,
    pub session_id: u128,
    pub user_id: u128,
    pub target_agent_type: String,
    pub task: String,
}

/// The project a planning task names: its text reads "Project <uuid>: ...".
pub open spec fn project_in_task(task: Seq<char>) -> Option<u128> {
    match after_prefix(task, "Project "@) {
        Some(rest) => match split_at_first(rest, ':') {
            Some((id, _)) => uuid_from_text(trimmed(id)),
            None => None,
        },
        None => None,
    }
}

/// Reads the project id out of a "Project <uuid>: ..." task; anything else names none.
pub fn extract_project_id(task: &str) -> (r: Option<u128>)
    ensures
        r == project_in_task(task@),
{
    let rest = strip_prefix(task, "Project ")?;
    let (id, _tail) = split_once(rest.as_str(), ':')?;
    let id = trim(id.as_str());
    parse_uuid(id.as_str())
}

/// Where a delegation ends up.
#[derive(Debug, Clone, PartialEq, Eq)]
pub enum DelegationStatus {
    Completed { result: String },
    Failed { error: String },
}

/// How a delegated task ended.
#[derive(Debug, Clone)]
pub enum DelegationOutcome {
    /// The task names an agent that does not exist.
    UnknownAgent,
    /// No database connection could be had to run it.
    NoConnection(String),
    /// The agent answered `result`; `phrased` is the supervisor's rewording of it, when that
    /// worked.
    Replied { result: String, phrased: Option<String> },
    /// The delegated turn failed with this error.
    Failed(String),
}

/// What the delegation worker does once a delegated task has ended. Every outcome is announced
/// on the chat's stream.
#[derive(Debug)]
pub struct DelegationFollowUp {
    /// The message posted in the chat, if any.
    pub message: Option<String>,
    /// The delegation's final status.
    pub status: DelegationStatus,
    /// A project that is now ready.
    pub ready_project: Option<u128>,
    /// The chat whose stream is told that the delegation changed, and what it is told.
    pub announce: (u128, StreamEnvelope),
}

/// The apology left in a chat when the `target` agent's delegated turn failed with `error`.
pub open spec fn delegation_failure_text(target: Seq<char>, error: Seq<char>) -> Seq<char> {
    "I wasn't able to get an answer from the "@ + target + " agent \u{2014} "@ + error + "."@
}

/// A delegation to an unknown agent, or one that could not get a connection, fails with that
/// reason and posts nothing. An answered one posts the supervisor's rewording (the raw result
/// when there is none), completes with the raw result, and, when the coding agent answered a
/// task naming a project, marks that project ready. A failed one posts an apology and fails
/// with the error.
pub fn delegation_follow_up(
    d: &ClaimedDelegation,
    coding_agent_type: &str,
    outcome: DelegationOutcome,
) -> (f: DelegationFollowUp)
    ensures
        f.announce == (d.session_id, StreamEnvelope::AgentDelegationUpdated { delegation_id: d.id }),
        match outcome {
            DelegationOutcome::UnknownAgent => {
                &&& f.message is None
                &&& f.status matches DelegationStatus::Failed { error } && error@ == "unknown target agent"@
                &&& f.ready_project is None
            },
            DelegationOutcome::NoConnection(e) => {
                &&& f.message is None
                &&& f.status == (DelegationStatus::Failed { error: e })
                &&& f.ready_project is None
            },
            DelegationOutcome::Replied { result, phrased } => {
                &&& f.message == Some(
                    match phrased {
                        Some(p) => p,
                        None => result,
                    },
                )
                &&& f.status == (DelegationStatus::Completed { result })
                &&& f.ready_project == if d.target_agent_type@ == coding_agent_type@ {
                    project_in_task(d.task@)
                } else {
                    None
                }
            },
            DelegationOutcome::Failed(e) => {
                &&& f.message matches Some(m) && m@ == delegation_failure_text(d.target_agent_type@, e@)
                &&& f.status == (DelegationStatus::Failed { error: e })
                &&& f.ready_project is None
            },
        },
{
    match outcome {
        DelegationOutcome::UnknownAgent => DelegationFollowUp {
            message: None,
            status: DelegationStatus::Failed { error: "unknown target agent".to_owned() },
            ready_project: None,
            announce: (d.session_id, StreamEnvelope::AgentDelegationUpdated { delegation_id: d.id }),
        },
        DelegationOutcome::NoConnection(e) => DelegationFollowUp {
            message: None,
            status: DelegationStatus::Failed { error: e },
            ready_project: None,
            announce: (d.session_id, StreamEnvelope::AgentDelegationUpdated { delegation_id: d.id }),
        },
        DelegationOutcome::Replied { result, phrased } => {
            let message = match phrased {
                Some(p) => p,
                None => result.clone(),
            };
            let ready_project = if str_eq(d.target_agent_type.as_str(), coding_agent_type) {
                extract_project_id(d.task.as_str())
            } else {
                None
            };
            DelegationFollowUp {
                message: Some(message),
                status: DelegationStatus::Completed { result },
                ready_project,
                announce: (d.session_id, StreamEnvelope::AgentDelegationUpdated { delegation_id: d.id }),
            }
        },
        DelegationOutcome::Failed(e) => {
            let a = join2("I wasn't able to get an answer from the ", d.target_agent_type.as_str());
            let b = join2(a.as_str(), " agent \u{2014} ");
            let c = join2(b.as_str(), e.as_str());
            let message = join2(c.as_str(), ".");
            DelegationFollowUp {
                message: Some(message),
                status: DelegationStatus::Failed { error: e },
                ready_project: None,
                announce: (d.session_id, StreamEnvelope::AgentDelegationUpdated { delegation_id: d.id }),
            }
        },
    }
}

/// How a queued job (a chat turn or an approval resume) is marked once handled.
#[derive(Debug, Clone, PartialEq, Eq)]
pub enum JobMark {
    Completed,
    Failed { error: String },
}

/// What the turn worker does once a queued job has been handled: mark it, and possibly
/// announce the finished turn on a chat's stream.
#[derive(Debug, Clone)]
pub struct TurnFollowUp {
    pub mark: JobMark,
    /// The chat whose stream is told, and what it is told.
    pub announce: Option<(u128, StreamEnvelope)>,
}

/// The nil UUID, which stands in for an id that is not there.
pub const NIL_ID: u128 = 0;

/// The id a finished turn announces for its reply message: the nil UUID when it left none.
pub open spec fn announced_message(message_id: Option<u128>) -> u128 {
    match message_id {
        Some(m) => m,
        None => NIL_ID,
    }
}

/// How handling a queued job went: the steps before the turn failed, or the turn ran and
/// left a reply message (or none), or failed.
#[derive(Debug, Clone)]
pub enum QueuedJobOutcome {
    /// The chat or user the job belongs to could not be found; the error says why.
    Unresolved(String),
    /// The turn ran in this chat and left this reply message, if any.
    Processed { session_id: u128, message_id: Option<u128> },
    /// The turn failed with this error.
    Failed(String),
}

/// A chat turn job completes and announces its reply on its own chat's stream; a job whose
/// user could not be found or whose turn failed is marked failed with the error and nothing is
/// announced (the turn itself already announced its failure).
pub fn turn_job_follow_up(turn_job_id: u128, session_id: u128, outcome: QueuedJobOutcome) -> (f: TurnFollowUp)
    ensures
        match outcome {
            QueuedJobOutcome::Unresolved(e) => f.mark == (JobMark::Failed { error: e }) && f.announce is None,
            QueuedJobOutcome::Failed(e) => f.mark == (JobMark::Failed { error: e }) && f.announce is None,
            QueuedJobOutcome::Processed { session_id: _, message_id } => {
                &&& f.mark == JobMark::Completed
                &&& f.announce matches Some((s, StreamEnvelope::TurnCompleted { turn_job_id: t, message_id: m }))
                &&& s == session_id
                &&& t == turn_job_id
                &&& m == announced_message(message_id)
            },
        },
{
    match outcome {
        QueuedJobOutcome::Unresolved(e) => TurnFollowUp { mark: JobMark::Failed { error: e }, announce: None },
        QueuedJobOutcome::Failed(e) => TurnFollowUp { mark: JobMark::Failed { error: e }, announce: None },
        QueuedJobOutcome::Processed { session_id: _, message_id } => {
            let m = match message_id {
                Some(m) => m,
                None => NIL_ID,
            };
            TurnFollowUp {
                mark: JobMark::Completed,
                announce: Some((session_id, StreamEnvelope::TurnCompleted { turn_job_id, message_id: m })),
            }
        },
    }
}

/// A resumed turn (after an approval decision) completes and announces its reply on the chat
/// it ran in, under the nil turn job id; otherwise it is marked failed with the error.
pub fn approval_resume_follow_up(outcome: QueuedJobOutcome) -> (f: TurnFollowUp)
    ensures
        match outcome {
            QueuedJobOutcome::Unresolved(e) => f.mark == (JobMark::Failed { error: e }) && f.announce is None,
            QueuedJobOutcome::Failed(e) => f.mark == (JobMark::Failed { error: e }) && f.announce is None,
            QueuedJobOutcome::Processed { session_id, message_id } => {
                &&& f.mark == JobMark::Completed
                &&& f.announce matches Some((s, StreamEnvelope::TurnCompleted { turn_job_id: t, message_id: m }))
                &&& s == session_id
                &&& t == NIL_ID
                &&& m == announced_message(message_id)
            },
        },
{
    match outcome {
        QueuedJobOutcome::Unresolved(e) => TurnFollowUp { mark: JobMark::Failed { error: e }, announce: None },
        QueuedJobOutcome::Failed(e) => TurnFollowUp { mark: JobMark::Failed { error: e }, announce: None },
        QueuedJobOutcome::Processed { session_id, message_id } => {
            let m = match message_id {
                Some(m) => m,
                None => NIL_ID,
            };
            TurnFollowUp {
                mark: JobMark::Completed,
                announce: Some((session_id, StreamEnvelope::TurnCompleted { turn_job_id: NIL_ID, message_id: m })),
            }
        },
    }
}

} // verus!

verus! {

/// A chat turn waiting in the queue: the message that starts it and who sent it.
#[derive(Debug, Clone, PartialEq, Eq)]
pub struct TurnJob {
    pub id: u128,
    pub session_id: u128,
    pub sender_channel_identity_id: u128,
    pub text: String,
}

/// A paused turn to resume after someone decided on its tool approval.
#[derive(Debug, Clone, PartialEq, Eq)]
pub struct ApprovalResume {
    pub id: u128,
    pub message_id: u128,
    pub decision: String,
    pub remember: bool,
}

/// Where the turn worker is in its cycle: waiting to be woken, draining the chat turn queue,
/// then draining the approval resume queue, one job at a time.
#[derive(Debug, Clone, PartialEq, Eq)]
pub enum TurnWorkerState {
    Waiting,
    DrainingTurns,
    ResolvingTurnUser { job: TurnJob },
    RunningTurn { job: TurnJob, user_id: u128 },
    DrainingResumes,
    ResolvingResumeSession { resume: ApprovalResume },
    ResolvingResumeUser { resume: ApprovalResume },
    RunningResume { resume: ApprovalResume, user_id: u128 },
}

/// What the worker's surroundings report back.
#[derive(Debug)]
pub enum TurnWorkerEvent {
    /// A notification arrived, or the fallback interval passed.
    Woke,
    /// Claiming the next chat turn gave a job, nothing, or an error.
    TurnClaimed(Result<Option<TurnJob>, String>),
    /// Looking up the user behind a turn's sender gave their id or an error.
    TurnUserResolved(Result<u128, String>),
    /// The turn ran (leaving a reply message, or none) or failed.
    TurnProcessed(Result<Option<u128>, String>),
    /// Claiming the next approval resume gave one, nothing, or an error.
    ResumeClaimed(Result<Option<ApprovalResume>, String>),
    /// Looking up the chat of the paused message gave its id or an error.
    ResumeSessionResolved(Result<u128, String>),
    /// Looking up the user of the paused turn gave their id or an error.
    ResumeUserResolved(Result<u128, String>),
    /// The resumed turn ran in a chat (leaving a reply message, or none) or failed.
    ResumeProcessed(Result<(u128, Option<u128>), String>),
}

/// What the worker asks its surroundings to do next.
#[derive(Debug, Clone)]
pub enum TurnWorkerAction {
    /// Wait for a notification, at most the fallback interval.
    Wait,
    ClaimTurn,
    /// Look up the user behind this sender identity.
    ResolveTurnUser { sender_channel_identity_id: u128 },
    /// Run the turn for this user with their own model.
    RunTurn { job: TurnJob, user_id: u128 },
    /// Mark a chat turn job, and announce on a chat's stream when there is something to say.
    FinishTurn { job_id: u128, follow_up: TurnFollowUp },
    ClaimResume,
    /// Look up the chat of the paused message.
    ResolveResumeSession { message_id: u128 },
    /// Look up the user of the turn paused at this message.
    ResolveResumeUser { message_id: u128 },
    /// Resume the paused turn for this user.
    RunResume { resume: ApprovalResume, user_id: u128 },
    /// Mark an approval resume, and announce when there is something to say.
    FinishResume { resume_id: u128, follow_up: TurnFollowUp },
}

fn copy_job(j: &TurnJob) -> (r: TurnJob)
    ensures
        r == *j,
{
    TurnJob { id: j.id, session_id: j.session_id, sender_channel_identity_id: j.sender_channel_identity_id, text: j.text.clone() }
}

fn copy_resume(a: &ApprovalResume) -> (r: ApprovalResume)
    ensures
        r == *a,
{
    ApprovalResume { id: a.id, message_id: a.message_id, decision: a.decision.clone(), remember: a.remember }
}

/// One step of the turn worker. Woken, it drains the chat turn queue: each claimed job's user
/// is looked up (a failure marks the job failed), its turn run, and the job marked and
/// announced; the queue is left when it is empty or claiming fails. Then the approval resume
/// queue is drained the same way (the paused message's chat, then its user, must be found), and
/// the worker waits again. An event that does not fit the state leaves everything as it is and
/// waits.
pub fn turn_worker_step(state: TurnWorkerState, event: TurnWorkerEvent) -> (r: (TurnWorkerState, TurnWorkerAction))
    ensures
        match (state, event) {
            (TurnWorkerState::Waiting, TurnWorkerEvent::Woke) => r.0 == TurnWorkerState::DrainingTurns && r.1 is ClaimTurn,
            (TurnWorkerState::DrainingTurns, TurnWorkerEvent::TurnClaimed(c)) => match c {
                Ok(Some(job)) => {
                    &&& r.0 == (TurnWorkerState::ResolvingTurnUser { job })
                    &&& r.1 matches TurnWorkerAction::ResolveTurnUser { sender_channel_identity_id: s }
                    &&& s == job.sender_channel_identity_id
                },
                _ => r.0 == TurnWorkerState::DrainingResumes && r.1 is ClaimResume,
            },
            (TurnWorkerState::ResolvingTurnUser { job }, TurnWorkerEvent::TurnUserResolved(u)) => match u {
                Ok(user_id) => {
                    &&& r.0 == (TurnWorkerState::RunningTurn { job, user_id })
                    &&& r.1 matches TurnWorkerAction::RunTurn { job: j, user_id: v } && j == job && v == user_id
                },
                Err(e) => {
                    &&& r.0 == TurnWorkerState::DrainingTurns
                    &&& r.1 matches TurnWorkerAction::FinishTurn { job_id, follow_up }
                    &&& job_id == job.id
                    &&& follow_up.mark == (JobMark::Failed { error: e })
                    &&& follow_up.announce is None
                },
            },
            (TurnWorkerState::RunningTurn { job, user_id: _ }, TurnWorkerEvent::TurnProcessed(p)) => {
                &&& r.0 == TurnWorkerState::DrainingTurns
                &&& r.1 matches TurnWorkerAction::FinishTurn { job_id, follow_up }
                &&& job_id == job.id
                &&& match p {
                    Ok(message_id) => {
                        &&& follow_up.mark == JobMark::Completed
                        &&& follow_up.announce matches Some((s, StreamEnvelope::TurnCompleted { turn_job_id: t, message_id: m }))
                        &&& s == job.session_id
                        &&& t == job.id
                        &&& m == announced_message(message_id)
                    },
                    Err(e) => follow_up.mark == (JobMark::Failed { error: e }) && follow_up.announce is None,
                }
            },
            (TurnWorkerState::DrainingResumes, TurnWorkerEvent::ResumeClaimed(c)) => match c {
                Ok(Some(resume)) => {
                    &&& r.0 == (TurnWorkerState::ResolvingResumeSession { resume })
                    &&& r.1 matches TurnWorkerAction::ResolveResumeSession { message_id } && message_id == resume.message_id
                },
                _ => r.0 == TurnWorkerState::Waiting && r.1 is Wait,
            },
            (TurnWorkerState::ResolvingResumeSession { resume }, TurnWorkerEvent::ResumeSessionResolved(s)) => match s {
                Ok(_) => {
                    &&& r.0 == (TurnWorkerState::ResolvingResumeUser { resume })
                    &&& r.1 matches TurnWorkerAction::ResolveResumeUser { message_id } && message_id == resume.message_id
                },
                Err(e) => {
                    &&& r.0 == TurnWorkerState::DrainingResumes
                    &&& r.1 matches TurnWorkerAction::FinishResume { resume_id, follow_up }
                    &&& resume_id == resume.id
                    &&& follow_up.mark == (JobMark::Failed { error: e })
                    &&& follow_up.announce is None
                },
            },
            (TurnWorkerState::ResolvingResumeUser { resume }, TurnWorkerEvent::ResumeUserResolved(u)) => match u {
                Ok(user_id) => {
                    &&& r.0 == (TurnWorkerState::RunningResume { resume, user_id })
                    &&& r.1 matches TurnWorkerAction::RunResume { resume: q, user_id: v } && q == resume && v == user_id
                },
                Err(e) => {
                    &&& r.0 == TurnWorkerState::DrainingResumes
                    &&& r.1 matches TurnWorkerAction::FinishResume { resume_id, follow_up }
                    &&& resume_id == resume.id
                    &&& follow_up.mark == (JobMark::Failed { error: e })
                    &&& follow_up.announce is None
                },
            },
            (TurnWorkerState::RunningResume { resume, user_id: _ }, TurnWorkerEvent::ResumeProcessed(p)) => {
                &&& r.0 == TurnWorkerState::DrainingResumes
                &&& r.1 matches TurnWorkerAction::FinishResume { resume_id, follow_up }
                &&& resume_id == resume.id
                &&& match p {
                    Ok((session_id, message_id)) => {
                        &&& follow_up.mark == JobMark::Completed
                        &&& follow_up.announce matches Some((s, StreamEnvelope::TurnCompleted { turn_job_id: t, message_id: m }))
                        &&& s == session_id
                        &&& t == NIL_ID
                        &&& m == announced_message(message_id)
                    },
                    Err(e) => follow_up.mark == (JobMark::Failed { error: e }) && follow_up.announce is None,
                }
            },
            _ => r.0 == TurnWorkerState::Waiting && r.1 is Wait,
        },
{
    match (state, event) {
        (TurnWorkerState::Waiting, TurnWorkerEvent::Woke) => (TurnWorkerState::DrainingTurns, TurnWorkerAction::ClaimTurn),
        (TurnWorkerState::DrainingTurns, TurnWorkerEvent::TurnClaimed(c)) => match c {
            Ok(Some(job)) => {
                let sender = job.sender_channel_identity_id;
                (TurnWorkerState::ResolvingTurnUser { job }, TurnWorkerAction::ResolveTurnUser { sender_channel_identity_id: sender })
            },
            _ => (TurnWorkerState::DrainingResumes, TurnWorkerAction::ClaimResume),
        },
        (TurnWorkerState::ResolvingTurnUser { job }, TurnWorkerEvent::TurnUserResolved(u)) => match u {
            Ok(user_id) => {
                let next = TurnWorkerState::RunningTurn { job: copy_job(&job), user_id };
                (next, TurnWorkerAction::RunTurn { job, user_id })
            },
            Err(e) => {
                let follow_up = turn_job_follow_up(job.id, job.session_id, QueuedJobOutcome::Unresolved(e));
                (TurnWorkerState::DrainingTurns, TurnWorkerAction::FinishTurn { job_id: job.id, follow_up })
            },
        },
        (TurnWorkerState::RunningTurn { job, user_id: _ }, TurnWorkerEvent::TurnProcessed(p)) => {
            let outcome = match p {
                Ok(message_id) => QueuedJobOutcome::Processed { session_id: job.session_id, message_id },
                Err(e) => QueuedJobOutcome::Failed(e),
            };
            let follow_up = turn_job_follow_up(job.id, job.session_id, outcome);
            (TurnWorkerState::DrainingTurns, TurnWorkerAction::FinishTurn { job_id: job.id, follow_up })
        },
        (TurnWorkerState::DrainingResumes, TurnWorkerEvent::ResumeClaimed(c)) => match c {
            Ok(Some(resume)) => {
                let message_id = resume.message_id;
                (TurnWorkerState::ResolvingResumeSession { resume }, TurnWorkerAction::ResolveResumeSession { message_id })
            },
            _ => (TurnWorkerState::Waiting, TurnWorkerAction::Wait),
        },
        (TurnWorkerState::ResolvingResumeSession { resume }, TurnWorkerEvent::ResumeSessionResolved(s)) => match s {
            Ok(_) => {
                let message_id = resume.message_id;
                (TurnWorkerState::ResolvingResumeUser { resume }, TurnWorkerAction::ResolveResumeUser { message_id })
            },
            Err(e) => {
                let follow_up = approval_resume_follow_up(QueuedJobOutcome::Unresolved(e));
                (TurnWorkerState::DrainingResumes, TurnWorkerAction::FinishResume { resume_id: resume.id, follow_up })
            },
        },
        (TurnWorkerState::ResolvingResumeUser { resume }, TurnWorkerEvent::ResumeUserResolved(u)) => match u {
            Ok(user_id) => {
                let next = TurnWorkerState::RunningResume { resume: copy_resume(&resume), user_id };
                (next, TurnWorkerAction::RunResume { resume, user_id })
            },
            Err(e) => {
                let follow_up = approval_resume_follow_up(QueuedJobOutcome::Unresolved(e));
                (TurnWorkerState::DrainingResumes, TurnWorkerAction::FinishResume { resume_id: resume.id, follow_up })
            },
        },
        (TurnWorkerState::RunningResume { resume, user_id: _ }, TurnWorkerEvent::ResumeProcessed(p)) => {
            let outcome = match p {
                Ok((session_id, message_id)) => QueuedJobOutcome::Processed { session_id, message_id },
                Err(e) => QueuedJobOutcome::Failed(e),
            };
            let follow_up = approval_resume_follow_up(outcome);
            (TurnWorkerState::DrainingResumes, TurnWorkerAction::FinishResume { resume_id: resume.id, follow_up })
        },
        _ => (TurnWorkerState::Waiting, TurnWorkerAction::Wait),
    }
}

} // verus!
