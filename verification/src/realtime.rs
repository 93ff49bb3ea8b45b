use vstd::prelude::*;

use crate::ids::{parse_uuid, uuid_from_text};
use crate::llm::types::StreamEvent;
use crate::text::{after_prefix, before_suffix, strip_prefix, strip_suffix};

verus! {

/// What the server publishes on a chat's stream topic. Identifiers are UUIDs, held as their
/// 128-bit values.
#[derive(Debug, Clone)]
pub enum StreamEnvelope {
    Delta { turn_job_id: u128, event: StreamEvent },
    TurnCompleted { turn_job_id: u128, message_id: u128 },
    TurnFailed { turn_job_id: u128, error: String },
    AgentDelegationUpdated { delegation_id: u128 },
    /// A brand-new message landed.
    MessageCreated { message_id: u128 },
    /// An existing message's content changed in place.
    MessageUpdated { message_id: u128 },
    /// An agent's live status changed; `detail` names the tool while one is being called.
    AgentPhaseChanged { agent_session_id: u128, phase: String, detail: Option<String> },
    /// An agent started working.
    AgentSessionStarted {
        agent_session_id: u128,
        session_id: u128,
        agent_type: String,
        agent_display_name: String,
        channel: String,
        sender_label: String,
    },
    /// An agent stopped: `reason` is "completed", "cancelled" or "expired".
    AgentSessionEnded { agent_session_id: u128, session_id: u128, reason: String },
}

/// What an administrator's live view is sent: agent lifecycle only, never message content.
#[derive(Debug, Clone)]
pub enum AdminStreamFrame {
    AgentSessionStarted {
        agent_session_id: u128,
        session_id: u128,
        agent_type: String,
        agent_display_name: String,
        channel: String,
        sender_label: String,
    },
    AgentSessionEnded { agent_session_id: u128, session_id: u128, reason: String },
    AgentPhaseChanged { agent_session_id: u128, session_id: u128, phase: String, detail: Option<String> },
}

/// The session a `chat/{session_id}/stream` topic belongs to.
pub open spec fn topic_session(topic: Seq<char>) -> Option<u128> {
    match after_prefix(topic, "chat/"@) {
        Some(rest) => match before_suffix(rest, "/stream"@) {
            Some(id) => uuid_from_text(id),
            None => None,
        },
        None => None,
    }
}

/// Reads the session id out of a `chat/{session_id}/stream` topic.
pub fn session_id_from_topic(topic: &str) -> (r: Option<u128>)
    ensures
        r == topic_session(topic@),
{
    let rest = strip_prefix(topic, "chat/")?;
    let id = strip_suffix(rest.as_str(), "/stream")?;
    parse_uuid(id.as_str())
}

/// The frame an administrator sees for an envelope published on the topic of session
/// `topic_session_id`: the three agent lifecycle kinds pass (a phase change learning its session
/// from the topic); every other kind, and with it every message's content, is held back.
pub fn admin_frame_for(topic_session_id: u128, envelope: StreamEnvelope) -> (r: Option<AdminStreamFrame>)
    ensures
        match envelope {
            StreamEnvelope::AgentSessionStarted {
                agent_session_id,
                session_id,
                agent_type,
                agent_display_name,
                channel,
                sender_label,
            } => r == Some(AdminStreamFrame::AgentSessionStarted {
                agent_session_id,
                session_id,
                agent_type,
                agent_display_name,
                channel,
                sender_label,
            }),
            StreamEnvelope::AgentSessionEnded { agent_session_id, session_id, reason } => r == Some(
                AdminStreamFrame::AgentSessionEnded { agent_session_id, session_id, reason },
            ),
            StreamEnvelope::AgentPhaseChanged { agent_session_id, phase, detail } => r == Some(
                AdminStreamFrame::AgentPhaseChanged {
                    agent_session_id,
                    session_id: topic_session_id,
                    phase,
                    detail,
                },
            ),
            _ => r is None,
        },
{
    match envelope {
        StreamEnvelope::AgentSessionStarted {
            agent_session_id,
            session_id,
            agent_type,
            agent_display_name,
            channel,
            sender_label,
        } => Some(
            AdminStreamFrame::AgentSessionStarted {
                agent_session_id,
                session_id,
                agent_type,
                agent_display_name,
                channel,
                sender_label,
            },
        ),
        StreamEnvelope::AgentSessionEnded { agent_session_id, session_id, reason } => Some(
            AdminStreamFrame::AgentSessionEnded { agent_session_id, session_id, reason },
        ),
        StreamEnvelope::AgentPhaseChanged { agent_session_id, phase, detail } => Some(
            AdminStreamFrame::AgentPhaseChanged { agent_session_id, session_id: topic_session_id, phase, detail },
        ),
        _ => None,
    }
}

} // verus!
