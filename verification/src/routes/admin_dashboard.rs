use vstd::prelude::*;

use crate::text::{clone_opt, join2};
use crate::time::UtcInstant;

verus! {

/// The administrators' overview figures.
#[derive(Debug, Clone, Copy, PartialEq, Eq)]
pub struct DashboardResponse {
    pub total_users: i64,
    pub tokens_today: i64,
    pub tokens_all_time: i64,
    pub running_agents: i64,
}

/// How many agent events a page lists: 50 unless asked, and between 1 and 200.
pub fn agent_events_limit(limit: Option<i64>) -> (r: i64)
    ensures
        r == match limit {
            Some(l) => if l < 1 { 1 } else if l > 200 { 200 } else { l },
            None => 50,
        },
{
    let l = match limit {
        Some(l) => l,
        None => 50,
    };
    if l < 1 {
        1
    } else if l > 200 {
        200
    } else {
        l
    }
}

/// An active agent as loaded: its user, the user's email (if they have one), the channel and
/// the user's identity on it, then the agent session's id, type, start, last activity, phase
/// and phase detail. Rows come ordered by user.
pub type RunningAgentRow = (
    u128,
    Option<String>,
    String,
    String,
    u128,
    String,
    UtcInstant,
    UtcInstant,
    String,
    Option<String>,
);

/// One active agent on the command center.
#[derive(Debug, Clone, PartialEq, Eq)]
pub struct RunningAgentItem {
    pub agent_session_id: u128,
    pub agent_type: String,
    pub channel: String,
    pub started_at: UtcInstant,
    pub last_activity_at: UtcInstant,
    pub current_phase: String,
    pub current_phase_detail: Option<String>,
}

/// One user's active agents.
#[derive(Debug, Clone)]
pub struct UserAgentGroup {
    pub user_id: u128,
    /// The user's email, or "channel:identity" for a user without one.
    pub label: String,
    pub agents: Vec<RunningAgentItem>,
}

/// The mathematical value of a group.
pub struct GroupModel {
    pub user_id: u128,
    pub label: Seq<char>,
    pub agents: Seq<RunningAgentItem>,
}

pub open spec fn group_view(g: UserAgentGroup) -> GroupModel {
    GroupModel { user_id: g.user_id, label: g.label@, agents: g.agents@ }
}

/// The agent a row shows.
pub open spec fn agent_item(r: RunningAgentRow) -> RunningAgentItem {
    RunningAgentItem {
        agent_session_id: r.4,
        agent_type: r.5,
        channel: r.2,
        started_at: r.6,
        last_activity_at: r.7,
        current_phase: r.8,
        current_phase_detail: r.9,
    }
}

/// The label of the group a row starts.
pub open spec fn group_label(r: RunningAgentRow) -> Seq<char> {
    match r.1 {
        Some(e) => e@,
        None => r.2@ + ":"@ + r.3@,
    }
}

/// Rows gathered into groups: a row joins the group before it when that group is its user's,
/// and starts a new group otherwise.
pub open spec fn grouped(rows: Seq<RunningAgentRow>) -> Seq<GroupModel>
    decreases rows.len(),
{
    if rows.len() == 0 {
        Seq::empty()
    } else {
        let g = grouped(rows.drop_last());
        let r = rows.last();
        if g.len() > 0 && g.last().user_id == r.0 {
            g.update(
                g.len() - 1,
                GroupModel { user_id: g.last().user_id, label: g.last().label, agents: g.last().agents.push(agent_item(r)) },
            )
        } else {
            g.push(GroupModel { user_id: r.0, label: group_label(r), agents: seq![agent_item(r)] })
        }
    }
}

fn row_item(r: &RunningAgentRow) -> (a: RunningAgentItem)
    ensures
        a == agent_item(*r),
{
    RunningAgentItem {
        agent_session_id: r.4,
        agent_type: r.5.clone(),
        channel: r.2.clone(),
        started_at: r.6,
        last_activity_at: r.7,
        current_phase: r.8.clone(),
        current_phase_detail: clone_opt(&r.9),
    }
}

fn row_label(r: &RunningAgentRow) -> (l: String)
    ensures
        l@ == group_label(*r),
{
    match &r.1 {
        Some(e) => e.clone(),
        None => {
            let a = join2(r.2.as_str(), ":");
            join2(a.as_str(), r.3.as_str())
        },
    }
}

/// Gathers the active agents, ordered by user, into one group per user.
pub fn group_running_agents(rows: &Vec<RunningAgentRow>) -> (groups: Vec<UserAgentGroup>)
    ensures
        groups@.map_values(|g: UserAgentGroup| group_view(g)) == grouped(rows@),
{
    let mut groups: Vec<UserAgentGroup> = Vec::new();
    let mut i: usize = 0;
    while i < rows.len()
        invariant
            i <= rows@.len(),
            groups@.map_values(|g: UserAgentGroup| group_view(g)) == grouped(rows@.take(i as int)),
        decreases rows.len() - i,
    {
        let ghost before = groups@.map_values(|g: UserAgentGroup| group_view(g));
        let r = &rows[i];
        assert(rows@.take(i + 1).drop_last() =~= rows@.take(i as int));
        assert(rows@.take(i + 1).last() == rows@[i as int]);
        let item = row_item(r);
        let joins = groups.len() > 0 && groups[groups.len() - 1].user_id == r.0;
        if joins {
            let mut g = groups.pop().unwrap();
            g.agents.push(item);
            groups.push(g);
            assert(groups@.map_values(|g: UserAgentGroup| group_view(g)) =~= before.update(
                before.len() - 1,
                GroupModel {
                    user_id: before.last().user_id,
                    label: before.last().label,
                    agents: before.last().agents.push(agent_item(rows@[i as int])),
                },
            ));
        } else {
            let label = row_label(r);
            let mut agents: Vec<RunningAgentItem> = Vec::new();
            agents.push(item);
            assert(agents@ =~= seq![agent_item(rows@[i as int])]);
            groups.push(UserAgentGroup { user_id: r.0, label, agents });
            assert(groups@.map_values(|g: UserAgentGroup| group_view(g)) =~= before.push(
                GroupModel { user_id: rows@[i as int].0, label: group_label(rows@[i as int]), agents: seq![agent_item(rows@[i as int])] },
            ));
        }
        i = i + 1;
    }
    assert(rows@.take(rows@.len() as int) =~= rows@);
    groups
}

/// Every agent of every group, group after group.
pub open spec fn all_agents(gs: Seq<GroupModel>) -> Seq<RunningAgentItem>
    decreases gs.len(),
{
    if gs.len() == 0 {
        Seq::empty()
    } else {
        all_agents(gs.drop_last()) + gs.last().agents
    }
}

proof fn lemma_all_agents_update_last(gs: Seq<GroupModel>, g: GroupModel)
    requires
        gs.len() > 0,
    ensures
        all_agents(gs.update(gs.len() - 1, g)) == all_agents(gs.drop_last()) + g.agents,
{
    assert(gs.update(gs.len() - 1, g).drop_last() =~= gs.drop_last());
}

/// Grouping loses and reorders no agent: the groups' agents, one group after another, are the
/// rows' agents in order; no group is empty; and neighbouring groups belong to different users.
pub proof fn lemma_grouping_keeps_every_agent(rows: Seq<RunningAgentRow>)
    ensures
        all_agents(grouped(rows)) == rows.map_values(|r: RunningAgentRow| agent_item(r)),
        forall|k: int| 0 <= k < grouped(rows).len() ==> (#[trigger] grouped(rows)[k]).agents.len() > 0,
        forall|k: int| 0 <= k < grouped(rows).len() - 1 ==> (#[trigger] grouped(rows)[k]).user_id != grouped(rows)[k + 1].user_id,
    decreases rows.len(),
{
    if rows.len() > 0 {
        let front = rows.drop_last();
        lemma_grouping_keeps_every_agent(front);
        let g = grouped(front);
        let r = rows.last();
        assert(rows.map_values(|r: RunningAgentRow| agent_item(r)) =~= front.map_values(|r: RunningAgentRow| agent_item(r)).push(agent_item(r)));
        if g.len() > 0 && g.last().user_id == r.0 {
            let last = GroupModel { user_id: g.last().user_id, label: g.last().label, agents: g.last().agents.push(agent_item(r)) };
            lemma_all_agents_update_last(g, last);
            assert(all_agents(g) == all_agents(g.drop_last()) + g.last().agents);
            assert(all_agents(g.drop_last()) + g.last().agents.push(agent_item(r)) =~= (all_agents(g.drop_last()) + g.last().agents).push(agent_item(r)));
        } else {
            let fresh = GroupModel { user_id: r.0, label: group_label(r), agents: seq![agent_item(r)] };
            assert(g.push(fresh).drop_last() =~= g);
            assert(all_agents(g) + seq![agent_item(r)] =~= all_agents(g).push(agent_item(r)));
        }
    }
}

} // verus!

verus! {

/// Every user's active agents.
#[derive(Debug, Clone)]
pub struct AgentsResponse {
    pub users: Vec<UserAgentGroup>,
}

/// Which agent events to list: at most `limit`, optionally of one chat.
#[derive(Debug, Clone, Copy, PartialEq, Eq)]
pub struct AgentEventsQuery {
    pub limit: Option<i64>,
    pub session_id: Option<u128>,
}

/// One agent event as administrators see it: never a tool's input or result, only its name
/// and whether it failed.
#[derive(Debug, Clone)]
pub struct AgentEventItem {
    pub id: u128,
    pub session_id: Option<u128>,
    pub agent_session_id: Option<u128>,
    pub agent_type: Option<String>,
    /// The agent's name as people see it, when it can be resolved.
    pub agent_display_name: Option<String>,
    pub event_type: String,
    pub created_at: UtcInstant,
    pub tool_name: Option<String>,
    pub is_error: Option<bool>,
}

/// An agent event as loaded: id, chat, agent session, agent type, event type, time, tool name
/// and failure flag (read out of the payload, nothing more), and the name of the dynamic agent
/// whose id the agent type holds, if it is one.
pub type AgentEventRow = (
    u128,
    Option<u128>,
    Option<u128>,
    Option<String>,
    String,
    UtcInstant,
    Option<String>,
    Option<bool>,
    Option<String>,
);

/// The name an event's agent shows: a dynamic agent's own name, otherwise the display name of
/// the built-in agent of that type (as the agent registry gives it), when there is one.
pub open spec fn resolved_display_name(dynamic_name: Option<String>, builtin_name: Option<String>) -> Option<String> {
    match dynamic_name {
        Some(n) => Some(n),
        None => builtin_name,
    }
}

/// An agent event as administrators see it, with its agent's resolved display name.
pub fn agent_event_item(row: AgentEventRow, builtin_display_name: Option<String>) -> (item: AgentEventItem)
    ensures
        item.id == row.0,
        item.session_id == row.1,
        item.agent_session_id == row.2,
        item.agent_type == row.3,
        item.agent_display_name == resolved_display_name(row.8, builtin_display_name),
        item.event_type == row.4,
        item.created_at == row.5,
        item.tool_name == row.6,
        item.is_error == row.7,
{
    let (id, session_id, agent_session_id, agent_type, event_type, created_at, tool_name, is_error, dynamic_name) = row;
    let agent_display_name = match dynamic_name {
        Some(n) => Some(n),
        None => builtin_display_name,
    };
    AgentEventItem { id, session_id, agent_session_id, agent_type, agent_display_name, event_type, created_at, tool_name, is_error }
}

} // verus!
