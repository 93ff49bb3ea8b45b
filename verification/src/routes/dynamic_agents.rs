use vstd::prelude::*;

use crate::routes::{api_error, is_error, ApiError, BAD_REQUEST};
use crate::text::{blank, is_blank, str_eq};

verus! {

/// An agent an administrator defines: its prompt, how the router recognises requests for it,
/// the tools it may use and what it may do.
#[derive(Debug, Clone)]
pub struct DynamicAgentRequest {
    pub name: String,
    pub system_prompt: String,
    pub intent_label: String,
    pub intent_description: String,
    pub granted_tools: Vec<String>,
    pub supports_todos: bool,
    pub supports_plans: bool,
    pub can_delegate: bool,
}

/// Whether `name` is one of `known`.
pub open spec fn known_name(known: Seq<String>, name: Seq<char>) -> bool {
    exists|i: int| 0 <= i < known.len() && (#[trigger] known[i])@ == name
}

/// Why an agent definition is refused, checked in this order: a blank name, prompt, intent
/// label or intent description; a granted tool the catalog does not know.
pub open spec fn dynamic_agent_problem(req: DynamicAgentRequest, known: Seq<String>) -> Option<Seq<char>> {
    if is_blank(req.name@) {
        Some("name is required"@)
    } else if is_blank(req.system_prompt@) {
        Some("system_prompt is required"@)
    } else if is_blank(req.intent_label@) {
        Some("intent_label is required"@)
    } else if is_blank(req.intent_description@) {
        Some("intent_description is required"@)
    } else if exists|i: int| 0 <= i < req.granted_tools@.len() && !known_name(known, (#[trigger] req.granted_tools@[i])@) {
        Some("granted_tools contains an unrecognized tool name"@)
    } else {
        None
    }
}

fn is_known(known: &Vec<String>, name: &str) -> (r: bool)
    ensures
        r == known_name(known@, name@),
{
    let mut i: usize = 0;
    while i < known.len()
        invariant
            i <= known@.len(),
            forall|j: int| 0 <= j < i ==> (#[trigger] known@[j])@ != name@,
        decreases known.len() - i,
    {
        if str_eq(known[i].as_str(), name) {
            return true;
        }
        i = i + 1;
    }
    false
}

/// Checks an agent definition against the tool catalog's names (400 with the problem).
pub fn validate_request(req: &DynamicAgentRequest, known_tools: &Vec<String>) -> (r: Result<(), ApiError>)
    ensures
        match dynamic_agent_problem(*req, known_tools@) {
            Some(m) => r matches Err(e) && is_error(e, BAD_REQUEST, m),
            None => r is Ok,
        },
{
    if blank(req.name.as_str()) {
        return Err(api_error(BAD_REQUEST, "name is required"));
    }
    if blank(req.system_prompt.as_str()) {
        return Err(api_error(BAD_REQUEST, "system_prompt is required"));
    }
    if blank(req.intent_label.as_str()) {
        return Err(api_error(BAD_REQUEST, "intent_label is required"));
    }
    if blank(req.intent_description.as_str()) {
        return Err(api_error(BAD_REQUEST, "intent_description is required"));
    }
    let mut i: usize = 0;
    while i < req.granted_tools.len()
        invariant
            !is_blank(req.name@),
            !is_blank(req.system_prompt@),
            !is_blank(req.intent_label@),
            !is_blank(req.intent_description@),
            i <= req.granted_tools@.len(),
            forall|j: int| 0 <= j < i ==> known_name(known_tools@, (#[trigger] req.granted_tools@[j])@),
        decreases req.granted_tools.len() - i,
    {
        if !is_known(known_tools, req.granted_tools[i].as_str()) {
            assert(!known_name(known_tools@, req.granted_tools@[i as int]@));
            return Err(api_error(BAD_REQUEST, "granted_tools contains an unrecognized tool name"));
        }
        i = i + 1;
    }
    Ok(())
}

} // verus!

verus! {

/// An administrator-defined agent as stored.
#[derive(Debug, Clone)]
pub struct DynamicAgentResponse {
    pub id: u128,
    pub name: String,
    pub system_prompt: String,
    pub intent_label: String,
    pub intent_description: String,
    pub granted_tools: Vec<String>,
    pub supports_todos: bool,
    pub supports_plans: bool,
    pub can_delegate: bool,
    pub is_active: bool,
}

} // verus!
