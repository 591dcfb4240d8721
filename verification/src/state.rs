//! The agent's timeline checkpoint.
use vstd::prelude::*;
use vstd::string::*;
use crate::ids::{fresh_uuid, is_random_uuid, uuid_text, uuid_to_text};
use crate::json::{
    append_json_bool, append_json_opt_string, json_bool, json_opt_string, json_quote, json_string,
};

verus! {

/// A single immutable checkpoint in the agent's timeline: the unit that the
/// engine hands from step to step and that the time-travel store persists.
#[derive(Clone, Debug)]
pub struct AgentState {
    /// Identifier of this step, normally the text of a UUID.
    pub step_id: String,
    /// The step this one branched from, if any.
    pub parent_step_id: Option<String>,
    /// The working memory of the agent, as JSON text.
    pub payload: String,
    /// The agent must wait for a human before going on.
    pub requires_human_approval: bool,
    /// The task is done.
    pub is_finished: bool,
}

/// The text of an optional string.
pub open spec fn opt_text(s: Option<String>) -> Option<Seq<char>> {
    match s {
        Some(t) => Some(t@),
        None => None,
    }
}

impl AgentState {
    /// The JSON object that stands for this state, fields in declaration
    /// order, the payload embedded as it is.
    pub open spec fn json(&self) -> Seq<char> {
        self.json_with_payload(self.payload@)
    }

    /// The JSON object that stands for this state with `payload` written in
    /// place of its payload text.
    pub open spec fn json_with_payload(&self, payload: Seq<char>) -> Seq<char> {
        "{\"step_id\":"@ + json_string(self.step_id@) + ",\"parent_step_id\":"@
            + json_opt_string(opt_text(self.parent_step_id)) + ",\"payload\":"@ + payload
            + ",\"requires_human_approval\":"@ + json_bool(self.requires_human_approval)
            + ",\"is_finished\":"@ + json_bool(self.is_finished) + "}"@
    }

    /// Creates a clean initial state around `payload` (JSON text), under a
    /// fresh random UUID.
    pub fn new_initial(payload: String) -> (s: Self)
        ensures
            exists|u: u128| is_random_uuid(u) && s.step_id@ == uuid_text(u),
            s.parent_step_id is None,
            s.payload@ == payload@,
            !s.requires_human_approval,
            !s.is_finished,
    {
        let id = fresh_uuid();
        let step_id = uuid_to_text(id);
        AgentState {
            step_id,
            parent_step_id: None,
            payload,
            requires_human_approval: false,
            is_finished: false,
        }
    }

    /// Renders this state as a JSON object.
    pub fn to_json(&self) -> (r: String)
        ensures
            r@ == self.json(),
    {
        self.to_json_with_payload(self.payload.as_str())
    }

    /// Renders this state as a JSON object, `payload` written in place of
    /// its payload text.
    pub fn to_json_with_payload(&self, payload: &str) -> (r: String)
        ensures
            r@ == self.json_with_payload(payload@),
    {
        let mut out = String::new();
        out.append("{\"step_id\":");
        let id = json_quote(self.step_id.as_str());
        out.append(id.as_str());
        out.append(",\"parent_step_id\":");
        append_json_opt_string(&mut out, &self.parent_step_id);
        out.append(",\"payload\":");
        out.append(payload);
        out.append(",\"requires_human_approval\":");
        append_json_bool(&mut out, self.requires_human_approval);
        out.append(",\"is_finished\":");
        append_json_bool(&mut out, self.is_finished);
        out.append("}");
        out
    }
}

} // verus!
