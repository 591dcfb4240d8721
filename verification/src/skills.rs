//! Procedural memory: skills distilled from finished agent runs, and the
//! router that finds a stored skill for a task.
use vstd::prelude::*;
use vstd::string::*;
use vstd::utf8::encode_utf8;
use crate::digest::{sha256_hex, sha256_hex_of};
use crate::ids::{fresh_uuid, lemma_uuid_text_reads_back, parse_uuid, utc_now, uuid_parsed, uuid_text, Timestamp};
use crate::json::{canonical_json, json_canonical};
use crate::state::AgentState;
use crate::text::{first_word_or, split_whitespace, texts, words};

verus! {

/// A deterministic action step inside a procedure.
#[derive(Clone, Debug)]
pub struct Step {
    pub id: usize,
    /// Description or exact tool call invocation.
    pub action: String,
    /// Pre-computed or templated parameters for the tool, as JSON text.
    pub parameters: String,
    /// The expected return schema.
    pub expected_output_type: String,
}

/// A safety checkpoint that dictates what happens if an anomaly occurs.
#[derive(Clone, Debug)]
pub struct Guardrail {
    /// Evaluation rule (e.g. "amount > 0").
    pub condition: String,
    /// Action upon failure (e.g. "human_approval", "abort", "fallback").
    pub action_if_fail: String,
}

/// The sequence of instructions of a skill, guarded by safety rules.
#[derive(Clone, Debug)]
pub struct Procedure {
    pub steps: Vec<Step>,
    /// Names of the MCP tools the procedure needs.
    pub required_tools: Vec<String>,
    pub guardrails: Vec<Guardrail>,
    /// Expected tokens saved by not reasoning from scratch.
    pub estimated_tokens_saved: u32,
}

/// How and when a skill gets activated.
#[derive(Clone, Debug)]
pub struct TriggerPattern {
    /// Optional embedding vector for similarity search, each component held
    /// as the bit pattern of its 32-bit float.
    pub embedding_bits: Option<Vec<u32>>,
    /// Hash of the task request that spawned the skill.
    pub task_hash: String,
    /// Keyword heuristics for static routing.
    pub keywords: Vec<String>,
    /// The prompt that spawned the pattern.
    pub example_prompt: String,
}

/// Governance statistics of a skill.
#[derive(Clone, Debug)]
pub struct SkillMetadata {
    /// The share of successful runs, held as the bit pattern of its 32-bit float.
    pub success_rate_bits: u32,
    pub usage_count: u32,
    pub last_used: Option<Timestamp>,
    /// The organization that owns the skill.
    pub owner_tenant: Option<String>,
}

/// A learned procedural memory.
#[derive(Clone, Debug)]
pub struct Skill {
    pub id: u128,
    pub name: String,
    /// Semantic version, e.g. "1.2.3".
    pub version: String,
    pub description: String,
    pub created_at: Timestamp,
    /// The trace of the run the skill was distilled from.
    pub source_trace_id: u128,
    pub trigger_pattern: TriggerPattern,
    pub procedure: Procedure,
    pub metadata: SkillMetadata,
    /// Hex SHA-256 over the task and the final state, against tampering.
    pub checksum: String,
}

/// The hash under which a task is routed: the lowercase hex SHA-256 of its
/// UTF-8 bytes.
pub open spec fn task_hash(task: Seq<char>) -> Seq<char> {
    sha256_hex(encode_utf8(task))
}

/// Computes the routing hash of a task.
pub fn compute_task_hash(task: &str) -> (r: String)
    ensures
        r@ == task_hash(task@),
        r@.len() == 64,
{
    sha256_hex_of(task.as_bytes())
}

/// The state's JSON text as `serde_json` writes it: its payload in the
/// canonical form (compact, object keys sorted); nothing when the payload
/// text is not JSON.
pub open spec fn canonical_state_json(state: AgentState) -> Option<Seq<char>> {
    match json_canonical(state.payload@) {
        Some(p) => Some(state.json_with_payload(p)),
        None => None,
    }
}

/// The integrity checksum of a skill distilled from `task` and a state whose
/// canonical JSON text is `state_json`: the lowercase hex SHA-256 of the
/// task's UTF-8 bytes followed by those of the state's JSON text.
pub open spec fn skill_checksum(task: Seq<char>, state_json: Seq<char>) -> Seq<char> {
    sha256_hex(encode_utf8(task) + encode_utf8(state_json))
}

/// The bit pattern of the 32-bit float 1.0.
pub open spec fn one_f32_bits() -> u32 {
    0x3f80_0000
}

/// The procedure every extracted skill carries: one step that replays the
/// observed tool calls, no required tools, a human-approval guardrail, and
/// an estimate of 1200 tokens saved.
pub open spec fn is_distilled_procedure(p: Procedure) -> bool {
    &&& p.steps@.len() == 1
    &&& p.steps@[0].id == 1
    &&& p.steps@[0].action@ == "Execute observed tool calls"@
    &&& p.steps@[0].parameters@ == "{}"@
    &&& p.steps@[0].expected_output_type@ == "json"@
    &&& p.required_tools@.len() == 0
    &&& p.guardrails@.len() == 1
    &&& p.guardrails@[0].condition@ == "requires human approval"@
    &&& p.guardrails@[0].action_if_fail@ == "human_approval"@
    &&& p.estimated_tokens_saved == 1200
}

/// The skill distilled from `task` and a state whose canonical JSON text is
/// `state_json`, whose trace is `trace_id`; the id and the creation time are
/// left open.
pub open spec fn is_extracted_skill(s: Skill, task: Seq<char>, state_json: Seq<char>, trace_id: u128) -> bool {
    &&& s.name@ == "auto_skill_"@ + first_word_or(task, "task"@)
    &&& s.version@ == "1.0.0"@
    &&& s.description@ == "Automatically extracted skill from task: "@ + task
    &&& s.source_trace_id == trace_id
    &&& s.trigger_pattern.embedding_bits is None
    &&& s.trigger_pattern.task_hash@ == task_hash(task)
    &&& texts(s.trigger_pattern.keywords@) == words(task)
    &&& s.trigger_pattern.example_prompt@ == task
    &&& is_distilled_procedure(s.procedure)
    &&& s.metadata.success_rate_bits == one_f32_bits()
    &&& s.metadata.usage_count == 0
    &&& s.metadata.last_used is None
    &&& s.metadata.owner_tenant is None
    &&& s.checksum@ == skill_checksum(task, state_json)
}

/// Distills finished runs into skills.
pub struct SkillEngine;

impl SkillEngine {
    /// Distills `final_state`, the end of the run of `raw_task`, into a skill.
    /// An unfinished run, one whose step id is not a UUID, or one whose
    /// payload is not JSON (so that no checksum can be computed) yields
    /// nothing: a skill never hides corrupt provenance.
    pub fn extract_skill(raw_task: &str, final_state: &AgentState) -> (r: Option<Skill>)
        ensures
            !final_state.is_finished ==> r is None,
            final_state.is_finished ==> match uuid_parsed(final_state.step_id@) {
                None => r is None,
                Some(trace_id) => match canonical_state_json(*final_state) {
                    None => r is None,
                    Some(state_json) => r matches Some(s) && is_extracted_skill(s, raw_task@, state_json, trace_id),
                },
            },
            final_state.is_finished && (exists|u: u128| final_state.step_id@ == uuid_text(u))
                && canonical_state_json(*final_state) is Some ==> r is Some,
            r matches Some(s) ==> s.checksum@.len() == 64 && s.trigger_pattern.task_hash@.len() == 64,
    {
        if !final_state.is_finished {
            return None;
        }
        proof {
            if exists|u: u128| final_state.step_id@ == uuid_text(u) {
                let u = choose|u: u128| final_state.step_id@ == uuid_text(u);
                lemma_uuid_text_reads_back(u);
            }
        }
        let trace_id = match parse_uuid(final_state.step_id.as_str()) {
            Some(id) => id,
            None => {
                return None;
            },
        };
        let procedure = Self::distill_procedure(final_state);
        let checksum = match Self::compute_checksum(raw_task, final_state) {
            Some(c) => c,
            None => {
                return None;
            },
        };
        let keywords = split_whitespace(raw_task);
        let mut name = String::new();
        name.append("auto_skill_");
        if keywords.len() > 0 {
            name.append(keywords[0].as_str());
        } else {
            name.append("task");
        }
        let mut version = String::new();
        version.append("1.0.0");
        let mut description = String::new();
        description.append("Automatically extracted skill from task: ");
        description.append(raw_task);
        let skill = Skill {
            id: fresh_uuid(),
            name,
            version,
            description,
            created_at: utc_now(),
            source_trace_id: trace_id,
            trigger_pattern: TriggerPattern {
                embedding_bits: None,
                task_hash: compute_task_hash(raw_task),
                keywords,
                example_prompt: raw_task.to_owned(),
            },
            procedure,
            metadata: SkillMetadata {
                success_rate_bits: 0x3f80_0000,
                usage_count: 0,
                last_used: None,
                owner_tenant: None,
            },
            checksum,
        };
        Some(skill)
    }

    /// The procedural manual of a finished run.
    fn distill_procedure(final_state: &AgentState) -> (r: Procedure)
        ensures
            is_distilled_procedure(r),
    {
        let mut action = String::new();
        action.append("Execute observed tool calls");
        let mut parameters = String::new();
        parameters.append("{}");
        let mut expected_output_type = String::new();
        expected_output_type.append("json");
        let mut steps: Vec<Step> = Vec::new();
        steps.push(Step { id: 1, action, parameters, expected_output_type });
        let mut condition = String::new();
        condition.append("requires human approval");
        let mut action_if_fail = String::new();
        action_if_fail.append("human_approval");
        let mut guardrails: Vec<Guardrail> = Vec::new();
        guardrails.push(Guardrail { condition, action_if_fail });
        Procedure { steps, required_tools: Vec::new(), guardrails, estimated_tokens_saved: 1200 }
    }

    /// The integrity checksum over the task and the final state's canonical
    /// JSON text; nothing when the state's payload is not JSON.
    fn compute_checksum(raw_task: &str, final_state: &AgentState) -> (r: Option<String>)
        ensures
            match canonical_state_json(*final_state) {
                None => r is None,
                Some(state_json) => r matches Some(c) && c@ == skill_checksum(raw_task@, state_json)
                    && c@.len() == 64,
            },
    {
        let payload = match canonical_json(final_state.payload.as_str()) {
            Some(p) => p,
            None => {
                return None;
            },
        };
        let state_json = final_state.to_json_with_payload(payload.as_str());
        let task_bytes = raw_task.as_bytes();
        let json_bytes = state_json.as_str().as_bytes();
        let mut bytes: Vec<u8> = Vec::new();
        bytes.extend_from_slice(task_bytes);
        assert(bytes@ =~= task_bytes@);
        let ghost first = bytes@;
        bytes.extend_from_slice(json_bytes);
        assert(bytes@ =~= first + json_bytes@);
        Some(sha256_hex_of(bytes.as_slice()))
    }
}

/// Searches stored skills. The store of a deployment implements it; the
/// spec functions say which answers an implementation may give.
pub trait SkillStore {
    /// `r` is an answer this store may give for the task hash `hash`; a store
    /// that says nothing more may give any answer.
    open spec fn answers_hash(&self, hash: Seq<char>, r: Option<Skill>) -> bool {
        true
    }

    /// `r` is an answer this store may give for the embedding `embedding`; a
    /// store that says nothing more may give any answer.
    open spec fn answers_similarity(&self, embedding: Seq<u32>, r: Option<Skill>) -> bool {
        true
    }

    /// Finds the skill stored under a task hash.
    fn find_by_hash(&self, hash: &str) -> (r: Option<Skill>)
        ensures
            self.answers_hash(hash@, r),
    ;

    /// Finds the skill closest to an embedding (components as float bits).
    fn find_by_similarity(&self, embedding: &[u32]) -> (r: Option<Skill>)
        ensures
            self.answers_similarity(embedding@, r),
    ;
}

/// Matches tasks to stored skills.
pub struct SkillRouter<S: SkillStore> {
    store: S,
}

impl<S: SkillStore> SkillRouter<S> {
    /// The store searched.
    pub closed spec fn store(&self) -> S {
        self.store
    }

    /// A router over `store`.
    pub fn new(store: S) -> (r: Self)
        ensures
            r.store() == store,
    {
        SkillRouter { store }
    }

    /// Finds a skill for `input_task`: the store is asked for the task's hash,
    /// and its answer is returned.
    pub fn route(&self, input_task: &str, current_state: Option<&AgentState>) -> (r: Option<Skill>)
        ensures
            self.store().answers_hash(task_hash(input_task@), r),
    {
        let hash = compute_task_hash(input_task);
        self.store.find_by_hash(hash.as_str())
    }
}

} // verus!
