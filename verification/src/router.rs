//! The decisions of MCP tool dispatch. A dispatch resolves the tool in the
//! registry, asks the policy engine, runs the tool in the sandbox and records
//! the step with its evidence; each outside step is performed by the caller,
//! who hands its outcome to the next method of `DispatchFlow` and performs
//! the action it returns, until a `Respond` or `Fail` action ends the dispatch.
use vstd::prelude::*;
use vstd::string::*;
use crate::ids::{fresh_uuid, is_random_uuid, utc_now};
use crate::json::{append_json_bool, json_bool, json_quote, json_string, json_string_value, lemma_json_string_reads_back};
use crate::models::AgentStep;
use crate::policy::{policy_error_message, PolicyDecision, PolicyError};
use crate::protocol::{result_json, wrap_result, McpRequest, McpResponse};
use crate::registry::{RegistryError, ToolArtifact};
use crate::sandbox::SandboxLimits;

verus! {

/// The policy under which every tool invocation is evaluated.
pub open spec fn tool_policy_path() -> Seq<char> {
    "mcp/tool/allow"@
}

/// The evidence recorded with an executed tool call, keys in sorted order.
pub open spec fn tool_calls_json(tool_name: Seq<char>, artifact_sha256: Seq<char>, allowed: bool, reason: Seq<char>) -> Seq<char> {
    "{\"artifact_sha256\":"@ + json_string(artifact_sha256) + ",\"policy_allowed\":"@ + json_bool(allowed)
        + ",\"policy_path\":\"mcp/tool/allow\",\"policy_reason\":"@ + json_string(reason)
        + ",\"tool_name\":"@ + json_string(tool_name) + "}"@
}

/// The recorded evidence of a tool call is a JSON object whose members read
/// back as exactly what was recorded, whatever the texts hold: the
/// artifact's digest, whether the policy allowed the call, the policy
/// evaluated, the engine's reason and the tool's name.
pub proof fn lemma_tool_calls_evidence_reads_back(tool_name: Seq<char>, artifact_sha256: Seq<char>, allowed: bool, reason: Seq<char>)
    ensures
        exists|sha: Seq<char>, why: Seq<char>, name: Seq<char>|
            #![trigger json_string_value(sha), json_string_value(why), json_string_value(name)]
            {
                &&& tool_calls_json(tool_name, artifact_sha256, allowed, reason) == "{\"artifact_sha256\":"@ + sha
                    + ",\"policy_allowed\":"@ + (if allowed { "true"@ } else { "false"@ })
                    + ",\"policy_path\":\"mcp/tool/allow\",\"policy_reason\":"@ + why
                    + ",\"tool_name\":"@ + name + "}"@
                &&& json_string_value(sha) == Some(artifact_sha256)
                &&& json_string_value(why) == Some(reason)
                &&& json_string_value(name) == Some(tool_name)
            },
{
    lemma_json_string_reads_back(artifact_sha256);
    lemma_json_string_reads_back(reason);
    lemma_json_string_reads_back(tool_name);
    let sha = json_string(artifact_sha256);
    let why = json_string(reason);
    let name = json_string(tool_name);
    assert(json_string_value(sha) == Some(artifact_sha256));
    assert(json_string_value(why) == Some(reason));
    assert(json_string_value(name) == Some(tool_name));
}

/// The answer to a request for an unknown tool.
pub open spec fn unknown_tool_message(tool_name: Seq<char>) -> Seq<char> {
    "Unknown or unauthorized internal tool: "@ + tool_name
}

/// The answer when the registry hands back an artifact under another name.
pub open spec fn mismatched_artifact_message() -> Seq<char> {
    "Tool registry returned a mismatched artifact"@
}

/// The answer when the policy engine could not decide.
pub open spec fn failed_closed_message(e: PolicyError) -> Seq<char> {
    "OPAL policy evaluation failed closed: "@ + policy_error_message(e)
}

/// The answer when the policy denies the call.
pub open spec fn denied_message(reason: Seq<char>) -> Seq<char> {
    "OPAL RBAC denied: "@ + reason
}

/// The artifact a registry answer admits for the requested tool: only an
/// artifact found under exactly the requested name.
pub open spec fn admitted(tool_name: Seq<char>, resolved: Result<Option<ToolArtifact>, RegistryError>) -> Option<ToolArtifact> {
    match resolved {
        Ok(Some(a)) => if a.name@ == tool_name { Some(a) } else { None },
        _ => None,
    }
}

/// The bytes that go to the sandbox, given the admitted artifact and the
/// policy engine's answer: only an explicit allow lets them through.
pub open spec fn sandbox_input(held: Option<ToolArtifact>, decided: Result<PolicyDecision, PolicyError>) -> Option<Seq<u8>> {
    match (held, decided) {
        (Some(a), Ok(d)) => if d.allowed { Some(a.wasm_bytes@) } else { None },
        _ => None,
    }
}

/// The artifact a dispatch holds while it waits for the policy engine.
pub open spec fn held_artifact(stage: DispatchStage) -> Option<ToolArtifact> {
    match stage {
        DispatchStage::AwaitingPolicy { artifact } => Some(artifact),
        _ => None,
    }
}

/// No tool reaches the sandbox unless the registry resolved the requested
/// name to an artifact of that name and the policy engine explicitly allowed
/// the call; what runs is that artifact's bytes. In particular an unknown
/// tool never runs, whatever the policy says, and a failed or denying policy
/// evaluation never lets a tool run.
pub proof fn lemma_sandbox_requires_registry_and_allow(
    tool_name: Seq<char>,
    resolved: Result<Option<ToolArtifact>, RegistryError>,
    decided: Result<PolicyDecision, PolicyError>,
)
    ensures
        sandbox_input(admitted(tool_name, resolved), decided) matches Some(bytes) ==> {
            &&& resolved matches Ok(Some(a)) && a.name@ == tool_name && bytes == a.wasm_bytes@
            &&& decided matches Ok(d) && d.allowed
        },
        resolved matches Ok(None) ==> sandbox_input(admitted(tool_name, resolved), decided) is None,
        !(decided matches Ok(d) && d.allowed) ==> sandbox_input(admitted(tool_name, resolved), decided) is None,
{
}

/// A dispatch that ends in error rather than in an answer.
#[derive(Clone, Debug)]
pub enum DispatchError {
    /// The registry failed.
    Registry(RegistryError),
    /// The sandbox refused or trapped the tool, with its message.
    Sandbox(String),
    /// The step could not be persisted, with the store's message.
    Store(String),
}

/// The message of a dispatch error.
pub open spec fn dispatch_error_message(e: DispatchError) -> Seq<char> {
    match e {
        DispatchError::Registry(r) => r.message@,
        DispatchError::Sandbox(m) => m@,
        DispatchError::Store(m) => m@,
    }
}

impl DispatchError {
    /// The human-readable message of this error.
    pub fn message(&self) -> (r: String)
        ensures
            r@ == dispatch_error_message(*self),
    {
        match self {
            DispatchError::Registry(r) => r.message.clone(),
            DispatchError::Sandbox(m) => m.clone(),
            DispatchError::Store(m) => m.clone(),
        }
    }
}

/// What the caller does next for a dispatch.
#[derive(Debug)]
pub enum DispatchAction {
    /// Ask the tool registry for the named tool.
    ResolveTool { tool_name: String },
    /// Ask the policy engine about `input` (JSON text) under `policy_path`.
    EvaluatePolicy { policy_path: String, input: String },
    /// Run the WebAssembly module in the sandbox under `limits`.
    Execute { wasm_bytes: Vec<u8>, limits: SandboxLimits },
    /// Persist the step in the time-travel store.
    Persist { step: AgentStep },
    /// The dispatch is over; answer with this response.
    Respond(McpResponse),
    /// The dispatch is over; it failed with this error.
    Fail(DispatchError),
}

/// Where a dispatch stands.
#[derive(Debug)]
pub enum DispatchStage {
    /// Waiting for the registry.
    AwaitingTool,
    /// Waiting for the policy engine, about the resolved artifact.
    AwaitingPolicy { artifact: ToolArtifact },
    /// Waiting for the sandbox, with the artifact and the decision that allowed it.
    AwaitingExecution { artifact: ToolArtifact, decision: PolicyDecision },
    /// Waiting for the store, with the output to answer with once persisted.
    AwaitingPersist { output: String },
    /// Over.
    Done,
}

/// A failed response with an empty output object and the given message.
pub open spec fn is_refusal(resp: McpResponse, message: Seq<char>) -> bool {
    &&& !resp.success
    &&& resp.output@ == "{}"@
    &&& resp.error_msg matches Some(m) && m@ == message
}

/// One MCP dispatch in progress.
pub struct DispatchFlow {
    request: McpRequest,
    input: String,
    trace_id: u128,
    parent_step_id: u128,
    step_number: i32,
    stage: DispatchStage,
}

impl DispatchFlow {
    /// The flow's invariant: the policy input is the request's JSON; an
    /// artifact awaiting the policy bears the requested name; a tool awaits
    /// execution only under an allowing decision; the output awaiting
    /// persistence is a wrapped tool result.
    #[verifier::type_invariant]
    spec fn well_formed(self) -> bool {
        &&& self.input@ == self.request.json()
        &&& match self.stage {
            DispatchStage::AwaitingPolicy { artifact } => artifact.name@ == self.request.tool_name@,
            DispatchStage::AwaitingExecution { artifact, decision } => {
                &&& artifact.name@ == self.request.tool_name@
                &&& decision.allowed
            },
            _ => true,
        }
    }

    /// The request being dispatched.
    pub closed spec fn request(&self) -> McpRequest {
        self.request
    }

    /// The trace the dispatch belongs to.
    pub closed spec fn trace_id(&self) -> u128 {
        self.trace_id
    }

    /// The step the dispatch follows.
    pub closed spec fn parent_step_id(&self) -> u128 {
        self.parent_step_id
    }

    /// The number of the step the dispatch records.
    pub closed spec fn step_number(&self) -> i32 {
        self.step_number
    }

    /// Where the dispatch stands.
    pub closed spec fn stage(&self) -> DispatchStage {
        self.stage
    }

    /// Starts dispatching `request` as step `step_number` of `trace_id`,
    /// following `parent_step_id`: the registry is asked first.
    pub fn start(request: McpRequest, trace_id: u128, parent_step_id: u128, step_number: i32) -> (r: (DispatchFlow, DispatchAction))
        ensures
            r.0.request() == request,
            r.0.trace_id() == trace_id,
            r.0.parent_step_id() == parent_step_id,
            r.0.step_number() == step_number,
            r.0.stage() is AwaitingTool,
            r.1 matches DispatchAction::ResolveTool { tool_name } && tool_name@ == request.tool_name@,
    {
        let input = request.to_json();
        let tool_name = request.tool_name.clone();
        let flow = DispatchFlow {
            request,
            input,
            trace_id,
            parent_step_id,
            step_number,
            stage: DispatchStage::AwaitingTool,
        };
        (flow, DispatchAction::ResolveTool { tool_name })
    }

    /// Builds a refusal response.
    fn refusal(message: String) -> (r: McpResponse)
        ensures
            is_refusal(r, message@),
    {
        let mut output = String::new();
        output.append("{}");
        McpResponse { success: false, output, error_msg: Some(message) }
    }

    /// Takes the registry's answer. A registry error ends the dispatch in
    /// error; an unknown tool, or an artifact under another name, is refused
    /// without going further; the requested artifact goes to the policy
    /// engine, with the request's JSON as input.
    pub fn on_tool_resolved(&mut self, resolved: Result<Option<ToolArtifact>, RegistryError>) -> (a: DispatchAction)
        requires
            old(self).stage() is AwaitingTool,
        ensures
            final(self).request() == old(self).request(),
            final(self).trace_id() == old(self).trace_id(),
            final(self).parent_step_id() == old(self).parent_step_id(),
            final(self).step_number() == old(self).step_number(),
            held_artifact(final(self).stage()) == admitted(old(self).request().tool_name@, resolved),
            match resolved {
                Err(e) => a matches DispatchAction::Fail(DispatchError::Registry(f)) && f == e
                    && final(self).stage() is Done,
                Ok(None) => a matches DispatchAction::Respond(resp)
                    && is_refusal(resp, unknown_tool_message(old(self).request().tool_name@))
                    && final(self).stage() is Done,
                Ok(Some(artifact)) => if artifact.name@ != old(self).request().tool_name@ {
                    a matches DispatchAction::Respond(resp) && is_refusal(resp, mismatched_artifact_message())
                        && final(self).stage() is Done
                } else {
                    &&& a matches DispatchAction::EvaluatePolicy { policy_path, input }
                        && policy_path@ == tool_policy_path() && input@ == old(self).request().json()
                    &&& final(self).stage() matches DispatchStage::AwaitingPolicy { artifact: held }
                        && held == artifact
                },
            },
    {
        proof {
            use_type_invariant(&*self);
        }
        match resolved {
            Err(e) => {
                self.stage = DispatchStage::Done;
                DispatchAction::Fail(DispatchError::Registry(e))
            },
            Ok(None) => {
                let mut m = String::new();
                m.append("Unknown or unauthorized internal tool: ");
                m.append(self.request.tool_name.as_str());
                self.stage = DispatchStage::Done;
                DispatchAction::Respond(Self::refusal(m))
            },
            Ok(Some(artifact)) => {
                if artifact.name != self.request.tool_name {
                    let mut m = String::new();
                    m.append("Tool registry returned a mismatched artifact");
                    self.stage = DispatchStage::Done;
                    DispatchAction::Respond(Self::refusal(m))
                } else {
                    let mut policy_path = String::new();
                    policy_path.append("mcp/tool/allow");
                    let input = self.input.clone();
                    self.stage = DispatchStage::AwaitingPolicy { artifact };
                    DispatchAction::EvaluatePolicy { policy_path, input }
                }
            },
        }
    }

    /// Takes the policy engine's answer. Without a decision the dispatch
    /// fails closed; a denial is answered with its reason; only an allowing
    /// decision sends the resolved artifact's bytes to the sandbox, under the
    /// dispatch limits.
    pub fn on_policy_decided(&mut self, decided: Result<PolicyDecision, PolicyError>) -> (a: DispatchAction)
        requires
            old(self).stage() is AwaitingPolicy,
        ensures
            final(self).request() == old(self).request(),
            final(self).trace_id() == old(self).trace_id(),
            final(self).parent_step_id() == old(self).parent_step_id(),
            final(self).step_number() == old(self).step_number(),
            match a {
                DispatchAction::Execute { wasm_bytes, .. } => sandbox_input(held_artifact(old(self).stage()), decided)
                    == Some(wasm_bytes@),
                _ => sandbox_input(held_artifact(old(self).stage()), decided) is None,
            },
            old(self).stage() matches DispatchStage::AwaitingPolicy { artifact } && match decided {
                Err(e) => a matches DispatchAction::Respond(resp) && is_refusal(resp, failed_closed_message(e))
                    && final(self).stage() is Done,
                Ok(d) => if !d.allowed {
                    a matches DispatchAction::Respond(resp) && is_refusal(resp, denied_message(d.reason@))
                        && final(self).stage() is Done
                } else {
                    &&& a matches DispatchAction::Execute { wasm_bytes, limits }
                        && wasm_bytes@ == artifact.wasm_bytes@ && limits.max_fuel == 5_000_000
                        && limits.max_memory_bytes == 64 * 1024 * 1024
                    &&& final(self).stage() matches DispatchStage::AwaitingExecution { artifact: held, decision }
                        && held == artifact && decision == d
                },
            },
    {
        proof {
            use_type_invariant(&*self);
        }
        let mut stage = DispatchStage::Done;
        std::mem::swap(&mut stage, &mut self.stage);
        let artifact = match stage {
            DispatchStage::AwaitingPolicy { artifact } => artifact,
            _ => {
                proof {
                    assert(false);
                }
                return DispatchAction::Fail(DispatchError::Store(String::new()));
            },
        };
        match decided {
            Err(e) => {
                let mut m = String::new();
                m.append("OPAL policy evaluation failed closed: ");
                let em = e.message();
                m.append(em.as_str());
                DispatchAction::Respond(Self::refusal(m))
            },
            Ok(d) => {
                if !d.allowed {
                    let mut m = String::new();
                    m.append("OPAL RBAC denied: ");
                    m.append(d.reason.as_str());
                    DispatchAction::Respond(Self::refusal(m))
                } else {
                    let wasm_bytes = artifact.wasm_bytes.clone();
                    assert(wasm_bytes@ =~= artifact.wasm_bytes@);
                    self.stage = DispatchStage::AwaitingExecution { artifact, decision: d };
                    DispatchAction::Execute { wasm_bytes, limits: SandboxLimits::for_tool_dispatch() }
                }
            },
        }
    }
    /// Takes the sandbox's answer. A trap or refusal ends the dispatch in
    /// error; a run builds the step to persist: a fresh random id, the trace,
    /// the parent and the number of the dispatch, the request's JSON as
    /// payload, the artifact and policy evidence as tool calls, and the
    /// wrapped output.
    pub fn on_executed(&mut self, executed: Result<String, String>) -> (a: DispatchAction)
        requires
            old(self).stage() is AwaitingExecution,
        ensures
            final(self).request() == old(self).request(),
            final(self).trace_id() == old(self).trace_id(),
            final(self).parent_step_id() == old(self).parent_step_id(),
            final(self).step_number() == old(self).step_number(),
            old(self).stage() matches DispatchStage::AwaitingExecution { artifact, decision } && match executed {
                Err(m) => a matches DispatchAction::Fail(DispatchError::Sandbox(f)) && f == m
                    && final(self).stage() is Done,
                Ok(out) => {
                    &&& a matches DispatchAction::Persist { step } && {
                        &&& is_random_uuid(step.step_id)
                        &&& step.trace_id == old(self).trace_id()
                        &&& step.parent_step_id == Some(old(self).parent_step_id())
                        &&& step.step_number == old(self).step_number()
                        &&& step.payload@ == old(self).request().json()
                        &&& step.tool_calls matches Some(calls) && calls@ == tool_calls_json(
                            old(self).request().tool_name@,
                            artifact.sha256@,
                            decision.allowed,
                            decision.reason@,
                        )
                        &&& step.output matches Some(o) && o@ == result_json(out@)
                        &&& !step.requires_approval
                    }
                    &&& final(self).stage() matches DispatchStage::AwaitingPersist { output }
                        && output@ == result_json(out@)
                },
            },
    {
        proof {
            use_type_invariant(&*self);
        }
        let mut stage = DispatchStage::Done;
        std::mem::swap(&mut stage, &mut self.stage);
        let (artifact, decision) = match stage {
            DispatchStage::AwaitingExecution { artifact, decision } => (artifact, decision),
            _ => {
                proof {
                    assert(false);
                }
                return DispatchAction::Fail(DispatchError::Store(String::new()));
            },
        };
        match executed {
            Err(m) => DispatchAction::Fail(DispatchError::Sandbox(m)),
            Ok(out) => {
                let mut calls = String::new();
                calls.append("{\"artifact_sha256\":");
                let sha = json_quote(artifact.sha256.as_str());
                calls.append(sha.as_str());
                calls.append(",\"policy_allowed\":");
                append_json_bool(&mut calls, decision.allowed);
                calls.append(",\"policy_path\":\"mcp/tool/allow\",\"policy_reason\":");
                let reason = json_quote(decision.reason.as_str());
                calls.append(reason.as_str());
                calls.append(",\"tool_name\":");
                let name = json_quote(self.request.tool_name.as_str());
                calls.append(name.as_str());
                calls.append("}");
                let output = wrap_result(out.as_str());
                let step = AgentStep {
                    step_id: fresh_uuid(),
                    trace_id: self.trace_id,
                    parent_step_id: Some(self.parent_step_id),
                    step_number: self.step_number,
                    payload: self.input.clone(),
                    tool_calls: Some(calls),
                    output: Some(output.clone()),
                    requires_approval: false,
                    created_at: utc_now(),
                };
                self.stage = DispatchStage::AwaitingPersist { output };
                DispatchAction::Persist { step }
            },
        }
    }

    /// Takes the store's answer. A failed write ends the dispatch in error;
    /// a persisted step is answered with success and the wrapped output.
    pub fn on_persisted(&mut self, persisted: Result<(), String>) -> (a: DispatchAction)
        requires
            old(self).stage() is AwaitingPersist,
        ensures
            final(self).request() == old(self).request(),
            final(self).stage() is Done,
            old(self).stage() matches DispatchStage::AwaitingPersist { output } && match persisted {
                Err(m) => a matches DispatchAction::Fail(DispatchError::Store(f)) && f == m,
                Ok(()) => a matches DispatchAction::Respond(resp) && resp.success && resp.output@ == output@
                    && resp.error_msg is None,
            },
    {
        proof {
            use_type_invariant(&*self);
        }
        let mut stage = DispatchStage::Done;
        std::mem::swap(&mut stage, &mut self.stage);
        let output = match stage {
            DispatchStage::AwaitingPersist { output } => output,
            _ => {
                proof {
                    assert(false);
                }
                return DispatchAction::Fail(DispatchError::Store(String::new()));
            },
        };
        match persisted {
            Err(m) => DispatchAction::Fail(DispatchError::Store(m)),
            Ok(()) => DispatchAction::Respond(McpResponse { success: true, output, error_msg: None }),
        }
    }
}

} // verus!
