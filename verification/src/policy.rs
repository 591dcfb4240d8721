//! Policy-as-code decisions: the deny-all posture, the request sent to a
//! remote OPA/OPAL engine and the strict reading of its reply.
use vstd::prelude::*;
use vstd::string::*;
use crate::json::{json_quote, json_string};
use crate::text::{decimal, decimal_text};

verus! {

/// A policy engine's verdict on an action.
#[derive(Clone, Debug)]
pub struct PolicyDecision {
    pub allowed: bool,
    pub reason: String,
}

/// The reason given when no policy engine is configured.
pub open spec fn deny_all_reason() -> Seq<char> {
    "Strict security mode: OPAL integration required for tool executions natively"@
}

/// The decision object nested under `result` in an OPA reply.
#[derive(Clone, Debug)]
pub struct OpaDecisionFields {
    pub allowed: bool,
    pub reason: String,
}

/// The fields of an OPA reply body that the decision is read from: the
/// native `result` object, or `allowed` and `reason` at the top level.
#[derive(Clone, Debug)]
pub struct OpaReply {
    pub result: Option<OpaDecisionFields>,
    pub allowed: Option<bool>,
    pub reason: Option<String>,
}

/// Why a policy evaluation produced no decision.
#[derive(Clone, Debug)]
pub enum PolicyError {
    /// The policy client failed (unreachable engine, timeout, ...), with its message.
    Failed(String),
    /// The engine answered with a status outside 200..300.
    NonSuccessStatus(u16),
    /// The reply body is not a well-formed decision document.
    MalformedJson,
    /// The reply holds neither a `result` nor both `allowed` and `reason`.
    MissingDecision,
    /// The reply holds a `result` and top-level decision fields beside it.
    AmbiguousDecision,
}

/// The message of a policy error.
pub open spec fn policy_error_message(e: PolicyError) -> Seq<char> {
    match e {
        PolicyError::Failed(m) => m@,
        PolicyError::NonSuccessStatus(status) => "OPAL denied request implicitly via non-2xx bound: "@
            + decimal_text(status as nat),
        PolicyError::MalformedJson => "OPAL returned malformed JSON payload boundaries"@,
        PolicyError::MissingDecision => "OPAL response missing explicit constraint validation paths"@,
        PolicyError::AmbiguousDecision => "OPAL response carries ambiguous decision paths"@,
    }
}

impl PolicyError {
    /// The human-readable message of this error.
    pub fn message(&self) -> (r: String)
        ensures
            r@ == policy_error_message(*self),
    {
        match self {
            PolicyError::Failed(m) => m.clone(),
            PolicyError::NonSuccessStatus(status) => {
                let mut r = String::new();
                r.append("OPAL denied request implicitly via non-2xx bound: ");
                let n = decimal(*status as u64);
                r.append(n.as_str());
                r
            },
            PolicyError::MalformedJson => {
                let mut r = String::new();
                r.append("OPAL returned malformed JSON payload boundaries");
                r
            },
            PolicyError::MissingDecision => {
                let mut r = String::new();
                r.append("OPAL response missing explicit constraint validation paths");
                r
            },
            PolicyError::AmbiguousDecision => {
                let mut r = String::new();
                r.append("OPAL response carries ambiguous decision paths");
                r
            },
        }
    }
}

/// A remote OPA/OPAL engine reached over HTTP: where to post, with which
/// bearer token, and how long to wait.
#[derive(Clone, Debug)]
pub struct RemoteOpaClient {
    pub url: String,
    pub bearer_token: Option<String>,
    pub timeout_ms: u64,
}

/// The JSON request body for a policy query, keys in sorted order:
/// `{"input":...,"policy_path":"..."}`.
pub open spec fn opa_request_json(policy_path: Seq<char>, input: Seq<char>) -> Seq<char> {
    "{\"input\":"@ + input + ",\"policy_path\":"@ + json_string(policy_path) + "}"@
}

/// What the reply of a policy engine decides, read strictly: a status
/// outside 200..300 is an error, an unreadable body is an error, a body that
/// carries the nested `result` object together with a top-level `allowed` or
/// `reason` is ambiguous and an error, and top-level fields count only when
/// both `allowed` and `reason` are present.
pub open spec fn reply_decision(status: u16, reply: Option<OpaReply>) -> Result<(bool, Seq<char>), PolicyError> {
    if !(200 <= status && status < 300) {
        Err(PolicyError::NonSuccessStatus(status))
    } else {
        match reply {
            None => Err(PolicyError::MalformedJson),
            Some(r) => match r.result {
                Some(fields) => if r.allowed is Some || r.reason is Some {
                    Err(PolicyError::AmbiguousDecision)
                } else {
                    Ok((fields.allowed, fields.reason@))
                },
                None => match (r.allowed, r.reason) {
                    (Some(a), Some(reason)) => Ok((a, reason@)),
                    _ => Err(PolicyError::MissingDecision),
                },
            },
        }
    }
}

/// A remote engine's reply allows an action only when the HTTP status is in
/// 200..300, the body is well-formed and it carries exactly one explicit
/// `true`: under `result` with no top-level decision fields, or at the top
/// level together with a reason and no `result`. Every other reply, an
/// ambiguous one among them, fails closed.
pub proof fn lemma_remote_allow_is_explicit(status: u16, reply: Option<OpaReply>)
    ensures
        reply_decision(status, reply) matches Ok((allowed, _)) && allowed ==> {
            &&& 200 <= status < 300
            &&& reply matches Some(r) && match r.result {
                Some(fields) => fields.allowed && r.allowed is None && r.reason is None,
                None => r.allowed == Some(true) && r.reason is Some,
            }
        },
        !(200 <= status < 300) ==> reply_decision(status, reply) is Err,
        reply is None ==> reply_decision(status, reply) is Err,
        reply matches Some(r) && r.result is Some && (r.allowed is Some || r.reason is Some)
            ==> reply_decision(status, reply) is Err,
{
}

/// A well-formed 2xx reply that carries one decision yields exactly that
/// decision, denial or allow alike, with the engine's own reason: the nested
/// `result` object's fields when it stands alone, or the top-level
/// `allowed` and `reason` when there is no `result`.
pub proof fn lemma_single_decision_is_read_verbatim(status: u16, reply: OpaReply)
    requires
        200 <= status < 300,
    ensures
        reply.result is Some && reply.allowed is None && reply.reason is None
            ==> reply_decision(status, Some(reply)) == Ok::<(bool, Seq<char>), PolicyError>(
                (reply.result->0.allowed, reply.result->0.reason@)),
        reply.result is None && reply.allowed is Some && reply.reason is Some
            ==> reply_decision(status, Some(reply)) == Ok::<(bool, Seq<char>), PolicyError>(
                (reply.allowed->0, reply.reason->0@)),
{
}

/// The decision's content as a pair.
pub open spec fn decision_pair(d: PolicyDecision) -> (bool, Seq<char>) {
    (d.allowed, d.reason@)
}

/// The same result with decisions taken by their content.
pub open spec fn decided(r: Result<PolicyDecision, PolicyError>) -> Result<(bool, Seq<char>), PolicyError> {
    match r {
        Ok(d) => Ok(decision_pair(d)),
        Err(e) => Err(e),
    }
}

impl RemoteOpaClient {
    /// Describes a remote policy engine.
    pub fn new(url: String, bearer_token: Option<String>, timeout_ms: u64) -> (r: Self)
        ensures
            r.url == url,
            r.bearer_token == bearer_token,
            r.timeout_ms == timeout_ms,
    {
        RemoteOpaClient { url, bearer_token, timeout_ms }
    }

    /// Builds the JSON body that asks the engine about `input` under `policy_path`.
    pub fn request_body(policy_path: &str, input: &str) -> (r: String)
        ensures
            r@ == opa_request_json(policy_path@, input@),
    {
        let mut out = String::new();
        out.append("{\"input\":");
        out.append(input);
        out.append(",\"policy_path\":");
        let p = json_quote(policy_path);
        out.append(p.as_str());
        out.append("}");
        out
    }

    /// Reads the engine's reply: its HTTP status, and the decision fields of
    /// its body, `None` where the body is not well-formed.
    pub fn parse_decision(status: u16, reply: Option<OpaReply>) -> (r: Result<PolicyDecision, PolicyError>)
        ensures
            decided(r) == reply_decision(status, reply),
            (200 <= status < 300 && reply is Some && reply->0.result is Some
                && reply->0.allowed is None && reply->0.reason is None)
                ==> (r is Ok && r->Ok_0.allowed == reply->0.result->0.allowed
                    && r->Ok_0.reason@ == reply->0.result->0.reason@),
            (200 <= status < 300 && reply is Some && reply->0.result is None
                && reply->0.allowed is Some && reply->0.reason is Some)
                ==> (r is Ok && r->Ok_0.allowed == reply->0.allowed->0
                    && r->Ok_0.reason@ == reply->0.reason->0@),
    {
        if !(200 <= status && status < 300) {
            return Err(PolicyError::NonSuccessStatus(status));
        }
        match reply {
            None => Err(PolicyError::MalformedJson),
            Some(r) => match r.result {
                Some(fields) => if r.allowed.is_some() || r.reason.is_some() {
                    Err(PolicyError::AmbiguousDecision)
                } else {
                    Ok(PolicyDecision { allowed: fields.allowed, reason: fields.reason })
                },
                None => match (r.allowed, r.reason) {
                    (Some(a), Some(reason)) => Ok(PolicyDecision { allowed: a, reason }),
                    _ => Err(PolicyError::MissingDecision),
                },
            },
        }
    }
}

/// A policy query to post to a remote engine.
#[derive(Clone, Debug)]
pub struct OpaPost {
    pub url: String,
    pub bearer_token: Option<String>,
    pub timeout_ms: u64,
    pub body: String,
}

/// How a policy question gets its answer.
#[derive(Clone, Debug)]
pub enum PolicyPlan {
    /// The answer is known without asking anyone.
    Decided(PolicyDecision),
    /// The question must be posted to a remote engine, whose reply is then
    /// read by `RemoteOpaClient::parse_decision`.
    Post(OpaPost),
}

/// The policy client the daemon runs with: a remote engine, or, when none is
/// configured, a posture that denies everything.
#[derive(Clone, Debug)]
pub enum RuntimeOpaClient {
    Remote(RemoteOpaClient),
    DenyAll,
}

impl RuntimeOpaClient {
    /// Plans the evaluation of `input` (JSON text) under `policy_path`: the
    /// deny-all posture denies at once with the strict-mode reason; a remote
    /// engine is asked with the request body built from both.
    pub fn plan(&self, policy_path: &str, input: &str) -> (r: PolicyPlan)
        ensures
            match *self {
                RuntimeOpaClient::DenyAll => r matches PolicyPlan::Decided(d) && !d.allowed
                    && d.reason@ == deny_all_reason(),
                RuntimeOpaClient::Remote(c) => r matches PolicyPlan::Post(p) && p.url@ == c.url@
                    && p.bearer_token == c.bearer_token && p.timeout_ms == c.timeout_ms
                    && p.body@ == opa_request_json(policy_path@, input@),
            },
    {
        match self {
            RuntimeOpaClient::DenyAll => {
                let mut reason = String::new();
                reason.append("Strict security mode: OPAL integration required for tool executions natively");
                PolicyPlan::Decided(PolicyDecision { allowed: false, reason })
            },
            RuntimeOpaClient::Remote(c) => PolicyPlan::Post(OpaPost {
                url: c.url.clone(),
                bearer_token: c.bearer_token.clone(),
                timeout_ms: c.timeout_ms,
                body: RemoteOpaClient::request_body(policy_path, input),
            }),
        }
    }
}

} // verus!
