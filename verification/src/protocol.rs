//! The MCP tool invocation request and its result.
use vstd::prelude::*;
use vstd::string::*;
use crate::json::{json_quote, json_string};

verus! {

/// The standardized invocation request for an MCP tool.
#[derive(Clone, Debug)]
pub struct McpRequest {
    pub tool_name: String,
    /// The tool's arguments, as JSON text.
    pub payload: String,
}

/// The result returned by a tool execution.
#[derive(Clone, Debug)]
pub struct McpResponse {
    pub success: bool,
    /// The tool's output, as JSON text.
    pub output: String,
    pub error_msg: Option<String>,
}

impl McpRequest {
    /// The JSON object that stands for the request, keys in sorted order:
    /// `{"payload":...,"tool_name":"..."}`.
    pub open spec fn json(&self) -> Seq<char> {
        "{\"payload\":"@ + self.payload@ + ",\"tool_name\":"@ + json_string(self.tool_name@) + "}"@
    }

    /// Renders the request as a JSON object.
    pub fn to_json(&self) -> (r: String)
        ensures
            r@ == self.json(),
    {
        let mut out = String::new();
        out.append("{\"payload\":");
        out.append(self.payload.as_str());
        out.append(",\"tool_name\":");
        let name = json_quote(self.tool_name.as_str());
        out.append(name.as_str());
        out.append("}");
        out
    }
}

/// The JSON object `{"result":"..."}` that wraps a tool's textual output.
pub open spec fn result_json(output: Seq<char>) -> Seq<char> {
    "{\"result\":"@ + json_string(output) + "}"@
}

/// Wraps a tool's textual output as `{"result":"..."}`.
pub fn wrap_result(output: &str) -> (r: String)
    ensures
        r@ == result_json(output@),
{
    let mut out = String::new();
    out.append("{\"result\":");
    let q = json_quote(output);
    out.append(q.as_str());
    out.append("}");
    out
}

} // verus!
