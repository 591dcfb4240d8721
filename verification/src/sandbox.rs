//! Resource limits for running a tool in the WebAssembly sandbox.
use vstd::prelude::*;

verus! {

/// The fuel (instruction budget) and memory ceiling of one sandboxed run.
#[derive(Clone, Copy, Debug, PartialEq, Eq)]
pub struct SandboxLimits {
    pub max_fuel: u64,
    pub max_memory_bytes: usize,
}

impl SandboxLimits {
    /// The limits under which the MCP router runs every tool: five million
    /// units of fuel and 64 MiB of memory.
    pub fn for_tool_dispatch() -> (r: Self)
        ensures
            r.max_fuel == 5_000_000,
            r.max_memory_bytes == 64 * 1024 * 1024,
    {
        SandboxLimits { max_fuel: 5_000_000, max_memory_bytes: 64 * 1024 * 1024 }
    }
}

} // verus!
