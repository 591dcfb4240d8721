//! WebAssembly tool artifacts and the registry that resolves tool names to them.
use vstd::prelude::*;
use vstd::string::*;
use crate::config::ToolConfig;
use crate::digest::{sha256_hex, sha256_hex_of};

verus! {

/// A WebAssembly tool under a name, sealed with the SHA-256 digest of its bytes.
#[derive(Clone, Debug)]
pub struct ToolArtifact {
    pub name: String,
    pub wasm_bytes: Vec<u8>,
    /// Lowercase hex of the SHA-256 digest of `wasm_bytes`.
    pub sha256: String,
}

/// Two artifacts have the same name, bytes and digest text.
pub open spec fn same_artifact(a: ToolArtifact, b: ToolArtifact) -> bool {
    &&& a.name@ == b.name@
    &&& a.wasm_bytes@ == b.wasm_bytes@
    &&& a.sha256@ == b.sha256@
}

impl ToolArtifact {
    /// The artifact's digest text is the digest of its bytes.
    pub open spec fn is_sealed(&self) -> bool {
        self.sha256@ == sha256_hex(self.wasm_bytes@)
    }

    /// Seals `wasm_bytes` under `name`, computing their SHA-256 digest.
    pub fn new(name: &str, wasm_bytes: Vec<u8>) -> (r: Self)
        ensures
            r.name@ == name@,
            r.wasm_bytes@ == wasm_bytes@,
            r.sha256@ == sha256_hex(wasm_bytes@),
            r.sha256@.len() == 64,
    {
        let sha256 = sha256_hex_of(wasm_bytes.as_slice());
        ToolArtifact { name: name.to_owned(), wasm_bytes, sha256 }
    }

    /// A copy of this artifact.
    pub fn duplicate(&self) -> (r: Self)
        ensures
            same_artifact(r, *self),
    {
        let bytes = self.wasm_bytes.clone();
        assert(bytes@ =~= self.wasm_bytes@);
        ToolArtifact { name: self.name.clone(), wasm_bytes: bytes, sha256: self.sha256.clone() }
    }
}

/// A registry failure, with its message.
#[derive(Clone, Debug)]
pub struct RegistryError {
    pub message: String,
}

/// Resolves tool names to artifacts. The registry of a deployment implements
/// it; `resolves_to` says which answers an implementation may give.
pub trait ToolRegistry {
    /// `r` is an answer that this registry may give when asked for `name`; a
    /// registry that says nothing more may give any answer.
    open spec fn resolves_to(&self, name: Seq<char>, r: Result<Option<ToolArtifact>, RegistryError>) -> bool {
        true
    }

    /// Looks up the artifact registered under `name`.
    fn resolve_tool(&self, name: &str) -> (r: Result<Option<ToolArtifact>, RegistryError>)
        ensures
            self.resolves_to(name@, r),
    ;
}

/// The artifact that the latest registration under `name` left in `tools`.
pub open spec fn latest_named(tools: Seq<ToolArtifact>, name: Seq<char>) -> Option<ToolArtifact>
    decreases tools.len(),
{
    if tools.len() == 0 {
        None
    } else if tools.last().name@ == name {
        Some(tools.last())
    } else {
        latest_named(tools.drop_last(), name)
    }
}

/// Two optional artifacts agree: both absent, or both present and the same.
pub open spec fn same_lookup(a: Option<ToolArtifact>, b: Option<ToolArtifact>) -> bool {
    match (a, b) {
        (Some(x), Some(y)) => same_artifact(x, y),
        (None, None) => true,
        _ => false,
    }
}

/// The registry of tools loaded at startup: registrations in order, the
/// latest one under a name being the one that counts.
pub struct ActiveToolRegistry {
    tools: Vec<ToolArtifact>,
}

impl ActiveToolRegistry {
    /// The registrations, oldest first.
    pub closed spec fn registrations(&self) -> Seq<ToolArtifact> {
        self.tools@
    }

    /// The artifact registered under `name`, if any.
    pub open spec fn lookup(&self, name: Seq<char>) -> Option<ToolArtifact> {
        latest_named(self.registrations(), name)
    }

    /// An empty registry.
    pub fn new() -> (r: Self)
        ensures
            r.registrations() == Seq::<ToolArtifact>::empty(),
    {
        ActiveToolRegistry { tools: Vec::new() }
    }

    /// Registers `artifact` under its name, replacing any earlier one.
    pub fn register(&mut self, artifact: ToolArtifact)
        ensures
            final(self).registrations() == old(self).registrations().push(artifact),
    {
        self.tools.push(artifact);
    }

    /// Finds the artifact registered under `name`.
    pub fn find(&self, name: &str) -> (r: Option<ToolArtifact>)
        ensures
            same_lookup(r, self.lookup(name@)),
    {
        let mut i = self.tools.len();
        assert(self.tools@.take(i as int) == self.tools@);
        while i > 0
            invariant
                i <= self.tools@.len(),
                latest_named(self.tools@, name@) == latest_named(self.tools@.take(i as int), name@),
            decreases i,
        {
            let ghost prefix = self.tools@.take(i as int);
            assert(prefix.drop_last() == self.tools@.take(i - 1));
            if self.tools[i - 1].name.as_str().unicode_len() == name.unicode_len()
                && same_text(self.tools[i - 1].name.as_str(), name) {
                return Some(self.tools[i - 1].duplicate());
            }
            i = i - 1;
        }
        None
    }
}

/// Whether two texts are equal.
pub fn same_text(a: &str, b: &str) -> (r: bool)
    ensures
        r == (a@ == b@),
{
    let n = a.unicode_len();
    if n != b.unicode_len() {
        return false;
    }
    for i in 0..n
        invariant
            n == a@.len(),
            n == b@.len(),
            forall|j: int| 0 <= j < i ==> a@[j] == b@[j],
    {
        if a.get_char(i) != b.get_char(i) {
            return false;
        }
    }
    assert(a@ =~= b@);
    true
}

impl ToolRegistry for ActiveToolRegistry {
    open spec fn resolves_to(&self, name: Seq<char>, r: Result<Option<ToolArtifact>, RegistryError>) -> bool {
        r matches Ok(found) && same_lookup(found, self.lookup(name))
    }

    fn resolve_tool(&self, name: &str) -> (r: Result<Option<ToolArtifact>, RegistryError>) {
        Ok(self.find(name))
    }
}

/// Registering an artifact makes it the answer for its name and leaves the
/// answers for every other name as they were.
pub proof fn lemma_register_then_lookup(before: Seq<ToolArtifact>, artifact: ToolArtifact, name: Seq<char>)
    ensures
        latest_named(before.push(artifact), artifact.name@) == Some(artifact),
        name != artifact.name@ ==> latest_named(before.push(artifact), name) == latest_named(before, name),
{
    assert(before.push(artifact).drop_last() == before);
}

/// The message reported when a configured tool's bytes could not be loaded.
pub open spec fn load_failure_message(tool: ToolConfig, error: Seq<char>) -> Seq<char> {
    "Failed loading configured WASM tool '"@ + tool.name@ + "' from '"@ + tool.wasm_path@ + "': "@ + error
}

/// The first position at which loading failed, if any.
pub open spec fn first_load_failure(loaded: Seq<Result<Vec<u8>, String>>) -> Option<int>
    decreases loaded.len(),
{
    if loaded.len() == 0 {
        None
    } else {
        match first_load_failure(loaded.drop_last()) {
            Some(i) => Some(i),
            None => if loaded.last() is Err { Some(loaded.len() - 1) } else { None },
        }
    }
}

/// The registrations made from configured tools whose bytes all loaded:
/// one per tool, in order, under the tool's name.
pub open spec fn registrations_from(tools: Seq<ToolConfig>, loaded: Seq<Result<Vec<u8>, String>>, regs: Seq<ToolArtifact>) -> bool {
    &&& regs.len() == tools.len()
    &&& forall|i: int| 0 <= i < tools.len() ==> {
        &&& (#[trigger] regs[i]).name@ == tools[i].name@
        &&& loaded[i] matches Ok(bytes) && regs[i].wasm_bytes@ == bytes@
        &&& regs[i].is_sealed()
    }
}

/// Builds the startup registry from the configured tools and the outcome of
/// reading each one's file (`loaded[i]` for `tools[i]`): the first failed read
/// aborts with a message that names the tool and its path; otherwise every
/// tool is registered, in order, under its name.
pub fn build_tool_registry(tools: &Vec<ToolConfig>, loaded: Vec<Result<Vec<u8>, String>>) -> (r: Result<ActiveToolRegistry, RegistryError>)
    requires
        loaded.len() == tools.len(),
    ensures
        match first_load_failure(loaded@) {
            Some(i) => r matches Err(e) && loaded@[i] matches Err(msg)
                && e.message@ == load_failure_message(tools@[i], msg@),
            None => r matches Ok(reg) && registrations_from(tools@, loaded@, reg.registrations()),
        },
{
    let mut registry = ActiveToolRegistry::new();
    let n = tools.len();
    let ghost all = loaded@;
    let mut pending = loaded;
    let mut remaining: Vec<Result<Vec<u8>, String>> = Vec::new();
    // Reverse so that popping yields the tools in order.
    while pending.len() > 0
        invariant
            pending@.len() + remaining@.len() == all.len(),
            forall|j: int| 0 <= j < pending@.len() ==> pending@[j] == all[j],
            forall|j: int| 0 <= j < remaining@.len() ==> remaining@[j] == all[all.len() - 1 - j],
        decreases pending.len(),
    {
        let item = pending.pop().unwrap();
        remaining.push(item);
    }
    for i in 0..n
        invariant
            n == tools@.len(),
            all == loaded@,
            all.len() == n,
            remaining@.len() == n - i,
            forall|j: int| 0 <= j < remaining@.len() ==> remaining@[j] == all[n - 1 - j],
            first_load_failure(all.take(i as int)) is None,
            registrations_from(tools@.take(i as int), all.take(i as int), registry.registrations()),
    {
        let item = remaining.pop().unwrap();
        assert(item == all[i as int]);
        assert(all.take(i + 1).drop_last() == all.take(i as int));
        assert(tools@.take(i + 1).drop_last() == tools@.take(i as int));
        match item {
            Ok(bytes) => {
                let artifact = ToolArtifact::new(tools[i].name.as_str(), bytes);
                registry.register(artifact);
            },
            Err(msg) => {
                proof {
                    lemma_first_failure_prefix(all, i as int);
                }
                let mut m = String::new();
                m.append("Failed loading configured WASM tool '");
                m.append(tools[i].name.as_str());
                m.append("' from '");
                m.append(tools[i].wasm_path.as_str());
                m.append("': ");
                m.append(msg.as_str());
                assert(first_load_failure(all) == Some(i as int));
                assert(all[i as int] matches Err(e) && e@ == msg@);
                assert(m@ == load_failure_message(tools@[i as int], msg@));
                return Err(RegistryError { message: m });
            },
        }
    }
    assert(all.take(n as int) == all);
    assert(tools@.take(n as int) == tools@);
    Ok(registry)
}

/// A failure at `i`, with none before it, is the first failure of the whole list.
proof fn lemma_first_failure_prefix(all: Seq<Result<Vec<u8>, String>>, i: int)
    requires
        0 <= i < all.len(),
        first_load_failure(all.take(i)) is None,
        all[i] is Err,
    ensures
        first_load_failure(all) == Some(i),
    decreases all.len(),
{
    if all.len() == i + 1 {
        assert(all.drop_last() == all.take(i));
    } else {
        assert(all.drop_last().take(i) == all.take(i));
        lemma_first_failure_prefix(all.drop_last(), i);
    }
}

} // verus!
