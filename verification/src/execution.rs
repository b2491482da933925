//! The execution-mode selector: a two-valued mode that parameterizes code
//! generation, deciding whether generated wrapper functions are suspending
//! (native) or plain synchronous (sandboxed).

use vstd::prelude::*;
use vstd::string::StringExecFns;

verus! {

/// The environment an indexer module is generated for and executed in.
///
/// The mode is selected once per code-generation invocation and is immutable
/// thereafter; it has no runtime representation inside a running guest.
#[derive(Clone, Copy, Debug, PartialEq, Eq, Structural)]
pub enum ExecutionSource {
    /// The indexer is executed as a standalone, natively compiled process.
    Native,
    /// The indexer is executed as a guest inside an isolated WASM runtime.
    Wasm,
}

/// The two fragments of generated syntax a mode selects: the call qualifier
/// placed before a generated entry point, and the await qualifier placed
/// after a call into the data source.
///
/// Native code may block on I/O and must yield to a scheduler, so it gets the
/// suspending markers; the sandboxed runtime manages blocking itself, so both
/// markers are empty there.
pub open spec fn qualifiers_of(source: ExecutionSource) -> (Seq<char>, Seq<char>) {
    match source {
        ExecutionSource::Native => ("async"@, ".await"@),
        ExecutionSource::Wasm => (Seq::<char>::empty(), Seq::<char>::empty()),
    }
}

impl ExecutionSource {
    /// The call and await qualifiers for code generated in this mode:
    /// suspending markers for `Native`, empty strings for `Wasm`.
    pub fn async_awaitness(&self) -> (r: (String, String))
        ensures
            r.0@ == qualifiers_of(*self).0,
            r.1@ == qualifiers_of(*self).1,
    {
        match self {
            ExecutionSource::Native => (String::from_str("async"), String::from_str(".await")),
            ExecutionSource::Wasm => (String::new(), String::new()),
        }
    }
}

impl Default for ExecutionSource {
    /// The sandboxed path is the common deployment target and works with no
    /// environment assumptions, so it is the default.
    fn default() -> (r: Self)
        ensures
            r == ExecutionSource::Wasm,
    {
        ExecutionSource::Wasm
    }
}

/// Law: the sandboxed mode generates plain synchronous code (both qualifiers
/// empty), while the native mode generates suspending code (both qualifiers
/// non-empty markers).
pub proof fn lemma_qualifiers_by_mode()
    ensures
        qualifiers_of(ExecutionSource::Wasm).0 == Seq::<char>::empty(),
        qualifiers_of(ExecutionSource::Wasm).1 == Seq::<char>::empty(),
        qualifiers_of(ExecutionSource::Native).0.len() > 0,
        qualifiers_of(ExecutionSource::Native).1.len() > 0,
{
    reveal_strlit("async");
    reveal_strlit(".await");
}

} // verus!
