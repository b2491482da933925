//! Utilities shared by the host runtime, the generated guest modules and the
//! schema tooling of an indexer system: the execution-mode selector that
//! decides whether generated wrappers are suspending or plain, the fixed
//! catalog of guest failure kinds with their stable wire codes, and the
//! deterministic naming rules for namespace-qualified and join-table
//! identifiers.

pub mod error_code;
pub mod execution;
pub mod naming;

pub use error_code::WasmIndexerError;
pub use execution::ExecutionSource;
pub use naming::fully_qualified_namespace;
pub use naming::join_table_name;
pub use naming::join_table_typedefs_name;
