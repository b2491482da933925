use fuel_indexer_lib::ExecutionSource;

#[test]
fn wasm_qualifiers_are_empty() {
    let (call, awaitness) = ExecutionSource::Wasm.async_awaitness();
    assert_eq!(call, "");
    assert_eq!(awaitness, "");
}

#[test]
fn native_qualifiers_are_suspending_markers() {
    let (call, awaitness) = ExecutionSource::Native.async_awaitness();
    assert_eq!(call, "async");
    assert_eq!(awaitness, ".await");
    assert!(!call.is_empty());
    assert!(!awaitness.is_empty());
}

#[test]
fn default_mode_is_sandboxed() {
    assert_eq!(ExecutionSource::default(), ExecutionSource::Wasm);
}
