use fuel_indexer_lib::WasmIndexerError;

fn all_kinds() -> Vec<WasmIndexerError> {
    vec![
        WasmIndexerError::SerializationError,
        WasmIndexerError::DeserializationError,
        WasmIndexerError::PutObjectError,
        WasmIndexerError::UnableToSaveListType,
        WasmIndexerError::UninitializedMemory,
        WasmIndexerError::KillSwitch,
        WasmIndexerError::DatabaseError,
        WasmIndexerError::MissingBlocksError,
        WasmIndexerError::InvalidLogLevel,
        WasmIndexerError::GetObjectIdFailed,
        WasmIndexerError::GetStringFailed,
        WasmIndexerError::AllocMissing,
        WasmIndexerError::AllocFailed,
        WasmIndexerError::Panic,
        WasmIndexerError::GeneralError,
    ]
}

#[test]
fn codes_follow_catalog_order() {
    for (expected, kind) in all_kinds().into_iter().enumerate() {
        assert_eq!(kind.code(), expected as u32);
    }
}

#[test]
fn decode_encode_round_trip_all_kinds() {
    for kind in all_kinds() {
        assert_eq!(WasmIndexerError::from(kind.code()), kind);
    }
}

#[test]
fn decode_out_of_range_is_general_error() {
    assert_eq!(WasmIndexerError::from(14), WasmIndexerError::GeneralError);
    assert_eq!(WasmIndexerError::from(15), WasmIndexerError::GeneralError);
    assert_eq!(WasmIndexerError::from(100), WasmIndexerError::GeneralError);
    assert_eq!(
        WasmIndexerError::from(u32::MAX),
        WasmIndexerError::GeneralError
    );
}

#[test]
fn kill_switch_round_trip() {
    let code = WasmIndexerError::KillSwitch.code();
    let decoded = WasmIndexerError::from(code);
    assert_eq!(decoded, WasmIndexerError::KillSwitch);
    assert!(decoded.describe().contains("halt"));
}

#[test]
fn describe_gives_fixed_sentences() {
    assert_eq!(
        WasmIndexerError::SerializationError.describe(),
        "Failed to serialize object"
    );
    assert_eq!(
        WasmIndexerError::DeserializationError.describe(),
        "Failed to deserialize object"
    );
    assert_eq!(
        WasmIndexerError::KillSwitch.describe(),
        "Indexer kill switch has been triggered. Indexer will halt"
    );
    assert_eq!(
        WasmIndexerError::GeneralError.describe(),
        "Some unspecified WASM error occurred"
    );
    assert_eq!(WasmIndexerError::Panic.describe(), "Panic");
}
