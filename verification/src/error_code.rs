//! The cross-boundary error protocol: a fixed, ordered catalog of failure
//! kinds a sandboxed guest can report to its host, each bound to a stable
//! small-integer wire code.
//!
//! The catalog is append-only and order-sensitive: a variant's position in
//! the declaration is its wire code, and the codes are persisted implicitly
//! inside compiled guest artifacts, so the order must never change.

use vstd::prelude::*;
use vstd::string::StringExecFns;

verus! {

/// A failure kind that can occur inside a sandboxed guest.
///
/// Kinds are listed in catalog order; the position of a variant is its wire
/// code (see [`code_of`]). `GeneralError` is the catch-all kind every unknown
/// code decodes to.
#[derive(Clone, Copy, Debug, PartialEq, Eq, Structural)]
pub enum WasmIndexerError {
    SerializationError,
    DeserializationError,
    PutObjectError,
    UnableToSaveListType,
    UninitializedMemory,
    KillSwitch,
    DatabaseError,
    MissingBlocksError,
    InvalidLogLevel,
    GetObjectIdFailed,
    GetStringFailed,
    AllocMissing,
    AllocFailed,
    Panic,
    GeneralError,
}

/// The wire code assigned to each catalog kind: its position in the catalog,
/// counted from zero in declaration order.
pub open spec fn code_of(e: WasmIndexerError) -> u32 {
    match e {
        WasmIndexerError::SerializationError => 0,
        WasmIndexerError::DeserializationError => 1,
        WasmIndexerError::PutObjectError => 2,
        WasmIndexerError::UnableToSaveListType => 3,
        WasmIndexerError::UninitializedMemory => 4,
        WasmIndexerError::KillSwitch => 5,
        WasmIndexerError::DatabaseError => 6,
        WasmIndexerError::MissingBlocksError => 7,
        WasmIndexerError::InvalidLogLevel => 8,
        WasmIndexerError::GetObjectIdFailed => 9,
        WasmIndexerError::GetStringFailed => 10,
        WasmIndexerError::AllocMissing => 11,
        WasmIndexerError::AllocFailed => 12,
        WasmIndexerError::Panic => 13,
        WasmIndexerError::GeneralError => 14,
    }
}

/// Host-side decoding of a wire code. Codes 0 through 13 map bijectively to
/// their named kinds; every other value, including codes a newer guest may
/// define, degrades to `GeneralError` rather than failing, so the
/// error-reporting path itself can never fail.
pub open spec fn decode_of(value: u32) -> WasmIndexerError {
    match value {
        0 => WasmIndexerError::SerializationError,
        1 => WasmIndexerError::DeserializationError,
        2 => WasmIndexerError::PutObjectError,
        3 => WasmIndexerError::UnableToSaveListType,
        4 => WasmIndexerError::UninitializedMemory,
        5 => WasmIndexerError::KillSwitch,
        6 => WasmIndexerError::DatabaseError,
        7 => WasmIndexerError::MissingBlocksError,
        8 => WasmIndexerError::InvalidLogLevel,
        9 => WasmIndexerError::GetObjectIdFailed,
        10 => WasmIndexerError::GetStringFailed,
        11 => WasmIndexerError::AllocMissing,
        12 => WasmIndexerError::AllocFailed,
        13 => WasmIndexerError::Panic,
        _ => WasmIndexerError::GeneralError,
    }
}

/// The fixed, human-readable sentence describing each kind. For logs and
/// diagnostics only; not a stable machine contract.
pub open spec fn describe_of(e: WasmIndexerError) -> Seq<char> {
    match e {
        WasmIndexerError::SerializationError => "Failed to serialize object"@,
        WasmIndexerError::DeserializationError => "Failed to deserialize object"@,
        WasmIndexerError::PutObjectError => "Failed to save object"@,
        WasmIndexerError::UnableToSaveListType => "Failed to save list"@,
        WasmIndexerError::UninitializedMemory => "Failed to create MemoryView for indexer"@,
        WasmIndexerError::KillSwitch => "Indexer kill switch has been triggered. Indexer will halt"@,
        WasmIndexerError::DatabaseError => "Failed performing a database operation"@,
        WasmIndexerError::MissingBlocksError => "Some blocks are missing"@,
        WasmIndexerError::InvalidLogLevel => "Invalid log level"@,
        WasmIndexerError::GetObjectIdFailed => "get_object_id failed"@,
        WasmIndexerError::GetStringFailed => "get_string failed"@,
        WasmIndexerError::AllocMissing => "alloc is missing"@,
        WasmIndexerError::AllocFailed => "alloc failed"@,
        WasmIndexerError::Panic => "Panic"@,
        WasmIndexerError::GeneralError => "Some unspecified WASM error occurred"@,
    }
}

impl WasmIndexerError {
    /// Guest-side encoding: the stable integer code for this failure kind.
    /// Total; every catalog member has a code by construction.
    pub fn code(&self) -> (r: u32)
        ensures
            r == code_of(*self),
    {
        match self {
            WasmIndexerError::SerializationError => 0,
            WasmIndexerError::DeserializationError => 1,
            WasmIndexerError::PutObjectError => 2,
            WasmIndexerError::UnableToSaveListType => 3,
            WasmIndexerError::UninitializedMemory => 4,
            WasmIndexerError::KillSwitch => 5,
            WasmIndexerError::DatabaseError => 6,
            WasmIndexerError::MissingBlocksError => 7,
            WasmIndexerError::InvalidLogLevel => 8,
            WasmIndexerError::GetObjectIdFailed => 9,
            WasmIndexerError::GetStringFailed => 10,
            WasmIndexerError::AllocMissing => 11,
            WasmIndexerError::AllocFailed => 12,
            WasmIndexerError::Panic => 13,
            WasmIndexerError::GeneralError => 14,
        }
    }

    /// The fixed human-readable sentence for this kind, for logs and
    /// diagnostics.
    pub fn describe(&self) -> (r: String)
        ensures
            r@ == describe_of(*self),
    {
        match self {
            WasmIndexerError::SerializationError => String::from_str("Failed to serialize object"),
            WasmIndexerError::DeserializationError => String::from_str(
                "Failed to deserialize object",
            ),
            WasmIndexerError::PutObjectError => String::from_str("Failed to save object"),
            WasmIndexerError::UnableToSaveListType => String::from_str("Failed to save list"),
            WasmIndexerError::UninitializedMemory => String::from_str(
                "Failed to create MemoryView for indexer",
            ),
            WasmIndexerError::KillSwitch => String::from_str(
                "Indexer kill switch has been triggered. Indexer will halt",
            ),
            WasmIndexerError::DatabaseError => String::from_str(
                "Failed performing a database operation",
            ),
            WasmIndexerError::MissingBlocksError => String::from_str("Some blocks are missing"),
            WasmIndexerError::InvalidLogLevel => String::from_str("Invalid log level"),
            WasmIndexerError::GetObjectIdFailed => String::from_str("get_object_id failed"),
            WasmIndexerError::GetStringFailed => String::from_str("get_string failed"),
            WasmIndexerError::AllocMissing => String::from_str("alloc is missing"),
            WasmIndexerError::AllocFailed => String::from_str("alloc failed"),
            WasmIndexerError::Panic => String::from_str("Panic"),
            WasmIndexerError::GeneralError => String::from_str(
                "Some unspecified WASM error occurred",
            ),
        }
    }
}

impl From<u32> for WasmIndexerError {
    /// Host-side decoding of a status observed across the boundary. Total:
    /// an unknown code yields `GeneralError` instead of a failure, so the
    /// host is never left without a diagnostic.
    fn from(value: u32) -> (r: Self)
        ensures
            r == decode_of(value),
    {
        match value {
            0 => WasmIndexerError::SerializationError,
            1 => WasmIndexerError::DeserializationError,
            2 => WasmIndexerError::PutObjectError,
            3 => WasmIndexerError::UnableToSaveListType,
            4 => WasmIndexerError::UninitializedMemory,
            5 => WasmIndexerError::KillSwitch,
            6 => WasmIndexerError::DatabaseError,
            7 => WasmIndexerError::MissingBlocksError,
            8 => WasmIndexerError::InvalidLogLevel,
            9 => WasmIndexerError::GetObjectIdFailed,
            10 => WasmIndexerError::GetStringFailed,
            11 => WasmIndexerError::AllocMissing,
            12 => WasmIndexerError::AllocFailed,
            13 => WasmIndexerError::Panic,
            _ => WasmIndexerError::GeneralError,
        }
    }
}

impl vstd::std_specs::convert::FromSpecImpl<u32> for WasmIndexerError {
    open spec fn obeys_from_spec() -> bool {
        true
    }

    open spec fn from_spec(value: u32) -> Self {
        decode_of(value)
    }
}

/// Law: decoding an encoded catalog kind returns the same kind, for every
/// kind in the catalog.
pub proof fn lemma_code_roundtrip(e: WasmIndexerError)
    ensures
        decode_of(code_of(e)) == e,
{
}

/// Law: every value outside the bijective code range decodes to the
/// catch-all kind, so the decoder never fails, whatever a newer guest sends.
pub proof fn lemma_decode_unknown(value: u32)
    requires
        value >= 14,
    ensures
        decode_of(value) == WasmIndexerError::GeneralError,
{
}

} // verus!
