//! Pluggable encoders: compact binary for hashing and storage, JSON for inspection.

use vstd::prelude::*;
use crate::error::SerializationError;

verus! {

/// Relies on `bincode::serialize`; any failure becomes a `SerializationFailed` error.
#[verifier::external_body]
fn bincode_bytes<T: serde::Serialize>(value: &T) -> (r: Result<Vec<u8>, SerializationError>)
    ensures
        r matches Err(e) ==> e is SerializationFailed,
{
    bincode::serialize(value).map_err(
        |e| SerializationError::SerializationFailed { reason: format!("Bincode serialization failed: {}", e) },
    )
}

/// Relies on `bincode::deserialize`; any failure becomes a `DeserializationFailed` error.
#[verifier::external_body]
fn bincode_value<T: serde::de::DeserializeOwned>(bytes: &[u8]) -> (r: Result<
    T,
    SerializationError,
>)
    ensures
        r matches Err(e) ==> e is DeserializationFailed,
{
    bincode::deserialize(bytes).map_err(
        |e| SerializationError::DeserializationFailed { reason: format!("Bincode deserialization failed: {}", e) },
    )
}

/// Relies on `serde_json::to_vec`; any failure becomes a `SerializationFailed` error.
#[verifier::external_body]
fn json_bytes<T: serde::Serialize>(value: &T) -> (r: Result<Vec<u8>, SerializationError>)
    ensures
        r matches Err(e) ==> e is SerializationFailed,
{
    serde_json::to_vec(value).map_err(
        |e| SerializationError::SerializationFailed { reason: format!("JSON serialization failed: {}", e) },
    )
}

/// Relies on `serde_json::to_vec_pretty`; any failure becomes a `SerializationFailed` error.
#[verifier::external_body]
fn json_pretty_bytes<T: serde::Serialize>(value: &T) -> (r: Result<Vec<u8>, SerializationError>)
    ensures
        r matches Err(e) ==> e is SerializationFailed,
{
    serde_json::to_vec_pretty(value).map_err(
        |e| SerializationError::SerializationFailed { reason: format!("JSON serialization failed: {}", e) },
    )
}

/// Relies on `serde_json::from_slice`; any failure becomes a `DeserializationFailed` error.
#[verifier::external_body]
fn json_value<T: serde::de::DeserializeOwned>(bytes: &[u8]) -> (r: Result<T, SerializationError>)
    ensures
        r matches Err(e) ==> e is DeserializationFailed,
{
    serde_json::from_slice(bytes).map_err(
        |e| SerializationError::DeserializationFailed { reason: format!("JSON deserialization failed: {}", e) },
    )
}

/// An encoder of values to bytes and back, with a name and a version that
/// make stored artifacts self-describing.
pub trait StateSerializer {
    spec fn spec_name(&self) -> Seq<char>;

    spec fn spec_version(&self) -> Seq<char>;

    fn serialize<T: serde::Serialize>(&self, value: &T) -> (r: Result<Vec<u8>, SerializationError>)
        ensures
            r matches Err(e) ==> e is SerializationFailed,
    ;

    fn deserialize<T: serde::de::DeserializeOwned>(&self, bytes: &[u8]) -> (r: Result<
        T,
        SerializationError,
    >)
        ensures
            r matches Err(e) ==> e is DeserializationFailed,
    ;

    fn name(&self) -> (r: &str)
        ensures
            r@ == self.spec_name(),
    ;

    fn version(&self) -> (r: &str)
        ensures
            r@ == self.spec_version(),
    ;
}

/// The compact binary encoder: fixed-width little-endian integers and
/// length-prefixed strings and sequences.
#[derive(Debug, Clone, Copy)]
pub struct BincodeSerializer {}

impl BincodeSerializer {
    pub fn new() -> (r: BincodeSerializer) {
        BincodeSerializer {  }
    }
}

impl Default for BincodeSerializer {
    fn default() -> (r: BincodeSerializer) {
        BincodeSerializer::new()
    }
}

impl StateSerializer for BincodeSerializer {
    open spec fn spec_name(&self) -> Seq<char> {
        "bincode"@
    }

    open spec fn spec_version(&self) -> Seq<char> {
        "1.3"@
    }

    fn serialize<T: serde::Serialize>(&self, value: &T) -> (r: Result<Vec<u8>, SerializationError>) {
        bincode_bytes(value)
    }

    fn deserialize<T: serde::de::DeserializeOwned>(&self, bytes: &[u8]) -> (r: Result<
        T,
        SerializationError,
    >) {
        bincode_value(bytes)
    }

    fn name(&self) -> (r: &str) {
        proof {
            reveal_strlit("bincode");
        }
        "bincode"
    }

    fn version(&self) -> (r: &str) {
        proof {
            reveal_strlit("1.3");
        }
        "1.3"
    }
}

/// The JSON encoder, compact or pretty-printed.
#[derive(Debug, Clone, Copy)]
pub struct JsonSerializer {
    pretty: bool,
}

impl JsonSerializer {
    pub closed spec fn is_pretty(&self) -> bool {
        self.pretty
    }

    pub fn new() -> (r: JsonSerializer)
        ensures
            !r.is_pretty(),
    {
        JsonSerializer { pretty: false }
    }

    pub fn new_pretty() -> (r: JsonSerializer)
        ensures
            r.is_pretty(),
    {
        JsonSerializer { pretty: true }
    }
}

impl Default for JsonSerializer {
    fn default() -> (r: JsonSerializer) {
        JsonSerializer::new()
    }
}

impl StateSerializer for JsonSerializer {
    open spec fn spec_name(&self) -> Seq<char> {
        "json"@
    }

    open spec fn spec_version(&self) -> Seq<char> {
        "1.0"@
    }

    fn serialize<T: serde::Serialize>(&self, value: &T) -> (r: Result<Vec<u8>, SerializationError>) {
        if self.pretty {
            json_pretty_bytes(value)
        } else {
            json_bytes(value)
        }
    }

    fn deserialize<T: serde::de::DeserializeOwned>(&self, bytes: &[u8]) -> (r: Result<
        T,
        SerializationError,
    >) {
        json_value(bytes)
    }

    fn name(&self) -> (r: &str) {
        proof {
            reveal_strlit("json");
        }
        "json"
    }

    fn version(&self) -> (r: &str) {
        proof {
            reveal_strlit("1.0");
        }
        "1.0"
    }
}

/// Records which encoder produced an artifact.
#[derive(Debug, Clone)]
pub struct SerializationContext {
    serializer_name: String,
    serializer_version: String,
}

impl SerializationContext {
    pub closed spec fn spec_name(&self) -> Seq<char> {
        self.serializer_name@
    }

    pub closed spec fn spec_version(&self) -> Seq<char> {
        self.serializer_version@
    }

    pub fn from_serializer<Z: StateSerializer>(serializer: &Z) -> (r: SerializationContext)
        ensures
            r.spec_name() == serializer.spec_name(),
            r.spec_version() == serializer.spec_version(),
    {
        SerializationContext {
            serializer_name: serializer.name().to_owned(),
            serializer_version: serializer.version().to_owned(),
        }
    }

    pub fn serializer_name(&self) -> (r: &str)
        ensures
            r@ == self.spec_name(),
    {
        self.serializer_name.as_str()
    }

    pub fn serializer_version(&self) -> (r: &str)
        ensures
            r@ == self.spec_version(),
    {
        self.serializer_version.as_str()
    }

    /// Whether the encoder has this context's name and version.
    pub fn matches<Z: StateSerializer>(&self, serializer: &Z) -> (r: bool)
        ensures
            r == (self.spec_name() == serializer.spec_name() && self.spec_version()
                == serializer.spec_version()),
    {
        let name = serializer.name().to_owned();
        let version = serializer.version().to_owned();
        self.serializer_name == name && self.serializer_version == version
    }
}

} // verus!
