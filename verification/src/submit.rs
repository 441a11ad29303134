//! Signed transactions on their way to the network: from base64 text to the
//! bytes that are broadcast, in one of two wire formats.

use crate::network::{explorer_link, explorer_link_text};
use crate::text::joined;
use crate::wire::{
    base64_bytes, base64_decode, decodes_as_legacy, decodes_as_versioned, is_legacy_transaction,
    is_versioned_transaction,
};
use vstd::prelude::*;
use vstd::string::*;

verus! {

/// The number of bytes of one signature.
pub const SIGNATURE_BYTES: usize = 64;

/// The wire format that an endpoint takes.
#[derive(Clone, Copy, Debug, PartialEq, Eq, Structural)]
pub enum WireFormat {
    /// The single-version format.
    Legacy,
    /// The extensible format, whose message starts with a version marker.
    Versioned,
}

/// Why nothing was broadcast, or why the broadcast failed.
#[derive(Clone, Debug, PartialEq, Eq)]
pub enum SubmitError {
    /// The text is not base64.
    InvalidBase64,
    /// The bytes are not a transaction of the format that the endpoint takes.
    InvalidTransaction,
    /// The network refused the transaction; the text says why.
    Broadcast(String),
}

/// A transaction that the network took.
#[derive(Clone, Debug, PartialEq, Eq)]
pub struct Submitted {
    pub signature: String,
    pub explorer_link: String,
    pub network: String,
    /// The format of the endpoint that took it.
    pub format: WireFormat,
}

impl WireFormat {
    /// The tag that names the format in a response.
    pub open spec fn tag_text(self) -> Seq<char> {
        match self {
            WireFormat::Legacy => "legacy"@,
            WireFormat::Versioned => "versioned"@,
        }
    }

    /// The tag that names the format in a response.
    pub fn tag(self) -> (text: &'static str)
        ensures
            text@ == self.tag_text(),
    {
        match self {
            WireFormat::Legacy => "legacy",
            WireFormat::Versioned => "versioned",
        }
    }
}

impl SubmitError {
    /// What the caller is told.
    pub open spec fn message_text(&self) -> Seq<char> {
        match self {
            SubmitError::InvalidBase64 => "Failed to decode transaction - invalid base64"@,
            SubmitError::InvalidTransaction => "Failed to deserialize transaction"@,
            SubmitError::Broadcast(reason) => "Failed to submit transaction: "@ + reason@,
        }
    }

    /// What the caller is told.
    pub fn message(&self) -> (text: String)
        ensures
            text@ == self.message_text(),
    {
        match self {
            SubmitError::InvalidBase64 => String::from_str(
                "Failed to decode transaction - invalid base64",
            ),
            SubmitError::InvalidTransaction => String::from_str("Failed to deserialize transaction"),
            SubmitError::Broadcast(reason) => joined(
                "Failed to submit transaction: ",
                reason.as_str(),
            ),
        }
    }
}

/// A length in the compact form of one to three bytes, seven bits each,
/// lowest first, in its one strict encoding: the value and the number of
/// bytes it takes.
pub open spec fn compact_length(bytes: Seq<u8>) -> Option<(nat, nat)> {
    if bytes.len() >= 1 && bytes[0] < 0x80 {
        Some((bytes[0] as nat, 1))
    } else if bytes.len() >= 2 && bytes[0] >= 0x80 && 0 < bytes[1] < 0x80 {
        Some(((bytes[0] - 0x80 + bytes[1] * 0x80) as nat, 2))
    } else if bytes.len() >= 3 && bytes[0] >= 0x80 && bytes[1] >= 0x80 && 0 < bytes[2] <= 3 {
        Some(((bytes[0] - 0x80 + (bytes[1] - 0x80) * 0x80 + bytes[2] * 0x4000) as nat, 3))
    } else {
        None
    }
}

/// Where the message of a transaction starts: behind the count of signatures
/// and the signatures themselves.
pub open spec fn message_start(bytes: Seq<u8>) -> Option<nat> {
    match compact_length(bytes) {
        Some((count, taken)) => if taken + count * SIGNATURE_BYTES < bytes.len() {
            Some((taken + count * SIGNATURE_BYTES) as nat)
        } else {
            None
        },
        None => None,
    }
}

/// Whether the message of the transaction starts with a version marker: a
/// byte with its highest bit set.
pub open spec fn has_version_marker(bytes: Seq<u8>) -> bool {
    match message_start(bytes) {
        Some(at) => bytes[at as int] >= 0x80,
        None => false,
    }
}

/// Whether the bytes are a transaction of the given format. A transaction
/// with a version marker is never one of the legacy format.
pub open spec fn is_transaction(format: WireFormat, bytes: Seq<u8>) -> bool {
    match format {
        WireFormat::Legacy => !has_version_marker(bytes) && decodes_as_legacy(bytes),
        WireFormat::Versioned => decodes_as_versioned(bytes),
    }
}

/// What a submitted text comes to: the bytes to broadcast, unchanged, or the
/// reason why nothing is broadcast.
pub open spec fn decode_outcome(format: WireFormat, text: Seq<char>) -> Result<Seq<u8>, SubmitError> {
    match base64_bytes(text) {
        None => Err(SubmitError::InvalidBase64),
        Some(bytes) => if is_transaction(format, bytes) {
            Ok(bytes)
        } else {
            Err(SubmitError::InvalidTransaction)
        },
    }
}

/// The views of the two sides of a decoding.
pub open spec fn decode_view(r: Result<Vec<u8>, SubmitError>) -> Result<Seq<u8>, SubmitError> {
    match r {
        Ok(bytes) => Ok(bytes@),
        Err(e) => Err(e),
    }
}

/// Reads a length in compact form from the start of `bytes`.
pub fn read_compact_length(bytes: &[u8]) -> (r: Option<(usize, usize)>)
    ensures
        match r {
            Some((value, taken)) => compact_length(bytes@) == Some((value as nat, taken as nat)),
            None => compact_length(bytes@) is None,
        },
{
    let n = bytes.len();
    if n >= 1 && bytes[0] < 0x80 {
        Some((bytes[0] as usize, 1))
    } else if n >= 2 && bytes[0] >= 0x80 && 0 < bytes[1] && bytes[1] < 0x80 {
        Some(((bytes[0] - 0x80) as usize + (bytes[1] as usize) * 0x80, 2))
    } else if n >= 3 && bytes[0] >= 0x80 && bytes[1] >= 0x80 && 0 < bytes[2] && bytes[2] <= 3 {
        Some(
            (
                (bytes[0] - 0x80) as usize + ((bytes[1] - 0x80) as usize) * 0x80 + (
                bytes[2] as usize) * 0x4000,
                3,
            ),
        )
    } else {
        None
    }
}

/// Whether the message of the transaction starts with a version marker.
pub fn starts_with_version_marker(bytes: &[u8]) -> (marked: bool)
    ensures
        marked == has_version_marker(bytes@),
{
    match read_compact_length(bytes) {
        Some((count, taken)) => {
            let at = taken + count * SIGNATURE_BYTES;
            at < bytes.len() && bytes[at] >= 0x80
        },
        None => false,
    }
}

/// Turns a submitted text into the bytes to broadcast. The bytes are those
/// that the text stands for, unchanged; a text that is no base64, or whose
/// bytes are no transaction of the endpoint's format, is refused.
pub fn decode_transaction(format: WireFormat, transaction: &str) -> (r: Result<
    Vec<u8>,
    SubmitError,
>)
    ensures
        decode_view(r) == decode_outcome(format, transaction@),
{
    let bytes = match base64_decode(transaction) {
        Some(bytes) => bytes,
        None => {
            return Err(SubmitError::InvalidBase64);
        },
    };
    let accepted = match format {
        WireFormat::Legacy => !starts_with_version_marker(bytes.as_slice())
            && is_legacy_transaction(bytes.as_slice()),
        WireFormat::Versioned => is_versioned_transaction(bytes.as_slice()),
    };
    if accepted {
        Ok(bytes)
    } else {
        Err(SubmitError::InvalidTransaction)
    }
}

/// Decodes a transaction submitted to the legacy endpoint.
pub fn submit_transaction(transaction: &str) -> (r: Result<Vec<u8>, SubmitError>)
    ensures
        decode_view(r) == decode_outcome(WireFormat::Legacy, transaction@),
{
    decode_transaction(WireFormat::Legacy, transaction)
}

/// Decodes a transaction submitted to the versioned endpoint.
pub fn submit_versioned_transaction(transaction: &str) -> (r: Result<Vec<u8>, SubmitError>)
    ensures
        decode_view(r) == decode_outcome(WireFormat::Versioned, transaction@),
{
    decode_transaction(WireFormat::Versioned, transaction)
}

/// What the caller is told once the network has answered the broadcast:
/// the signature with its explorer page, or the network's refusal.
pub fn broadcast_outcome(format: WireFormat, network: &str, sent: Result<String, String>) -> (r:
    Result<Submitted, SubmitError>)
    ensures
        match sent {
            Ok(signature) => r matches Ok(done) && done.signature == signature
                && done.explorer_link@ == explorer_link_text(signature@, network@)
                && done.network@ == network@ && done.format == format,
            Err(reason) => r == Err::<Submitted, SubmitError>(SubmitError::Broadcast(reason)),
        },
{
    match sent {
        Ok(signature) => {
            let link = explorer_link(signature.as_str(), network);
            Ok(
                Submitted {
                    signature,
                    explorer_link: link,
                    network: String::from_str(network),
                    format,
                },
            )
        },
        Err(reason) => Err(SubmitError::Broadcast(reason)),
    }
}

/// A transaction that carries a version marker is refused by the legacy
/// endpoint, whatever else it holds.
pub proof fn law_format_isolation(text: Seq<char>, bytes: Seq<u8>)
    requires
        base64_bytes(text) == Some(bytes),
        has_version_marker(bytes),
    ensures
        decode_outcome(WireFormat::Legacy, text) == Err::<Seq<u8>, SubmitError>(
            SubmitError::InvalidTransaction,
        ),
{
}

} // verus!
