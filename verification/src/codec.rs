//! Protocol codec: the application-level wire envelope carried inside one
//! anonymous-transport message, and the serialized request head that rides
//! in its body.
//!
//! The envelope frames multiplexed stream data: which logical connection a
//! chunk belongs to, where it sits in that connection's outbound order, and
//! whether the sender has half-closed. Decoding is strict — truncated,
//! zero-length, foreign or trailing-padded input yields a typed error,
//! never an abort, since the bytes may come from a faulty or malicious
//! relay.

use crate::text::str_equal;
use vstd::bytes::*;
use vstd::prelude::*;
use vstd::slice::*;

verus! {

/// First byte of every data envelope; probe payloads carry
/// [`PROBE_FORMAT_TAG`](crate::prober::PROBE_FORMAT_TAG) instead, so the
/// two kinds of traffic can never be confused.
pub const ENVELOPE_FORMAT_TAG: u8 = 1;

/// Byte length of the fixed envelope header: format tag, connection id,
/// ordered message index, half-close flag and body length.
pub const ENVELOPE_HEADER_LEN: usize = 26;

/// Largest body the codec will frame into one envelope.
pub const MAX_BODY_LEN: usize = 1048576;

/// One reconstructed or outbound chunk of a multiplexed logical stream.
pub struct Envelope {
    /// Identifier of the logical connection this chunk belongs to.
    pub connection_id: u64,
    /// Position of this chunk among the connection's outbound chunks; the
    /// remote end uses it to restore the order the transport loses.
    pub ordered_message_index: u64,
    /// True when the sender has no further data for this connection.
    pub local_closed: bool,
    /// Payload carried by this chunk.
    pub body: Vec<u8>,
}

/// Mathematical model of an [`Envelope`].
pub struct EnvelopeModel {
    pub connection_id: u64,
    pub ordered_message_index: u64,
    pub local_closed: bool,
    pub body: Seq<u8>,
}

impl View for Envelope {
    type V = EnvelopeModel;

    open spec fn view(&self) -> EnvelopeModel {
        EnvelopeModel {
            connection_id: self.connection_id,
            ordered_message_index: self.ordered_message_index,
            local_closed: self.local_closed,
            body: self.body@,
        }
    }
}

/// Outbound request that could not be turned into wire bytes; such a
/// request is never transmitted.
#[derive(Clone, Copy, PartialEq, Eq, Structural, Debug)]
pub enum EncodingError {
    /// The request names a method outside the supported set.
    UnsupportedMethod,
    /// The serialized form would exceed [`MAX_BODY_LEN`].
    OversizedBody,
}

/// Inbound bytes that do not form an envelope; the input is dropped, never
/// escalated.
#[derive(Clone, Copy, PartialEq, Eq, Structural, Debug)]
pub enum DecodingError {
    /// Shorter than the fixed header, including zero-length input.
    Truncated,
    /// The leading format tag is not [`ENVELOPE_FORMAT_TAG`].
    UnrecognizedFormat,
    /// The half-close flag is neither 0 nor 1.
    MalformedFlag,
    /// The declared body length disagrees with the bytes present — a
    /// truncated body or unrecognized trailing bytes — or exceeds
    /// [`MAX_BODY_LEN`].
    LengthMismatch,
}

pub open spec fn spec_bool_byte(flag: bool) -> u8 {
    if flag {
        1
    } else {
        0
    }
}

/// The exact byte sequence that encodes an envelope.
pub open spec fn spec_encode_envelope(envelope: EnvelopeModel) -> Seq<u8> {
    seq![ENVELOPE_FORMAT_TAG] + spec_u64_to_le_bytes(envelope.connection_id)
        + spec_u64_to_le_bytes(envelope.ordered_message_index) + seq![
        spec_bool_byte(envelope.local_closed),
    ] + spec_u64_to_le_bytes(envelope.body.len() as u64) + envelope.body
}

pub open spec fn spec_envelope_well_formed(bytes: Seq<u8>) -> bool {
    &&& bytes.len() >= ENVELOPE_HEADER_LEN
    &&& bytes[0] == ENVELOPE_FORMAT_TAG
    &&& (bytes[17] == 0 || bytes[17] == 1)
    &&& spec_u64_from_le_bytes(bytes.subrange(18, 26)) == bytes.len() - ENVELOPE_HEADER_LEN
    &&& bytes.len() - ENVELOPE_HEADER_LEN <= MAX_BODY_LEN
}

/// The envelope a byte sequence decodes to, or `None` where decoding is
/// owed an error.
pub open spec fn spec_decode_envelope(bytes: Seq<u8>) -> Option<EnvelopeModel> {
    if spec_envelope_well_formed(bytes) {
        Some(
            EnvelopeModel {
                connection_id: spec_u64_from_le_bytes(bytes.subrange(1, 9)),
                ordered_message_index: spec_u64_from_le_bytes(bytes.subrange(9, 17)),
                local_closed: bytes[17] == 1,
                body: bytes.subrange(ENVELOPE_HEADER_LEN as int, bytes.len() as int),
            },
        )
    } else {
        None
    }
}

/// The error owed for a byte sequence no envelope decodes from, checked in
/// the decoder's order.
pub open spec fn spec_decode_error(bytes: Seq<u8>) -> DecodingError {
    if bytes.len() < ENVELOPE_HEADER_LEN {
        DecodingError::Truncated
    } else if bytes[0] != ENVELOPE_FORMAT_TAG {
        DecodingError::UnrecognizedFormat
    } else if bytes[17] != 0 && bytes[17] != 1 {
        DecodingError::MalformedFlag
    } else {
        DecodingError::LengthMismatch
    }
}

/// Serializes the envelope into its compact binary form.
///
/// Fails exactly on a body larger than [`MAX_BODY_LEN`]; the malformed
/// result of a failed encode does not exist, so it can never be sent.
pub fn encode_envelope(envelope: &Envelope) -> (result: Result<Vec<u8>, EncodingError>)
    ensures
        result is Ok <==> envelope.body@.len() <= MAX_BODY_LEN,
        match result {
            Ok(bytes) => bytes@ == spec_encode_envelope(envelope@),
            Err(err) => err == EncodingError::OversizedBody,
        },
{
    if envelope.body.len() > MAX_BODY_LEN {
        return Err(EncodingError::OversizedBody);
    }
    let mut bytes: Vec<u8> = Vec::new();
    bytes.push(ENVELOPE_FORMAT_TAG);
    let mut connection_bytes = u64_to_le_bytes(envelope.connection_id);
    bytes.append(&mut connection_bytes);
    let mut index_bytes = u64_to_le_bytes(envelope.ordered_message_index);
    bytes.append(&mut index_bytes);
    bytes.push(if envelope.local_closed { 1 } else { 0 });
    let mut length_bytes = u64_to_le_bytes(envelope.body.len() as u64);
    bytes.append(&mut length_bytes);
    let mut body_bytes = slice_to_vec(envelope.body.as_slice());
    bytes.append(&mut body_bytes);
    proof {
        assert(bytes@ =~= spec_encode_envelope(envelope@));
    }
    Ok(bytes)
}

/// Parses the envelope back out of wire bytes.
///
/// Succeeds exactly on well-formed input; every malformed shape — too
/// short, foreign tag, bad flag, length that disagrees with the bytes
/// present — yields its typed error, for any input length.
pub fn decode_envelope(bytes: &[u8]) -> (result: Result<Envelope, DecodingError>)
    ensures
        result is Ok <==> spec_envelope_well_formed(bytes@),
        match result {
            Ok(envelope) => spec_decode_envelope(bytes@) == Some(envelope@),
            Err(err) => err == spec_decode_error(bytes@),
        },
{
    if bytes.len() < ENVELOPE_HEADER_LEN {
        return Err(DecodingError::Truncated);
    }
    if *slice_index_get(bytes, 0) != ENVELOPE_FORMAT_TAG {
        return Err(DecodingError::UnrecognizedFormat);
    }
    let flag_byte = *slice_index_get(bytes, 17);
    if flag_byte != 0 && flag_byte != 1 {
        return Err(DecodingError::MalformedFlag);
    }
    let declared_len = u64_from_le_bytes(slice_subrange(bytes, 18, 26));
    let actual_len = bytes.len() - ENVELOPE_HEADER_LEN;
    if declared_len != actual_len as u64 || actual_len > MAX_BODY_LEN {
        return Err(DecodingError::LengthMismatch);
    }
    let connection_id = u64_from_le_bytes(slice_subrange(bytes, 1, 9));
    let ordered_message_index = u64_from_le_bytes(slice_subrange(bytes, 9, 17));
    let body = slice_to_vec(slice_subrange(bytes, ENVELOPE_HEADER_LEN, bytes.len()));
    Ok(Envelope { connection_id, ordered_message_index, local_closed: flag_byte == 1, body })
}

/// Request methods the tunnel supports; anything else is rejected before a
/// single byte is framed.
#[derive(Clone, Copy, PartialEq, Eq, Structural, Debug)]
pub enum Method {
    Get,
    Post,
    Put,
    Delete,
    Head,
    Options,
    Patch,
}

/// Outbound application request: a head of method and target plus an
/// opaque content, serialized together into one envelope body.
pub struct Request {
    pub method: Method,
    /// Request target (for HTTP, the request-URI bytes).
    pub target: Vec<u8>,
    /// Request content carried after the head.
    pub content: Vec<u8>,
}

/// Mathematical model of a [`Request`].
pub struct RequestModel {
    pub method: Method,
    pub target: Seq<u8>,
    pub content: Seq<u8>,
}

impl View for Request {
    type V = RequestModel;

    open spec fn view(&self) -> RequestModel {
        RequestModel { method: self.method, target: self.target@, content: self.content@ }
    }
}

pub open spec fn spec_method_name(method: Method) -> Seq<char> {
    match method {
        Method::Get => "GET"@,
        Method::Post => "POST"@,
        Method::Put => "PUT"@,
        Method::Delete => "DELETE"@,
        Method::Head => "HEAD"@,
        Method::Options => "OPTIONS"@,
        Method::Patch => "PATCH"@,
    }
}

pub open spec fn spec_method_byte(method: Method) -> u8 {
    match method {
        Method::Get => 1,
        Method::Post => 2,
        Method::Put => 3,
        Method::Delete => 4,
        Method::Head => 5,
        Method::Options => 6,
        Method::Patch => 7,
    }
}

/// Byte length of the serialized request head in front of the content.
pub const REQUEST_HEAD_LEN: usize = 9;

/// The envelope body a request serializes to: method byte, target length,
/// target, then the content.
pub open spec fn spec_request_bytes(request: RequestModel) -> Seq<u8> {
    seq![spec_method_byte(request.method)] + spec_u64_to_le_bytes(request.target.len() as u64)
        + request.target + request.content
}

/// Looks a method up by its request-line name.
///
/// Returns the method exactly when the name is one of the supported set,
/// and `UnsupportedMethod` — the request is structurally invalid and never
/// sent — for every other name.
pub fn method_from_name(name: &str) -> (result: Result<Method, EncodingError>)
    ensures
        match result {
            Ok(method) => spec_method_name(method) == name@,
            Err(err) => {
                &&& err == EncodingError::UnsupportedMethod
                &&& forall|method: Method| spec_method_name(method) != name@
            },
        },
{
    if str_equal(name, "GET") {
        Ok(Method::Get)
    } else if str_equal(name, "POST") {
        Ok(Method::Post)
    } else if str_equal(name, "PUT") {
        Ok(Method::Put)
    } else if str_equal(name, "DELETE") {
        Ok(Method::Delete)
    } else if str_equal(name, "HEAD") {
        Ok(Method::Head)
    } else if str_equal(name, "OPTIONS") {
        Ok(Method::Options)
    } else if str_equal(name, "PATCH") {
        Ok(Method::Patch)
    } else {
        Err(EncodingError::UnsupportedMethod)
    }
}

/// The request-line name of a supported method.
pub fn method_name(method: Method) -> (name: &'static str)
    ensures
        name@ == spec_method_name(method),
{
    match method {
        Method::Get => "GET",
        Method::Post => "POST",
        Method::Put => "PUT",
        Method::Delete => "DELETE",
        Method::Head => "HEAD",
        Method::Options => "OPTIONS",
        Method::Patch => "PATCH",
    }
}

fn method_byte(method: Method) -> (byte: u8)
    ensures
        byte == spec_method_byte(method),
{
    match method {
        Method::Get => 1,
        Method::Post => 2,
        Method::Put => 3,
        Method::Delete => 4,
        Method::Head => 5,
        Method::Options => 6,
        Method::Patch => 7,
    }
}

/// Serializes a request head and content, together with its multiplexing
/// metadata, into one wire envelope.
///
/// Fails exactly when head and content together would exceed
/// [`MAX_BODY_LEN`]; nothing of a failed encode ever reaches the wire.
pub fn encode_request(
    connection_id: u64,
    local_closed: bool,
    ordered_message_index: u64,
    request: &Request,
) -> (result: Result<Vec<u8>, EncodingError>)
    ensures
        result is Ok <==> REQUEST_HEAD_LEN + request.target@.len() + request.content@.len()
            <= MAX_BODY_LEN,
        match result {
            Ok(bytes) => bytes@ == spec_encode_envelope(
                EnvelopeModel {
                    connection_id,
                    ordered_message_index,
                    local_closed,
                    body: spec_request_bytes(request@),
                },
            ),
            Err(err) => err == EncodingError::OversizedBody,
        },
{
    if request.target.len() > MAX_BODY_LEN - REQUEST_HEAD_LEN {
        return Err(EncodingError::OversizedBody);
    }
    if request.content.len() > MAX_BODY_LEN - REQUEST_HEAD_LEN - request.target.len() {
        return Err(EncodingError::OversizedBody);
    }
    let mut body: Vec<u8> = Vec::new();
    body.push(method_byte(request.method));
    let mut target_len_bytes = u64_to_le_bytes(request.target.len() as u64);
    body.append(&mut target_len_bytes);
    let mut target_bytes = slice_to_vec(request.target.as_slice());
    body.append(&mut target_bytes);
    let mut content_bytes = slice_to_vec(request.content.as_slice());
    body.append(&mut content_bytes);
    proof {
        assert(body@ =~= spec_request_bytes(request@));
    }
    let envelope = Envelope { connection_id, ordered_message_index, local_closed, body };
    match encode_envelope(&envelope) {
        Ok(bytes) => Ok(bytes),
        Err(err) => Err(err),
    }
}

/// Law: decoding inverts encoding. Every envelope whose body the codec
/// accepts comes back from its own wire bytes unchanged, for every
/// combination of connection id, ordered index, half-close flag and body.
pub proof fn lemma_envelope_round_trip(envelope: EnvelopeModel)
    requires
        envelope.body.len() <= MAX_BODY_LEN,
    ensures
        spec_decode_envelope(spec_encode_envelope(envelope)) == Some(envelope),
{
    lemma_auto_spec_u64_to_from_le_bytes();
    let encoded = spec_encode_envelope(envelope);
    assert(encoded.subrange(1, 9) =~= spec_u64_to_le_bytes(envelope.connection_id));
    assert(encoded.subrange(9, 17) =~= spec_u64_to_le_bytes(envelope.ordered_message_index));
    assert(encoded.subrange(18, 26) =~= spec_u64_to_le_bytes(envelope.body.len() as u64));
    assert(encoded.subrange(ENVELOPE_HEADER_LEN as int, encoded.len() as int) =~= envelope.body);
    assert(spec_decode_envelope(encoded) == Some(envelope));
}

} // verus!
