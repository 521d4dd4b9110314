//! From a captured response payload to the packet that is kept: the payload's
//! base64 text is decoded, its bytes are decoded as MessagePack (trying ever
//! shorter prefixes), and the decoded packet is selected and parsed.

use vstd::prelude::*;

use crate::json::{values_view, Json, JsonNumber, JsonValue};
use crate::opcodes::{entries_map, opcode_table};
use crate::packets::ParsedPacket;
use crate::parser::{packet_opcode, packet_result, parse_panics, PacketParser};
use crate::text::text_eq;

verus! {

/// Why base64 text was rejected.
#[derive(Debug, Clone, Copy, PartialEq)]
pub enum Base64Error {
    /// A byte at this offset is not in the alphabet.
    InvalidByte(usize, u8),
    /// The length is not one a base64 text can have.
    InvalidLength,
    /// The last symbol, at this offset, has bits set that would be dropped.
    InvalidLastSymbol(usize, u8),
    /// The padding is absent or not canonical.
    InvalidPadding,
}

/// What base64's standard engine (standard alphabet, canonical padding)
/// makes of the UTF-8 bytes of `text`: the bytes they decode to, or the
/// reason it rejects them.
pub uninterp spec fn base64_standard_decoding(text: Seq<char>) -> Result<Seq<u8>, Base64Error>;

/// Calls `base64::decode` (0.21), which decodes with the standard engine,
/// and tells the variants of its error apart, moving their fields over.
/// Claimed: the result is `base64_standard_decoding` of the text.
#[verifier::external_body]
#[allow(deprecated)]
fn base64_decode(text: &str) -> (r: Result<Vec<u8>, Base64Error>)
    ensures
        match r {
            Ok(bytes) => base64_standard_decoding(text@) == Ok::<Seq<u8>, Base64Error>(bytes@),
            Err(e) => base64_standard_decoding(text@) == Err::<Seq<u8>, Base64Error>(e),
        },
{
    match base64::decode(text) {
        Ok(bytes) => Ok(bytes),
        Err(base64::DecodeError::InvalidByte(o, b)) => Err(Base64Error::InvalidByte(o, b)),
        Err(base64::DecodeError::InvalidLength) => Err(Base64Error::InvalidLength),
        Err(base64::DecodeError::InvalidLastSymbol(o, b)) => Err(Base64Error::InvalidLastSymbol(o, b)),
        Err(base64::DecodeError::InvalidPadding) => Err(Base64Error::InvalidPadding),
    }
}

/// Decodes the base64 text of a captured payload into its bytes, or says
/// why the text was rejected.
pub fn decode_payload(payload: &str) -> (r: Result<Vec<u8>, Base64Error>)
    ensures
        match r {
            Ok(bytes) => base64_standard_decoding(payload@) == Ok::<Seq<u8>, Base64Error>(bytes@),
            Err(e) => base64_standard_decoding(payload@) == Err::<Seq<u8>, Base64Error>(e),
        },
{
    base64_decode(payload)
}

/// The prefix lengths of a payload of `total` bytes that MessagePack
/// decoding tries, in order: the whole payload first, then ever shorter
/// prefixes down to one byte.
pub open spec fn decode_lengths(total: nat) -> Seq<nat> {
    if total == 0 {
        seq![0]
    } else {
        Seq::new(total, |i: int| (total - i) as nat)
    }
}

/// What MessagePack decoding of a payload does next.
#[derive(Debug, Clone, Copy, PartialEq)]
pub enum DecodeStep {
    /// Decode the prefix of this length.
    Try(usize),
    /// Keep what the prefix of this length decoded to.
    Keep(usize),
    /// No prefix decoded: report the error of the first attempt.
    ReportFirstError,
}

/// The step after the attempt `last` (its prefix length and whether it
/// decoded) on a payload of `total` bytes; with no attempt made yet, the
/// whole payload is tried.
pub open spec fn decode_step(total: usize, last: Option<(usize, bool)>) -> DecodeStep {
    match last {
        None => DecodeStep::Try(total),
        Some((tried, true)) => DecodeStep::Keep(tried),
        Some((tried, false)) => if tried > 1 {
            DecodeStep::Try((tried - 1) as usize)
        } else {
            DecodeStep::ReportFirstError
        },
    }
}

/// Decides the next step of decoding a payload of `total` bytes as
/// MessagePack, given the last attempt: the whole payload is tried first,
/// then ever shorter prefixes; the first that decodes is kept, and where
/// none does the first attempt's error is reported.
pub fn next_decode_step(total: usize, last: Option<(usize, bool)>) -> (r: DecodeStep)
    ensures
        r == decode_step(total, last),
{
    match last {
        None => DecodeStep::Try(total),
        Some((tried, decoded)) => {
            if decoded {
                DecodeStep::Keep(tried)
            } else if tried > 1 {
                DecodeStep::Try(tried - 1)
            } else {
                DecodeStep::ReportFirstError
            }
        },
    }
}

/// Following the decode steps from the start, with every attempt failing,
/// tries exactly the lengths `decode_lengths(total)`, in order, and then
/// reports the first error; an attempt that decodes is kept.
pub proof fn law_decode_steps_try_decode_lengths(total: usize, i: int)
    requires
        0 <= i < decode_lengths(total as nat).len(),
    ensures
        decode_step(total, None) == DecodeStep::Try(total),
        decode_lengths(total as nat)[0] == total,
        ({
            let tried = decode_lengths(total as nat)[i];
            &&& tried <= total
            &&& decode_step(total, Some((tried as usize, true))) == DecodeStep::Keep(tried as usize)
            &&& decode_step(total, Some((tried as usize, false))) == if i + 1 < decode_lengths(
                total as nat,
            ).len() {
                DecodeStep::Try(decode_lengths(total as nat)[i + 1] as usize)
            } else {
                DecodeStep::ReportFirstError
            }
        }),
{
}

#[verifier::external_type_specification]
#[verifier::external_body]
pub struct ExOutsideJsonValue(serde_json::Value);

#[verifier::external_type_specification]
#[verifier::external_body]
pub struct ExOutsideJsonNumber(serde_json::Number);

/// What rmp-serde makes of the MessagePack `bytes` when it reads them as a
/// list of `serde_json` values, each value taken one for one into the model:
/// the list, or the text of rmp-serde's error.
pub uninterp spec fn msgpack_values(bytes: Seq<u8>) -> Result<Seq<Json>, Seq<char>>;

/// Calls `rmp_serde::from_slice::<Vec<serde_json::Value>>` and takes each
/// value one for one into the model (or the error into its text).
/// Claimed: the result is `msgpack_values` of the bytes.
#[verifier::external_body]
fn msgpack_decode(bytes: &[u8]) -> (r: Result<Vec<JsonValue>, String>)
    ensures
        match r {
            Ok(values) => msgpack_values(bytes@) == Ok::<Seq<Json>, Seq<char>>(values_view(values@)),
            Err(e) => msgpack_values(bytes@) == Err::<Seq<Json>, Seq<char>>(e@),
        },
{
    match rmp_serde::from_slice::<Vec<serde_json::Value>>(bytes) {
        Ok(values) => Ok(values.iter().map(value_model).collect()),
        Err(e) => Err(e.to_string()),
    }
}

/// Takes a `serde_json` number into the model: the first of unsigned,
/// signed and double (by its bits) that it is. Nothing is claimed.
#[verifier::external_body]
fn number_model(n: &serde_json::Number) -> (r: JsonNumber) {
    match (n.as_u64(), n.as_i64()) {
        (Some(u), _) => JsonNumber::PosInt(u),
        (None, Some(i)) => JsonNumber::NegInt(i),
        (None, None) => JsonNumber::Float(n.as_f64().map_or(0, |f| f.to_bits())),
    }
}

/// Takes a `serde_json` value into the model one for one: each variant to
/// its like, an object's entries in its order. Nothing is claimed.
#[verifier::external_body]
fn value_model(v: &serde_json::Value) -> (r: JsonValue) {
    match v {
        serde_json::Value::Null => JsonValue::Null,
        serde_json::Value::Bool(b) => JsonValue::Bool(*b),
        serde_json::Value::Number(n) => JsonValue::Number(number_model(n)),
        serde_json::Value::String(t) => JsonValue::Str(t.clone()),
        serde_json::Value::Array(items) => JsonValue::Array(items.iter().map(value_model).collect()),
        serde_json::Value::Object(m) => JsonValue::Object(
            m.iter().map(|(k, x)| (k.clone(), value_model(x))).collect(),
        ),
    }
}

/// The first length in `lens` whose prefix of `bytes` decodes.
pub open spec fn first_decoding(bytes: Seq<u8>, lens: Seq<nat>) -> Option<nat>
    decreases lens.len(),
{
    if lens.len() == 0 {
        None
    } else if msgpack_values(bytes.take(lens[0] as int)) is Ok {
        Some(lens[0])
    } else {
        first_decoding(bytes, lens.drop_first())
    }
}

/// What decoding the packet `bytes` gives: the length of the first prefix
/// in `decode_lengths` that decodes, with its values; where none does, the
/// error of decoding the whole.
pub open spec fn packet_bytes_result(
    bytes: Seq<u8>,
    r: Result<(usize, Vec<JsonValue>), String>,
) -> bool {
    match first_decoding(bytes, decode_lengths(bytes.len())) {
        Some(n) => r matches Ok((k, values)) && k == n && msgpack_values(bytes.take(n as int))
            == Ok::<Seq<Json>, Seq<char>>(values_view(values@)),
        None => r matches Err(e) && msgpack_values(bytes) == Err::<Seq<Json>, Seq<char>>(e@),
    }
}

/// Decodes the bytes of a packet as MessagePack, following the decode
/// steps: the whole first, then ever shorter prefixes; the first that
/// decodes is kept with its length, and where none does the first attempt's
/// error is returned.
pub fn decode_packet_bytes(bytes: &[u8]) -> (r: Result<(usize, Vec<JsonValue>), String>)
    ensures
        packet_bytes_result(bytes@, r),
{
    let total = bytes.len();
    let ghost lens = decode_lengths(total as nat);
    proof {
        law_decode_steps_try_decode_lengths(total, 0);
        assert(lens.subrange(0, lens.len() as int) =~= lens);
    }
    let mut len: usize = match next_decode_step(total, None) {
        DecodeStep::Try(l) => l,
        _ => total,
    };
    let mut first_error = String::new();
    let mut i: usize = 0;
    loop
        invariant
            total == bytes@.len(),
            lens == decode_lengths(total as nat),
            i < lens.len(),
            len == lens[i as int],
            len <= total,
            first_decoding(bytes@, lens) == first_decoding(
                bytes@,
                lens.subrange(i as int, lens.len() as int),
            ),
            i > 0 ==> msgpack_values(bytes@) == Err::<Seq<Json>, Seq<char>>(first_error@),
            i == 0 ==> len == total,
        decreases lens.len() - i,
    {
        proof {
            law_decode_steps_try_decode_lengths(total, i as int);
        }
        let prefix = vstd::slice::slice_subrange(bytes, 0, len);
        assert(prefix@ == bytes@.take(len as int));
        assert(bytes@.take(total as int) =~= bytes@);
        let ghost rest = lens.subrange(i as int, lens.len() as int);
        assert(rest[0] == len);
        match msgpack_decode(prefix) {
            Ok(values) => {
                return Ok((len, values));
            },
            Err(e) => {
                if i == 0 {
                    first_error = e;
                }
                match next_decode_step(total, Some((len, false))) {
                    DecodeStep::Try(next) => {
                        assert(rest.drop_first() =~= lens.subrange(i + 1, lens.len() as int));
                        len = next;
                        i = i + 1;
                    },
                    _ => {
                        assert(rest.drop_first().len() == 0);
                        assert(msgpack_values(bytes@.take(rest[0] as int)) is Err);
                        assert(first_decoding(bytes@, rest.drop_first()) is None);
                        assert(first_decoding(bytes@, rest) is None);
                        assert(i == 0 ==> prefix@ == bytes@);
                        return Err(first_error);
                    },
                }
            },
        }
    }
}

/// The opcode of the packets that are kept.
pub open spec fn kill_opcode() -> Seq<char> {
    "6"@
}

/// What selecting and parsing packet `p` gives under the opcode names
/// `names`: nothing for a packet whose opcode is missing or not the kill
/// opcode, else what parsing it gives.
pub open spec fn selection_result(
    names: Map<Seq<char>, Seq<char>>,
    p: Seq<Json>,
    r: Result<Option<ParsedPacket>, String>,
) -> bool {
    if packet_opcode(p) != Some(kill_opcode()) {
        r matches Ok(None)
    } else {
        match r {
            Ok(Some(pp)) => packet_result(names, p, Ok(pp)),
            Ok(None) => false,
            Err(e) => packet_result(names, p, Err(e)),
        }
    }
}

/// Keeps the packets that report a kill: a packet whose first slot is the
/// text `6` is parsed with a parser holding the full opcode table; any other
/// packet gives nothing.
pub fn select_kill_packet(packet: &[JsonValue]) -> (r: Result<Option<ParsedPacket>, String>)
    ensures
        selection_result(entries_map(opcode_table()), values_view(packet@), r),
{
    let ghost p = values_view(packet@);
    if packet.len() == 0 {
        return Ok(None);
    }
    let is_kill = match &packet[0] {
        JsonValue::Str(op) => {
            assert(packet_opcode(p) == Some(op@));
            text_eq(op.as_str(), "6")
        },
        _ => false,
    };
    assert(is_kill == (packet_opcode(p) == Some(kill_opcode())));
    if !is_kill {
        return Ok(None);
    }
    proof {
        reveal_strlit("6");
        reveal_strlit("k");
    }
    assert("6"@[0] != "k"@[0]);
    assert("6"@ != "k"@);
    assert(!parse_panics(p));
    let parser = PacketParser::new();
    match parser.parse_packet(packet) {
        Ok(pp) => Ok(Some(pp)),
        Err(e) => Err(e),
    }
}

/// Why a captured payload gave no packet.
#[derive(Debug, PartialEq)]
pub enum PayloadError {
    /// Its text is not base64.
    Base64(Base64Error),
    /// No prefix of its bytes decodes as MessagePack; rmp-serde's error on
    /// the whole.
    MessagePack(String),
    /// The kill packet it holds does not parse.
    Packet(String),
}

/// What processing the captured payload text `text` gives: its bytes are
/// decoded from base64, the packet from the bytes as MessagePack, and the
/// packet is kept where it reports a kill.
pub open spec fn payload_result(text: Seq<char>, r: Result<Option<ParsedPacket>, PayloadError>) -> bool {
    match base64_standard_decoding(text) {
        Err(e) => r == Err::<Option<ParsedPacket>, PayloadError>(PayloadError::Base64(e)),
        Ok(bytes) => match first_decoding(bytes, decode_lengths(bytes.len())) {
            None => r matches Err(PayloadError::MessagePack(m)) && msgpack_values(bytes) == Err::<
                Seq<Json>,
                Seq<char>,
            >(m@),
            Some(n) => match msgpack_values(bytes.take(n as int)) {
                Ok(p) => match r {
                    Ok(kept) => selection_result(entries_map(opcode_table()), p, Ok(kept)),
                    Err(PayloadError::Packet(e)) => selection_result(
                        entries_map(opcode_table()),
                        p,
                        Err(e),
                    ),
                    Err(_) => false,
                },
                Err(_) => false,
            },
        },
    }
}

/// Processes a captured payload: decodes its base64 text, decodes the
/// bytes as MessagePack (trying ever shorter prefixes), and keeps the packet
/// where it reports a kill.
pub fn process_payload(payload: &str) -> (r: Result<Option<ParsedPacket>, PayloadError>)
    ensures
        payload_result(payload@, r),
{
    let bytes = match decode_payload(payload) {
        Ok(b) => b,
        Err(e) => return Err(PayloadError::Base64(e)),
    };
    let (_, packet) = match decode_packet_bytes(bytes.as_slice()) {
        Ok(decoded) => decoded,
        Err(m) => return Err(PayloadError::MessagePack(m)),
    };
    match select_kill_packet(packet.as_slice()) {
        Ok(kept) => Ok(kept),
        Err(e) => Err(PayloadError::Packet(e)),
    }
}

} // verus!
