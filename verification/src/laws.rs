//! Properties that hold across the parser's operations.

use vstd::prelude::*;

use crate::json::{values_view, Json, JsonValue};
use crate::opcodes::{entries_map, opcode_name};
use crate::packets::{PacketData, ParsedPacket};
use crate::parser::{data_result, packet_opcode, packet_result};
use crate::payload::{
    base64_standard_decoding, decode_lengths, first_decoding, kill_opcode, msgpack_values,
    packet_bytes_result, payload_result, selection_result, PayloadError,
};
use crate::opcodes::{law_opcode_table_names, opcode_table};
use crate::text::{decimal, digit_char};
use crate::web_message::{decimal_i64, digits_value, is_digit, sep_at, sep_from, split_from};

verus! {

/// A parsed packet's meaning is always the name of its opcode, and its
/// opcode is the text in the packet's first slot.
pub proof fn law_meaning_is_opcode_name(
    names: Map<Seq<char>, Seq<char>>,
    p: Seq<Json>,
    pp: ParsedPacket,
)
    requires
        packet_result(names, p, Ok(pp)),
    ensures
        packet_opcode(p) == Some(pp.opcode@),
        pp.meaning@ == opcode_name(names, pp.opcode@),
{
}

/// A packet kept whole is kept exactly: its raw values are the packet, its
/// type is the opcode and its name is the packet's meaning.
pub proof fn law_generic_packet_is_kept_whole(
    names: Map<Seq<char>, Seq<char>>,
    p: Seq<Json>,
    pp: ParsedPacket,
)
    requires
        packet_result(names, p, Ok(pp)),
        pp.parsed is Generic,
    ensures
        ({
            let g = pp.parsed->Generic_0;
            &&& values_view(g.raw@) == p
            &&& g.packet_type@ == pp.opcode@
            &&& g.name@ == pp.meaning@
        }),
{
}

/// A packet whose opcode is not one of the nine parsed kinds always parses,
/// into a packet kept whole.
pub proof fn law_other_opcodes_parse(
    names: Map<Seq<char>, Seq<char>>,
    p: Seq<Json>,
    op: Seq<char>,
    r: Result<ParsedPacket, String>,
)
    requires
        packet_result(names, p, r),
        packet_opcode(p) == Some(op),
        op != "sp"@,
        op != "mv"@,
        op != "k"@,
        op != "q"@,
        op != "3"@,
        op != "gsc"@,
        op != "chi"@,
        op != "l"@,
        op != "0"@,
    ensures
        r matches Ok(pp) && pp.parsed is Generic,
{
}

/// The kill opcode is none of the nine parsed kinds.
proof fn lemma_kill_opcode_is_generic()
    ensures
        kill_opcode() != "sp"@,
        kill_opcode() != "mv"@,
        kill_opcode() != "k"@,
        kill_opcode() != "q"@,
        kill_opcode() != "3"@,
        kill_opcode() != "gsc"@,
        kill_opcode() != "chi"@,
        kill_opcode() != "l"@,
        kill_opcode() != "0"@,
{
    reveal_strlit("6");
    reveal_strlit("sp");
    reveal_strlit("mv");
    reveal_strlit("k");
    reveal_strlit("q");
    reveal_strlit("3");
    reveal_strlit("gsc");
    reveal_strlit("chi");
    reveal_strlit("l");
    reveal_strlit("0");
    assert(kill_opcode().len() != "sp"@.len());
    assert(kill_opcode()[0] != "mv"@[0]);
    assert(kill_opcode()[0] != "k"@[0]);
    assert(kill_opcode()[0] != "q"@[0]);
    assert(kill_opcode()[0] != "3"@[0]);
    assert(kill_opcode().len() != "gsc"@.len());
    assert(kill_opcode().len() != "chi"@.len());
    assert(kill_opcode()[0] != "l"@[0]);
    assert(kill_opcode()[0] != "0"@[0]);
}

/// Selecting kill packets never fails: a packet is either left out or kept
/// whole, under the name of the kill opcode `6`; exactly the packets whose
/// first slot is the text `6` are kept.
pub proof fn law_selected_packets_are_kept_whole(
    names: Map<Seq<char>, Seq<char>>,
    p: Seq<Json>,
    r: Result<Option<ParsedPacket>, String>,
)
    requires
        selection_result(names, p, r),
    ensures
        r is Ok,
        r matches Ok(Some(pp)) ==> {
            &&& packet_opcode(p) == Some("6"@)
            &&& pp.opcode@ == "6"@
            &&& pp.meaning@ == opcode_name(names, "6"@)
            &&& pp.parsed is Generic
            &&& values_view(pp.parsed->Generic_0.raw@) == p
        },
        r matches Ok(None) <==> packet_opcode(p) != Some("6"@),
{
    lemma_kill_opcode_is_generic();
    if packet_opcode(p) == Some(kill_opcode()) {
        match r {
            Ok(Some(pp)) => law_other_opcodes_parse(names, p, kill_opcode(), Ok(pp)),
            Err(e) => law_other_opcodes_parse(names, p, kill_opcode(), Err(e)),
            Ok(None) => {},
        }
    }
}

/// Every opcode entered into a table is named by it, and an opcode entered
/// into none is named `UNKNOWN (..)`.
pub proof fn law_entered_opcodes_are_named(entries: Seq<(&'static str, &'static str)>, code: Seq<char>)
    ensures
        entries_map(entries).contains_key(code) <==> exists|i: int|
            0 <= i < entries.len() && (#[trigger] entries[i]).0@ == code,
        !entries_map(entries).contains_key(code) ==> opcode_name(entries_map(entries), code)
            == "UNKNOWN ("@ + code + ")"@,
    decreases entries.len(),
{
    if entries.len() > 0 {
        law_entered_opcodes_are_named(entries.drop_last(), code);
        if entries_map(entries.drop_last()).contains_key(code) {
            let i = choose|i: int|
                0 <= i < entries.drop_last().len() && (#[trigger] entries.drop_last()[i]).0@ == code;
            assert(entries[i] == entries.drop_last()[i]);
        }
        if exists|i: int| 0 <= i < entries.len() && (#[trigger] entries[i]).0@ == code {
            let i = choose|i: int| 0 <= i < entries.len() && (#[trigger] entries[i]).0@ == code;
            if i < entries.len() - 1 {
                assert(entries.drop_last()[i] == entries[i]);
            }
        }
    }
}

/// The parts of a message joined back with `", "`.
pub open spec fn join_parts(parts: Seq<Seq<char>>) -> Seq<char>
    decreases parts.len(),
{
    if parts.len() == 0 {
        Seq::empty()
    } else if parts.len() == 1 {
        parts[0]
    } else {
        parts[0] + ", "@ + join_parts(parts.drop_first())
    }
}

/// Splitting a message at `", "` loses nothing: joining the parts back with
/// `", "` gives the message (from any start index on).
pub proof fn law_split_parts_join_back(s: Seq<char>, start: int)
    requires
        0 <= start <= s.len(),
    ensures
        join_parts(split_from(s, start)) == s.subrange(start, s.len() as int),
    decreases s.len() - start,
{
    reveal_strlit(", ");
    lemma_split_nonempty(s, start);
    match sep_from(s, start) {
        Some(k) => {
            if start <= k && k + 1 < s.len() {
                lemma_sep_found(s, start);
                law_split_parts_join_back(s, k + 2);
                let parts = split_from(s, start);
                lemma_split_nonempty(s, k + 2);
                assert(parts.drop_first() =~= split_from(s, k + 2));
                assert(s.subrange(start, k) + ", "@ + s.subrange(k + 2, s.len() as int) =~= s.subrange(
                    start,
                    s.len() as int,
                ));
            }
        },
        None => {},
    }
}

proof fn lemma_split_nonempty(s: Seq<char>, start: int)
    ensures
        split_from(s, start).len() >= 1,
    decreases s.len() - start,
{
    match sep_from(s, start) {
        Some(k) => {
            if start <= k && k + 1 < s.len() {
                lemma_split_nonempty(s, k + 2);
            }
        },
        None => {},
    }
}

proof fn lemma_sep_found(s: Seq<char>, i: int)
    ensures
        sep_from(s, i) matches Some(k) ==> i <= k && sep_at(s, k),
    decreases s.len() - i,
{
    if !(i < 0 || i + 1 >= s.len()) && !sep_at(s, i) {
        lemma_sep_found(s, i + 1);
    }
}

/// The decimal numeral of a number is made of digits and reads back as the
/// number.
pub proof fn law_decimal_reads_back(n: nat)
    ensures
        decimal(n).len() > 0,
        forall|i: int| 0 <= i < decimal(n).len() ==> is_digit(#[trigger] decimal(n)[i]),
        digits_value(decimal(n)) == n,
    decreases n,
{
    if n < 10 {
        assert('0' as int == 48);
        assert(digit_char(n) as int == 48 + n);
        assert(decimal(n).drop_last() =~= Seq::<char>::empty());
        assert(decimal(n).last() == digit_char(n));
        assert(digits_value(Seq::<char>::empty()) == 0);
        assert(digits_value(decimal(n)) == digits_value(decimal(n).drop_last()) * 10 + (
        decimal(n).last() as int - '0' as int));
    } else {
        law_decimal_reads_back(n / 10);
        let d = decimal(n);
        assert(digit_char(n % 10) as int == 48 + n % 10);
        assert(d.drop_last() =~= decimal(n / 10));
        assert(d.last() == digit_char(n % 10));
        assert('0' as int == 48);
        assert(digits_value(d) == digits_value(decimal(n / 10)) * 10 + (n % 10));
        assert(n == (n / 10) * 10 + n % 10);
    }
}

/// The decimal numeral of a count that fits in 64 signed bits is read by the
/// configuration value parser as that count.
pub proof fn law_decimal_parses_as_integer(n: nat)
    requires
        n <= i64::MAX,
    ensures
        decimal_i64(decimal(n)) == Some(n as i64),
{
    law_decimal_reads_back(n);
    assert(decimal(n)[0] != '-' && decimal(n)[0] != '+') by {
        assert(is_digit(decimal(n)[0]));
    }
}

/// Processing a payload never fails at the packet: a payload whose bytes
/// decode either gives nothing or the decoded packet kept whole, under the
/// kill opcode `6` and its name `GET_KILL`.
pub proof fn law_payload_packets_are_kept_whole(
    text: Seq<char>,
    r: Result<Option<ParsedPacket>, PayloadError>,
)
    requires
        payload_result(text, r),
    ensures
        !(r matches Err(PayloadError::Packet(_))),
        r matches Ok(Some(pp)) ==> {
            &&& pp.opcode@ == "6"@
            &&& pp.meaning@ == "GET_KILL"@
            &&& pp.parsed is Generic
            &&& base64_standard_decoding(text) matches Ok(bytes)
                && first_decoding(bytes, decode_lengths(bytes.len())) matches Some(n)
                && msgpack_values(bytes.take(n as int)) == Ok::<Seq<Json>, Seq<char>>(
                values_view(pp.parsed->Generic_0.raw@),
            )
        },
{
    let names = entries_map(opcode_table());
    law_opcode_table_names(6);
    assert(opcode_table()[6].0@ == "6"@ && opcode_table()[6].1@ == "GET_KILL"@);
    match base64_standard_decoding(text) {
        Err(_) => {},
        Ok(bytes) => match first_decoding(bytes, decode_lengths(bytes.len())) {
            None => {},
            Some(n) => match msgpack_values(bytes.take(n as int)) {
                Ok(p) => match r {
                    Ok(kept) => {
                        law_selected_packets_are_kept_whole(names, p, Ok(kept));
                    },
                    Err(PayloadError::Packet(e)) => {
                        law_selected_packets_are_kept_whole(names, p, Err(e));
                    },
                    Err(_) => {},
                },
                Err(_) => {},
            },
        },
    }
}

/// Trying the prefixes of `k`, `k - 1`, ... down to one byte finds the
/// longest of them that decodes, and finds none only where none decodes.
proof fn lemma_prefixes_tried_downwards(bytes: Seq<u8>, k: nat)
    requires
        k <= bytes.len(),
    ensures
        match first_decoding(bytes, Seq::new(k, |i: int| (k - i) as nat)) {
            Some(n) => {
                &&& 1 <= n <= k
                &&& msgpack_values(bytes.take(n as int)) is Ok
                &&& forall|m: int| n < m <= k ==> msgpack_values(#[trigger] bytes.take(m)) is Err
            },
            None => forall|m: int| 1 <= m <= k ==> msgpack_values(#[trigger] bytes.take(m)) is Err,
        },
    decreases k,
{
    if k > 0 {
        let lens = Seq::new(k, |i: int| (k - i) as nat);
        let shorter = Seq::new((k - 1) as nat, |i: int| (k - 1 - i) as nat);
        assert(lens.drop_first() =~= shorter);
        lemma_prefixes_tried_downwards(bytes, (k - 1) as nat);
    }
}

/// Decoding a packet keeps the longest prefix of its bytes that decodes as
/// MessagePack, the whole where it decodes; it fails only where neither the
/// whole nor any non-empty prefix decodes.
pub proof fn law_kept_prefix_is_longest(bytes: Seq<u8>, r: Result<(usize, Vec<JsonValue>), String>)
    requires
        packet_bytes_result(bytes, r),
    ensures
        r matches Ok((n, values)) ==> {
            &&& n <= bytes.len()
            &&& (bytes.len() > 0 ==> n >= 1)
            &&& msgpack_values(bytes.take(n as int)) == Ok::<Seq<Json>, Seq<char>>(
                values_view(values@),
            )
            &&& forall|m: int| n < m <= bytes.len() ==> msgpack_values(#[trigger] bytes.take(m)) is Err
        },
        r is Err ==> {
            &&& msgpack_values(bytes) is Err
            &&& forall|m: int| 1 <= m <= bytes.len() ==> msgpack_values(#[trigger] bytes.take(m)) is Err
        },
{
    assert(bytes.take(bytes.len() as int) =~= bytes);
    if bytes.len() == 0 {
        assert(decode_lengths(0) =~= seq![0nat]);
        assert(seq![0nat].drop_first() =~= Seq::<nat>::empty());
        reveal_with_fuel(first_decoding, 2);
    } else {
        let k = bytes.len();
        assert(decode_lengths(k) =~= Seq::new(k, |i: int| (k - i) as nat));
        lemma_prefixes_tried_downwards(bytes, k);
    }
}

} // verus!
