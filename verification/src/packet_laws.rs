//! What each kind of packet is parsed into, slot by slot, stated over the
//! decoded values themselves.

use vstd::prelude::*;

use crate::json::{object_get, Json, JsonNumber};
use crate::packets::{PacketData, ParsedPacket};
use crate::parser::{packet_opcode, packet_result};

verus! {

/// `x` is what an integer slot holding `v` reads as: the value of an integer
/// that fits in 64 signed bits, cut to 32 bits, and 0 for anything else.
pub open spec fn reads_int(v: Json, x: i32) -> bool {
    match v {
        Json::Number(JsonNumber::PosInt(u)) => if u <= 0x7fff_ffff_ffff_ffff {
            x == (u as i64) as i32
        } else {
            x == 0
        },
        Json::Number(JsonNumber::NegInt(i)) => x == i as i32,
        _ => x == 0,
    }
}

/// `n` is what a real-valued slot holding `v` reads as: the number there,
/// and zero for anything else.
pub open spec fn reads_real(v: Json, n: JsonNumber) -> bool {
    match v {
        Json::Number(m) => n == m,
        _ => n == JsonNumber::Float(0),
    }
}

/// `t` is what a text slot holding `v` reads as: the text there, and the
/// empty text for anything else.
pub open spec fn reads_text(v: Json, t: Seq<char>) -> bool {
    match v {
        Json::Str(s) => t == s,
        _ => t.len() == 0,
    }
}

/// `b` is what a boolean slot holding `v` reads as: the boolean there, and
/// false for anything else.
pub open spec fn reads_bool(v: Json, b: bool) -> bool {
    match v {
        Json::Bool(c) => b == c,
        _ => !b,
    }
}

/// `b` is what a flag slot holding `v` reads as: whether it is the integer 1.
pub open spec fn reads_flag(v: Json, b: bool) -> bool {
    b == (v == Json::Number(JsonNumber::PosInt(1)) || v == Json::Number(JsonNumber::NegInt(1)))
}

/// The opcodes of the nine parsed kinds differ from each other.
proof fn lemma_kind_opcodes_differ()
    ensures
        "k"@ != "sp"@,
        "k"@ != "mv"@,
        "3"@ != "sp"@,
        "3"@ != "mv"@,
        "3"@ != "k"@,
        "3"@ != "q"@,
        "l"@ != "sp"@,
        "l"@ != "mv"@,
        "l"@ != "k"@,
        "l"@ != "q"@,
        "l"@ != "3"@,
        "l"@ != "gsc"@,
        "l"@ != "chi"@,
        "mv"@ != "sp"@,
        "q"@ != "sp"@,
        "q"@ != "mv"@,
        "q"@ != "k"@,
        "gsc"@ != "sp"@,
        "gsc"@ != "mv"@,
        "gsc"@ != "k"@,
        "gsc"@ != "q"@,
        "gsc"@ != "3"@,
        "chi"@ != "sp"@,
        "chi"@ != "mv"@,
        "chi"@ != "k"@,
        "chi"@ != "q"@,
        "chi"@ != "3"@,
        "chi"@ != "gsc"@,
        "0"@ != "sp"@,
        "0"@ != "mv"@,
        "0"@ != "k"@,
        "0"@ != "q"@,
        "0"@ != "3"@,
        "0"@ != "gsc"@,
        "0"@ != "chi"@,
        "0"@ != "l"@,
{
    reveal_strlit("sp");
    reveal_strlit("mv");
    reveal_strlit("k");
    reveal_strlit("q");
    reveal_strlit("3");
    reveal_strlit("gsc");
    reveal_strlit("chi");
    reveal_strlit("l");
    assert("k"@.len() != "sp"@.len());
    assert("k"@.len() != "mv"@.len());
    assert("3"@.len() != "sp"@.len());
    assert("3"@.len() != "mv"@.len());
    assert("3"@[0] != "k"@[0]);
    assert("3"@[0] != "q"@[0]);
    assert("l"@.len() != "sp"@.len());
    assert("l"@.len() != "mv"@.len());
    assert("l"@[0] != "k"@[0]);
    assert("l"@[0] != "q"@[0]);
    assert("l"@[0] != "3"@[0]);
    assert("l"@.len() != "gsc"@.len());
    assert("l"@.len() != "chi"@.len());
    reveal_strlit("0");
    assert("mv"@[0] != "sp"@[0]);
    assert("q"@.len() != "sp"@.len());
    assert("q"@.len() != "mv"@.len());
    assert("q"@[0] != "k"@[0]);
    assert("gsc"@.len() != "sp"@.len());
    assert("gsc"@.len() != "mv"@.len());
    assert("gsc"@.len() != "k"@.len());
    assert("gsc"@.len() != "q"@.len());
    assert("gsc"@.len() != "3"@.len());
    assert("chi"@.len() != "sp"@.len());
    assert("chi"@.len() != "mv"@.len());
    assert("chi"@.len() != "k"@.len());
    assert("chi"@.len() != "q"@.len());
    assert("chi"@.len() != "3"@.len());
    assert("chi"@[0] != "gsc"@[0]);
    assert("0"@.len() != "sp"@.len());
    assert("0"@.len() != "mv"@.len());
    assert("0"@[0] != "k"@[0]);
    assert("0"@[0] != "q"@[0]);
    assert("0"@[0] != "3"@[0]);
    assert("0"@.len() != "gsc"@.len());
    assert("0"@.len() != "chi"@.len());
    assert("0"@[0] != "l"@[0]);
}

/// A player update whose data has all twenty slots parses, and each field is
/// read from its own slot: the player from 0, the first position from 1, 2,
/// 3, the look direction's yaw from 4 and pitch from 5, the momenta from 6
/// and 19, the state flags from 7 to 11, the ping from 12, the team from 13,
/// the second position from 14, 15, 16 and its yaw and pitch from 17 and 18.
pub proof fn law_update_players_slots(
    names: Map<Seq<char>, Seq<char>>,
    p: Seq<Json>,
    d: Seq<Json>,
    r: Result<ParsedPacket, String>,
)
    requires
        packet_result(names, p, r),
        packet_opcode(p) == Some("k"@),
        p.len() >= 2,
        p[1] == Json::Array(d),
        d.len() >= 20,
    ensures
        r matches Ok(pp) && pp.parsed matches PacketData::UpdatePlayers(u) && {
            &&& reads_int(d[0], u.player_id)
            &&& reads_real(d[1], u.first_focused_position.x)
            &&& reads_real(d[2], u.first_focused_position.y)
            &&& reads_real(d[3], u.first_focused_position.z)
            &&& reads_int(d[4], u.view_angles.yaw)
            &&& reads_int(d[5], u.view_angles.pitch)
            &&& reads_real(d[6], u.momentum_a)
            &&& reads_flag(d[7], u.state_flags.on_ground)
            &&& reads_flag(d[8], u.state_flags.is_crouching)
            &&& reads_flag(d[9], u.state_flags.using_secondary)
            &&& reads_flag(d[10], u.state_flags.hip_firing)
            &&& reads_flag(d[11], u.state_flags.flag_11)
            &&& reads_int(d[12], u.focused_player_ping)
            &&& reads_int(d[13], u.team_id)
            &&& reads_real(d[14], u.second_focused_position.x)
            &&& reads_real(d[15], u.second_focused_position.y)
            &&& reads_real(d[16], u.second_focused_position.z)
            &&& reads_int(d[17], u.second_focused_view_angles.yaw)
            &&& reads_int(d[18], u.second_focused_view_angles.pitch)
            &&& reads_real(d[19], u.momentum_b)
        },
{
    lemma_kind_opcodes_differ();
}

/// A player sync whose data has at least twenty slots parses, and each
/// field is read from its own slot: the id from 0, the team from 1, the
/// position's x, y, z from 2, 3, 4, the velocity's from 5, 6, 7, the
/// rotation from 8, and flag k from slot 8 + k (null where there is none).
pub proof fn law_player_sync_slots(
    names: Map<Seq<char>, Seq<char>>,
    p: Seq<Json>,
    d: Seq<Json>,
    r: Result<ParsedPacket, String>,
)
    requires
        packet_result(names, p, r),
        packet_opcode(p) == Some("l"@),
        p.len() >= 2,
        p[1] == Json::Array(d),
        d.len() >= 20,
    ensures
        r matches Ok(pp) && pp.parsed matches PacketData::PlayerSync(s) && {
            &&& reads_text(p[0], s.packet_type@)
            &&& reads_int(d[0], s.id)
            &&& reads_int(d[1], s.team)
            &&& reads_real(d[2], s.position.x)
            &&& reads_real(d[3], s.position.y)
            &&& reads_real(d[4], s.position.z)
            &&& reads_real(d[5], s.velocity.x)
            &&& reads_real(d[6], s.velocity.y)
            &&& reads_real(d[7], s.velocity.z)
            &&& reads_real(d[8], s.rotation)
            &&& s.flags.flag1@ == d[9]
            &&& s.flags.flag2@ == d[10]
            &&& s.flags.flag3@ == d[11]
            &&& s.flags.flag4@ == d[12]
            &&& s.flags.flag5@ == d[13]
            &&& s.flags.flag6@ == d[14]
            &&& s.flags.flag7@ == d[15]
            &&& s.flags.flag8@ == d[16]
            &&& s.flags.flag9@ == d[17]
            &&& s.flags.flag10@ == d[18]
            &&& s.flags.flag11@ == d[19]
            &&& s.flags.flag12@ == (if d.len() > 20 { d[20] } else { Json::Null })
            &&& s.flags.flag13@ == (if d.len() > 21 { d[21] } else { Json::Null })
            &&& s.flags.flag14@ == (if d.len() > 22 { d[22] } else { Json::Null })
            &&& s.flags.flag15@ == (if d.len() > 23 { d[23] } else { Json::Null })
            &&& s.flags.flag16@ == (if d.len() > 24 { d[24] } else { Json::Null })
        },
{
    lemma_kind_opcodes_differ();
}

/// The last entry of `extra` with key `key` holds `v`.
pub open spec fn last_entry_holds(extra: Seq<(Seq<char>, Json)>, key: Seq<char>, v: Json) -> bool {
    exists|i: int|
        0 <= i < extra.len() && #[trigger] extra[i] == (key, v) && forall|j: int|
            i < j < extra.len() ==> (#[trigger] extra[j]).0 != key
}

/// No entry of `extra` has key `key`.
pub open spec fn no_entry(extra: Seq<(Seq<char>, Json)>, key: Seq<char>) -> bool {
    forall|i: int| 0 <= i < extra.len() ==> (#[trigger] extra[i]).0 != key
}

/// An object's value for a key is the value of its last entry with that
/// key, and there is none where no entry has the key.
pub proof fn law_object_value_is_last_entry(extra: Seq<(Seq<char>, Json)>, key: Seq<char>)
    ensures
        object_get(extra, key) is None <==> no_entry(extra, key),
        object_get(extra, key) matches Some(v) ==> last_entry_holds(extra, key, v),
    decreases extra.len(),
{
    if extra.len() > 0 {
        let rest = extra.drop_last();
        law_object_value_is_last_entry(rest, key);
        let last = extra.len() - 1;
        if extra[last].0 == key {
            assert(extra[last] == (key, extra[last].1));
        } else {
            if no_entry(rest, key) {
                assert forall|i: int| 0 <= i < extra.len() implies (#[trigger] extra[i]).0 != key by {
                    if i < last {
                        assert(extra[i] == rest[i]);
                    }
                }
            } else {
                assert(!no_entry(extra, key)) by {
                    let i = choose|i: int| 0 <= i < rest.len() && (#[trigger] rest[i]).0 == key;
                    assert(extra[i] == rest[i]);
                }
            }
            if let Some(v) = object_get(extra, key) {
                let i = choose|i: int|
                    0 <= i < rest.len() && #[trigger] rest[i] == (key, v) && forall|j: int|
                        i < j < rest.len() ==> (#[trigger] rest[j]).0 != key;
                assert(extra[i] == rest[i]);
                assert forall|j: int| i < j < extra.len() implies (#[trigger] extra[j]).0 != key by {
                    if j < last {
                        assert(extra[j] == rest[j]);
                    }
                }
            }
        }
    }
}

/// A hit packet with seven slots and an object of extras in slot 5 parses:
/// the attacker, victim and damage come from slots 1, 2, 3, and the hit's
/// details from the extras' last entries: the distance from `dst`, the
/// headshot from the boolean `hs`, the wallbang from the boolean `wb` and the
/// weapon from `wId`; a missing entry reads as zero or false.
pub proof fn law_hit_slots(
    names: Map<Seq<char>, Seq<char>>,
    p: Seq<Json>,
    extra: Seq<(Seq<char>, Json)>,
    r: Result<ParsedPacket, String>,
)
    requires
        packet_result(names, p, r),
        packet_opcode(p) == Some("3"@),
        p.len() >= 7,
        p[5] == Json::Object(extra),
    ensures
        r matches Ok(pp) && pp.parsed matches PacketData::Hit(h) && {
            &&& reads_text(p[0], h.packet_type@)
            &&& reads_int(p[1], h.attacker_id)
            &&& reads_int(p[2], h.victim_id)
            &&& reads_real(p[3], h.damage)
            &&& h.effects@ == p[4]
            &&& h.meta@ == p[6]
            &&& forall|v: Json| last_entry_holds(extra, "dst"@, v) ==> reads_real(v, h.hit_info.distance)
            &&& forall|v: Json| last_entry_holds(extra, "hs"@, v) ==> reads_bool(v, h.hit_info.is_headshot)
            &&& forall|v: Json| last_entry_holds(extra, "wb"@, v) ==> reads_bool(v, h.hit_info.is_wallbang)
            &&& forall|v: Json| last_entry_holds(extra, "wId"@, v) ==> reads_int(v, h.hit_info.weapon_id)
            &&& (no_entry(extra, "dst"@) ==> h.hit_info.distance == JsonNumber::Float(0))
            &&& (no_entry(extra, "hs"@) ==> !h.hit_info.is_headshot)
            &&& (no_entry(extra, "wb"@) ==> !h.hit_info.is_wallbang)
            &&& (no_entry(extra, "wId"@) ==> h.hit_info.weapon_id == 0)
        },
{
    lemma_kind_opcodes_differ();
    law_object_value_is_last_entry(extra, "dst"@);
    law_object_value_is_last_entry(extra, "hs"@);
    law_object_value_is_last_entry(extra, "wb"@);
    law_object_value_is_last_entry(extra, "wId"@);
    assert forall|key: Seq<char>, v: Json, w: Json|
        last_entry_holds(extra, key, v) && last_entry_holds(extra, key, w) implies v == w by {
        let i = choose|i: int|
            0 <= i < extra.len() && #[trigger] extra[i] == (key, v) && forall|j: int|
                i < j < extra.len() ==> (#[trigger] extra[j]).0 != key;
        let k = choose|k: int|
            0 <= k < extra.len() && #[trigger] extra[k] == (key, w) && forall|j: int|
                k < j < extra.len() ==> (#[trigger] extra[j]).0 != key;
        if i < k {
            assert(extra[k].0 == key);
        } else if k < i {
            assert(extra[i].0 == key);
        }
    }
}

/// A spawn packet with ten slots parses, each field from its own slot: the
/// type and name texts from 0 and 1, the health from 2, the position from 3,
/// 4, 5, the turn from 6, the pitch from 7, the fall speed from 8 and the
/// team from 9; a shorter one is refused.
pub proof fn law_spawn_slots(names: Map<Seq<char>, Seq<char>>, p: Seq<Json>, r: Result<ParsedPacket, String>)
    requires
        packet_result(names, p, r),
        packet_opcode(p) == Some("sp"@),
    ensures
        p.len() < 10 <==> (r is Err),
        r matches Ok(pp) ==> pp.parsed matches PacketData::Spawn(d) && {
            &&& reads_text(p[0], d.packet_type@)
            &&& reads_text(p[1], d.name@)
            &&& reads_real(p[2], d.hp)
            &&& reads_real(p[3], d.x)
            &&& reads_real(p[4], d.y)
            &&& reads_real(p[5], d.z)
            &&& reads_real(p[6], d.rot_y)
            &&& reads_real(p[7], d.pitch)
            &&& reads_real(p[8], d.z_vel)
            &&& reads_int(p[9], d.team)
        },
{
}

/// A move packet with three slots parses into its map from slot 1 and its
/// path from slot 2, each kept whole; a shorter one is refused.
pub proof fn law_move_slots(names: Map<Seq<char>, Seq<char>>, p: Seq<Json>, r: Result<ParsedPacket, String>)
    requires
        packet_result(names, p, r),
        packet_opcode(p) == Some("mv"@),
    ensures
        p.len() < 3 <==> (r is Err),
        r matches Ok(pp) ==> pp.parsed matches PacketData::Move(m) && reads_text(
            p[0],
            m.packet_type@,
        ) && m.pos_map@ == p[1] && m.path@ == p[2],
{
    lemma_kind_opcodes_differ();
}

/// A lobby move packet with five slots parses, each field from its own
/// slot: the player, code and session texts from 1, 2, 3 and the state from
/// 4; a shorter one is refused.
pub proof fn law_lobby_move_slots(
    names: Map<Seq<char>, Seq<char>>,
    p: Seq<Json>,
    r: Result<ParsedPacket, String>,
)
    requires
        packet_result(names, p, r),
        packet_opcode(p) == Some("q"@),
    ensures
        p.len() < 5 <==> (r is Err),
        r matches Ok(pp) ==> pp.parsed matches PacketData::LobbyMove(l) && {
            &&& reads_text(p[0], l.packet_type@)
            &&& reads_text(p[1], l.player_id@)
            &&& reads_text(p[2], l.code@)
            &&& reads_text(p[3], l.session_id@)
            &&& reads_int(p[4], l.state)
        },
{
    lemma_kind_opcodes_differ();
}

/// A game state packet reads its code from slot 1, and the code's meaning
/// is the game's phase: ended, pre-game, warm-up, countdown, in progress,
/// and unknown for any other code.
pub proof fn law_game_state_meaning(
    names: Map<Seq<char>, Seq<char>>,
    p: Seq<Json>,
    r: Result<ParsedPacket, String>,
)
    requires
        packet_result(names, p, r),
        packet_opcode(p) == Some("gsc"@),
    ensures
        p.len() < 2 <==> (r is Err),
        r matches Ok(pp) ==> pp.parsed matches PacketData::GameState(g) && {
            &&& reads_text(p[0], g.packet_type@)
            &&& reads_int(p[1], g.state_code)
            &&& (g.state_code == 0 ==> g.meaning@ == "Game Ended"@)
            &&& (g.state_code == 1 ==> g.meaning@ == "Pre-game"@)
            &&& (g.state_code == 2 ==> g.meaning@ == "Warm-up"@)
            &&& (g.state_code == 3 ==> g.meaning@ == "Countdown"@)
            &&& (g.state_code == 4 ==> g.meaning@ == "Game In Progress"@)
            &&& (!(0 <= g.state_code <= 4) ==> g.meaning@ == "Unknown"@)
        },
{
    lemma_kind_opcodes_differ();
}

/// A chat packet with six slots parses: the message key and the player are
/// the texts of the first and second element of the array in slot 3 (empty
/// where there is none), and its meaning is the player, ` triggered ` and
/// the key, in that order.
pub proof fn law_chat_meaning(
    names: Map<Seq<char>, Seq<char>>,
    p: Seq<Json>,
    r: Result<ParsedPacket, String>,
)
    requires
        packet_result(names, p, r),
        packet_opcode(p) == Some("chi"@),
    ensures
        p.len() < 6 <==> (r is Err),
        r matches Ok(pp) ==> pp.parsed matches PacketData::Chat(c) && {
            &&& reads_text(p[0], c.packet_type@)
            &&& reads_int(p[1], c.category)
            &&& reads_int(p[4], c.priority)
            &&& c.meta@ == p[5]
            &&& c.meaning@ == c.player@ + " triggered "@ + c.message@
            &&& (p[3] matches Json::Array(m) ==> (m.len() > 0 ==> reads_text(m[0], c.message@)) && (
            m.len() > 1 ==> reads_text(m[1], c.player@)) && (m.len() == 0 ==> c.message@.len()
                == 0) && (m.len() <= 1 ==> c.player@.len() == 0))
            &&& (!(p[3] is Array) ==> c.message@.len() == 0 && c.player@.len() == 0)
        },
{
    lemma_kind_opcodes_differ();
}

/// A player init packet whose data in slot 1 has twenty-four slots parses,
/// each field from its own data slot: uid 0, class 1, score 2, position 3
/// and 4, username 5, alive 6, health 7, max health 8, clan 11, angle 18,
/// game mode 20, weapon 23; the data is kept whole and the broadcast flag is
/// slot 2 of the packet.
pub proof fn law_player_init_slots(
    names: Map<Seq<char>, Seq<char>>,
    p: Seq<Json>,
    d: Seq<Json>,
    r: Result<ParsedPacket, String>,
)
    requires
        packet_result(names, p, r),
        packet_opcode(p) == Some("0"@),
        p.len() >= 3,
        p[1] == Json::Array(d),
        d.len() >= 24,
    ensures
        r matches Ok(pp) && pp.parsed matches PacketData::PlayerInit(i) && {
            &&& reads_text(p[0], i.packet_type@)
            &&& reads_int(d[0], i.uid)
            &&& reads_int(d[1], i.class_id)
            &&& reads_int(d[2], i.score)
            &&& reads_real(d[3], i.position.x)
            &&& reads_real(d[4], i.position.y)
            &&& reads_text(d[5], i.username@)
            &&& reads_bool(d[6], i.alive)
            &&& reads_real(d[7], i.health)
            &&& reads_real(d[8], i.max_health)
            &&& reads_text(d[11], i.clan@)
            &&& reads_real(d[18], i.angle)
            &&& reads_int(d[20], i.game_mode)
            &&& reads_int(d[23], i.weapon_id)
            &&& i.broadcast_flag@ == p[2]
            &&& crate::json::values_view(i.raw@) == d
        },
{
    lemma_kind_opcodes_differ();
}

/// The packets whose data sit in an array or an object are refused exactly
/// where a slot they read is missing or of the wrong kind: a player sync
/// needs an array of at least twenty in slot 1, a player init one of at
/// least twenty-four (and three slots), a player update one of at least
/// thirteen, and a hit seven slots with an object in slot 5.
pub proof fn law_refused_packets(names: Map<Seq<char>, Seq<char>>, p: Seq<Json>, r: Result<ParsedPacket, String>)
    requires
        packet_result(names, p, r),
    ensures
        packet_opcode(p) == Some("l"@) ==> ((r is Err) <==> !(p.len() >= 2 && (p[1] matches Json::Array(
            d,
        ) && d.len() >= 20))),
        packet_opcode(p) == Some("0"@) ==> ((r is Err) <==> !(p.len() >= 3 && (p[1] matches Json::Array(
            d,
        ) && d.len() >= 24))),
        packet_opcode(p) == Some("k"@) ==> ((r is Err) <==> !(p.len() >= 2 && (p[1] matches Json::Array(
            d,
        ) && d.len() >= 13))),
        packet_opcode(p) == Some("3"@) ==> ((r is Err) <==> !(p.len() >= 7 && (p[5] is Object))),
{
    lemma_kind_opcodes_differ();
}

} // verus!
