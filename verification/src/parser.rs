//! The packet parser: the opcode table and the parsing of each kind of packet.

use vstd::prelude::*;

use crate::json::{
    bool_field, flag_field, int_field, json_at, object_get, object_lookup, real_field, text_field,
    value_at_or_null, values_view, entries_view, copy_values, Json, JsonNumber, JsonValue,
};
use crate::packets::{
    ChatData, GameStateData, GenericData, HitData, HitInfo, LobbyMoveData, MoveData, PacketData,
    ParsedPacket, PlayerFlags, PlayerInitData, PlayerStateFlags, PlayerSyncData, Position,
    Position2D, SpawnData, UpdatePlayersData, ViewAngles,
};
use crate::opcodes::{
    entries_map, lemma_table_lookup_map, opcode_name, opcode_table, table_entries, table_lookup,
};
use crate::text::{decimal, decimal_text, text_eq};

verus! {

/// The elements of `v`, where it is an array.
pub open spec fn array_of(v: Json) -> Option<Seq<Json>> {
    match v {
        Json::Array(items) => Some(items),
        _ => None,
    }
}

/// The entries of `v`, where it is an object.
pub open spec fn object_of(v: Json) -> Option<Seq<(Seq<char>, Json)>> {
    match v {
        Json::Object(entries) => Some(entries),
        _ => None,
    }
}

/// The value that `entries` give to `key`, or null.
pub open spec fn get_or_null(entries: Seq<(Seq<char>, Json)>, key: Seq<char>) -> Json {
    match object_get(entries, key) {
        Some(v) => v,
        None => Json::Null,
    }
}

/// `r` is the failure with message `msg`.
pub open spec fn fails_with<T>(r: Result<T, String>, msg: Seq<char>) -> bool {
    r matches Err(e) && e@ == msg
}

/// The fields of a spawn packet read from `p`.
pub open spec fn spawn_fields(p: Seq<Json>, d: SpawnData) -> bool {
    &&& d.packet_type@ == text_field(p[0])
    &&& d.name@ == text_field(p[1])
    &&& d.hp == real_field(p[2])
    &&& d.x == real_field(p[3])
    &&& d.y == real_field(p[4])
    &&& d.z == real_field(p[5])
    &&& d.rot_y == real_field(p[6])
    &&& d.pitch == real_field(p[7])
    &&& d.z_vel == real_field(p[8])
    &&& d.team == int_field(p[9])
}

/// What parsing `p` as a spawn packet gives.
pub open spec fn spawn_result(p: Seq<Json>, r: Result<PacketData, String>) -> bool {
    if p.len() < 10 {
        fails_with(r, "Invalid spawn packet length"@)
    } else {
        r matches Ok(PacketData::Spawn(d)) && spawn_fields(p, d)
    }
}

/// What parsing `p` as a move packet gives.
pub open spec fn move_result(p: Seq<Json>, r: Result<PacketData, String>) -> bool {
    if p.len() < 3 {
        fails_with(r, "Invalid move packet length"@)
    } else {
        &&& r matches Ok(PacketData::Move(d))
        &&& d.packet_type@ == text_field(p[0])
        &&& d.pos_map@ == p[1]
        &&& d.path@ == p[2]
    }
}

/// The fields of a player update read from its data `d`.
pub open spec fn update_players_fields(d: Seq<Json>, u: UpdatePlayersData) -> bool {
    &&& u.player_id == int_field(d[0])
    &&& u.first_focused_position == Position {
        x: real_field(d[1]),
        y: real_field(d[2]),
        z: real_field(d[3]),
    }
    &&& u.view_angles == ViewAngles { yaw: int_field(d[4]), pitch: int_field(d[5]) }
    &&& u.momentum_a == real_field(d[6])
    &&& u.momentum_b == real_field(d[19])
    &&& u.focused_player_ping == int_field(d[12])
    &&& u.team_id == int_field(d[13])
    &&& u.state_flags == PlayerStateFlags {
        on_ground: flag_field(d[7]),
        is_crouching: flag_field(d[8]),
        using_secondary: flag_field(d[9]),
        hip_firing: flag_field(d[10]),
        flag_11: flag_field(d[11]),
    }
    &&& u.second_focused_position == Position {
        x: real_field(d[14]),
        y: real_field(d[15]),
        z: real_field(d[16]),
    }
    &&& u.second_focused_view_angles == ViewAngles {
        yaw: int_field(d[17]),
        pitch: int_field(d[18]),
    }
}

/// A player update packet whose data has at least 13 elements but fewer
/// than the 20 that it reads: parsing it stops the program.
pub open spec fn update_players_panics(p: Seq<Json>) -> bool {
    &&& p.len() >= 2
    &&& array_of(p[1]) matches Some(d)
    &&& 13 <= d.len() < 20
}

/// What parsing `p` as a player update packet gives, where it does not
/// stop the program.
pub open spec fn update_players_result(p: Seq<Json>, r: Result<PacketData, String>) -> bool {
    if p.len() < 2 {
        fails_with(r, "Invalid update_players packet length"@)
    } else {
        match array_of(p[1]) {
            None => fails_with(r, "Invalid update_players data format"@),
            Some(d) => if d.len() < 13 {
                fails_with(
                    r,
                    "Insufficient update_players data length: expected 13, got "@ + decimal(
                        d.len(),
                    ),
                )
            } else {
                r matches Ok(PacketData::UpdatePlayers(u)) && update_players_fields(d, u)
            },
        }
    }
}

/// What parsing `p` as a lobby move packet gives.
pub open spec fn lobby_move_result(p: Seq<Json>, r: Result<PacketData, String>) -> bool {
    if p.len() < 5 {
        fails_with(r, "Invalid lobby move packet length"@)
    } else {
        &&& r matches Ok(PacketData::LobbyMove(d))
        &&& d.packet_type@ == text_field(p[0])
        &&& d.player_id@ == text_field(p[1])
        &&& d.code@ == text_field(p[2])
        &&& d.session_id@ == text_field(p[3])
        &&& d.state == int_field(p[4])
    }
}

/// The fields of a hit packet read from `p` and its extra entries `extra`.
pub open spec fn hit_fields(p: Seq<Json>, extra: Seq<(Seq<char>, Json)>, h: HitData) -> bool {
    &&& h.packet_type@ == text_field(p[0])
    &&& h.attacker_id == int_field(p[1])
    &&& h.victim_id == int_field(p[2])
    &&& h.damage == real_field(p[3])
    &&& h.effects@ == p[4]
    &&& h.hit_info == HitInfo {
        distance: real_field(get_or_null(extra, "dst"@)),
        is_headshot: bool_field(get_or_null(extra, "hs"@)),
        is_wallbang: bool_field(get_or_null(extra, "wb"@)),
        weapon_id: int_field(get_or_null(extra, "wId"@)),
    }
    &&& h.meta@ == p[6]
}

/// What parsing `p` as a hit packet gives.
pub open spec fn hit_result(p: Seq<Json>, r: Result<PacketData, String>) -> bool {
    if p.len() < 7 {
        fails_with(r, "Invalid hit packet length"@)
    } else {
        match object_of(p[5]) {
            None => fails_with(r, "Invalid extra data"@),
            Some(extra) => r matches Ok(PacketData::Hit(h)) && hit_fields(p, extra, h),
        }
    }
}

/// The message data of a chat packet: the array in its fourth slot, or none.
pub open spec fn chat_message_data(p: Seq<Json>) -> Seq<Json> {
    match array_of(p[3]) {
        Some(items) => items,
        None => Seq::empty(),
    }
}

/// What parsing `p` as a chat packet gives.
pub open spec fn chat_result(p: Seq<Json>, r: Result<PacketData, String>) -> bool {
    if p.len() < 6 {
        fails_with(r, "Invalid chat packet length"@)
    } else {
        let key = text_field(json_at(chat_message_data(p), 0));
        let player = text_field(json_at(chat_message_data(p), 1));
        &&& r matches Ok(PacketData::Chat(c))
        &&& c.packet_type@ == text_field(p[0])
        &&& c.category == int_field(p[1])
        &&& c.message@ == key
        &&& c.player@ == player
        &&& c.priority == int_field(p[4])
        &&& c.meta@ == p[5]
        &&& c.meaning@ == player + " triggered "@ + key
    }
}

/// The meaning of a game state code.
pub open spec fn game_state_meaning(code: i32) -> Seq<char> {
    if code == 0 {
        "Game Ended"@
    } else if code == 1 {
        "Pre-game"@
    } else if code == 2 {
        "Warm-up"@
    } else if code == 3 {
        "Countdown"@
    } else if code == 4 {
        "Game In Progress"@
    } else {
        "Unknown"@
    }
}

/// What parsing `p` as a game state packet gives.
pub open spec fn game_state_result(p: Seq<Json>, r: Result<PacketData, String>) -> bool {
    if p.len() < 2 {
        fails_with(r, "Invalid game state packet length"@)
    } else {
        &&& r matches Ok(PacketData::GameState(g))
        &&& g.packet_type@ == text_field(p[0])
        &&& g.state_code == int_field(p[1])
        &&& g.meaning@ == game_state_meaning(int_field(p[1]))
    }
}

/// The flag slots of a player sync packet read from its data `d`.
pub open spec fn player_flags_fields(d: Seq<Json>, f: PlayerFlags) -> bool {
    &&& f.flag1@ == json_at(d, 9)
    &&& f.flag2@ == json_at(d, 10)
    &&& f.flag3@ == json_at(d, 11)
    &&& f.flag4@ == json_at(d, 12)
    &&& f.flag5@ == json_at(d, 13)
    &&& f.flag6@ == json_at(d, 14)
    &&& f.flag7@ == json_at(d, 15)
    &&& f.flag8@ == json_at(d, 16)
    &&& f.flag9@ == json_at(d, 17)
    &&& f.flag10@ == json_at(d, 18)
    &&& f.flag11@ == json_at(d, 19)
    &&& f.flag12@ == json_at(d, 20)
    &&& f.flag13@ == json_at(d, 21)
    &&& f.flag14@ == json_at(d, 22)
    &&& f.flag15@ == json_at(d, 23)
    &&& f.flag16@ == json_at(d, 24)
}

/// The fields of a player sync packet read from `p` and its data `d`.
pub open spec fn player_sync_fields(p: Seq<Json>, d: Seq<Json>, s: PlayerSyncData) -> bool {
    &&& s.packet_type@ == text_field(p[0])
    &&& s.id == int_field(d[0])
    &&& s.team == int_field(d[1])
    &&& s.position == Position { x: real_field(d[2]), y: real_field(d[3]), z: real_field(d[4]) }
    &&& s.velocity == Position { x: real_field(d[5]), y: real_field(d[6]), z: real_field(d[7]) }
    &&& s.rotation == real_field(d[8])
    &&& player_flags_fields(d, s.flags)
}

/// What parsing `p` as a player sync packet gives.
pub open spec fn player_sync_result(p: Seq<Json>, r: Result<PacketData, String>) -> bool {
    if p.len() < 2 {
        fails_with(r, "Invalid player sync packet length"@)
    } else {
        match array_of(p[1]) {
            None => fails_with(r, "Invalid player sync data"@),
            Some(d) => if d.len() < 20 {
                fails_with(r, "Insufficient player sync data"@)
            } else {
                r matches Ok(PacketData::PlayerSync(s)) && player_sync_fields(p, d, s)
            },
        }
    }
}

/// The fields of a player init packet read from `p` and its data `d`.
pub open spec fn player_init_fields(p: Seq<Json>, d: Seq<Json>, i: PlayerInitData) -> bool {
    &&& i.packet_type@ == text_field(p[0])
    &&& i.uid == int_field(d[0])
    &&& i.class_id == int_field(d[1])
    &&& i.score == int_field(d[2])
    &&& i.position == Position2D { x: real_field(d[3]), y: real_field(d[4]) }
    &&& i.username@ == text_field(d[5])
    &&& i.alive == bool_field(d[6])
    &&& i.health == real_field(d[7])
    &&& i.max_health == real_field(d[8])
    &&& i.clan@ == text_field(json_at(d, 11))
    &&& i.angle == real_field(json_at(d, 18))
    &&& i.game_mode == int_field(json_at(d, 20))
    &&& i.weapon_id == int_field(json_at(d, 23))
    &&& values_view(i.raw@) == d
    &&& i.broadcast_flag@ == json_at(p, 2)
}

/// What parsing `p` as a player init packet gives.
pub open spec fn player_init_result(p: Seq<Json>, r: Result<PacketData, String>) -> bool {
    if p.len() < 3 {
        fails_with(r, "Invalid player init packet length"@)
    } else {
        match array_of(p[1]) {
            None => fails_with(r, "Invalid player init data"@),
            Some(d) => if d.len() < 24 {
                fails_with(r, "Insufficient player init data"@)
            } else {
                r matches Ok(PacketData::PlayerInit(i)) && player_init_fields(p, d, i)
            },
        }
    }
}

/// What parsing packet `p` with opcode `op` gives, under the opcode names
/// `names`.
pub open spec fn data_result(
    names: Map<Seq<char>, Seq<char>>,
    op: Seq<char>,
    p: Seq<Json>,
    r: Result<PacketData, String>,
) -> bool {
    if op == "sp"@ {
        spawn_result(p, r)
    } else if op == "mv"@ {
        move_result(p, r)
    } else if op == "k"@ {
        update_players_result(p, r)
    } else if op == "q"@ {
        lobby_move_result(p, r)
    } else if op == "3"@ {
        hit_result(p, r)
    } else if op == "gsc"@ {
        game_state_result(p, r)
    } else if op == "chi"@ {
        chat_result(p, r)
    } else if op == "l"@ {
        player_sync_result(p, r)
    } else if op == "0"@ {
        player_init_result(p, r)
    } else {
        &&& r matches Ok(PacketData::Generic(g))
        &&& g.packet_type@ == op
        &&& g.name@ == opcode_name(names, op)
        &&& values_view(g.raw@) == p
    }
}

/// The opcode of packet `p`: the text in its first slot.
pub open spec fn packet_opcode(p: Seq<Json>) -> Option<Seq<char>> {
    if p.len() == 0 {
        None
    } else {
        match p[0] {
            Json::Str(op) => Some(op),
            _ => None,
        }
    }
}

/// Parsing packet `p` stops the program: it is a player update whose data is
/// too short for what the parser reads.
pub open spec fn parse_panics(p: Seq<Json>) -> bool {
    packet_opcode(p) == Some("k"@) && update_players_panics(p)
}

/// What parsing packet `p` gives under the opcode names `names`.
pub open spec fn packet_result(
    names: Map<Seq<char>, Seq<char>>,
    p: Seq<Json>,
    r: Result<ParsedPacket, String>,
) -> bool {
    if p.len() == 0 {
        fails_with(r, "Empty packet"@)
    } else {
        match packet_opcode(p) {
            None => fails_with(r, "Invalid opcode"@),
            Some(op) => match r {
                Ok(pp) => {
                    &&& pp.opcode@ == op
                    &&& pp.meaning@ == opcode_name(names, op)
                    &&& data_result(names, op, p, Ok(pp.parsed))
                },
                Err(e) => data_result(names, op, p, Err(e)),
            },
        }
    }
}

/// The failure with message `msg`.
fn fail<T>(msg: &str) -> (r: Result<T, String>)
    ensures
        fails_with(r, msg@),
{
    Err(String::from_str(msg))
}

/// Whether parsing `packet` would stop the program (see [`parse_panics`]);
/// a caller that must behave as the parser does stops where this holds.
pub fn parse_would_panic(packet: &[JsonValue]) -> (r: bool)
    ensures
        r == parse_panics(values_view(packet@)),
{
    if packet.len() < 2 {
        return false;
    }
    let ghost p = values_view(packet@);
    let is_k = match &packet[0] {
        JsonValue::Str(op) => text_eq(op.as_str(), "k"),
        _ => false,
    };
    assert(is_k == (packet_opcode(p) == Some("k"@)));
    match &packet[1] {
        JsonValue::Array(d) => {
            assert(p[1] == Json::Array(values_view(d@)));
            is_k && 13 <= d.len() && d.len() < 20
        },
        _ => false,
    }
}

/// A copy of the values of `items`.
fn copy_slice(items: &[JsonValue]) -> (r: Vec<JsonValue>)
    ensures
        values_view(r@) == values_view(items@),
{
    let mut r: Vec<JsonValue> = Vec::new();
    let mut i: usize = 0;
    while i < items.len()
        invariant
            i <= items.len(),
            r@.len() == i,
            forall|j: int| 0 <= j < i ==> (#[trigger] r@[j])@ == items@[j]@,
        decreases items.len() - i,
    {
        r.push(items[i].deep_copy());
        i = i + 1;
    }
    assert(values_view(r@) =~= values_view(items@));
    r
}

/// Parses decoded packets and names their opcodes.
pub struct PacketParser {
    opcode_names: Vec<(&'static str, &'static str)>,
}

impl View for PacketParser {
    type V = Map<Seq<char>, Seq<char>>;

    /// The map from opcode to name.
    closed spec fn view(&self) -> Map<Seq<char>, Seq<char>> {
        entries_map(self.opcode_names@)
    }
}

impl PacketParser {
    /// A parser with the full opcode table.
    pub fn new() -> (r: PacketParser)
        ensures
            r@ == entries_map(opcode_table()),
    {
        PacketParser { opcode_names: table_entries() }
    }

    /// The name of `code`: its name in the table, or `UNKNOWN (code)`.
    pub fn get_opcode_name(&self, code: &str) -> (r: String)
        ensures
            r@ == opcode_name(self@, code@),
    {
        let entries = &self.opcode_names;
        let mut i = entries.len();
        assert(entries@.subrange(0, i as int) =~= entries@);
        while i > 0
            invariant
                entries@ == self.opcode_names@,
                i <= entries.len(),
                table_lookup(entries@, code@) == table_lookup(
                    entries@.subrange(0, i as int),
                    code@,
                ),
            decreases i,
        {
            let ghost prefix = entries@.subrange(0, i as int);
            assert(prefix.drop_last() =~= entries@.subrange(0, i - 1));
            i = i - 1;
            let (key, name) = entries[i];
            assert(prefix.last() == (key, name));
            if text_eq(key, code) {
                proof {
                    assert(table_lookup(prefix, code@) == Some(name@));
                    lemma_table_lookup_map(entries@, code@);
                }
                return String::from_str(name);
            }
        }
        proof {
            lemma_table_lookup_map(entries@, code@);
        }
        let mut r = String::from_str("UNKNOWN (");
        r.append(code);
        r.concat(")")
    }

    fn parse_spawn(&self, packet: &[JsonValue]) -> (r: Result<PacketData, String>)
        ensures
            spawn_result(values_view(packet@), r),
    {
        if packet.len() < 10 {
            return fail("Invalid spawn packet length");
        }
        Ok(
            PacketData::Spawn(
                SpawnData {
                    packet_type: packet[0].text_or_empty(),
                    name: packet[1].text_or_empty(),
                    hp: packet[2].real_or_zero(),
                    x: packet[3].real_or_zero(),
                    y: packet[4].real_or_zero(),
                    z: packet[5].real_or_zero(),
                    rot_y: packet[6].real_or_zero(),
                    pitch: packet[7].real_or_zero(),
                    z_vel: packet[8].real_or_zero(),
                    team: packet[9].int_or_zero(),
                },
            ),
        )
    }

    fn parse_move(&self, packet: &[JsonValue]) -> (r: Result<PacketData, String>)
        ensures
            move_result(values_view(packet@), r),
    {
        if packet.len() < 3 {
            return fail("Invalid move packet length");
        }
        Ok(
            PacketData::Move(
                MoveData {
                    packet_type: packet[0].text_or_empty(),
                    pos_map: packet[1].deep_copy(),
                    path: packet[2].deep_copy(),
                },
            ),
        )
    }

    fn parse_update_players(&self, packet: &[JsonValue]) -> (r: Result<PacketData, String>)
        requires
            !update_players_panics(values_view(packet@)),
        ensures
            update_players_result(values_view(packet@), r),
    {
        if packet.len() < 2 {
            return fail("Invalid update_players packet length");
        }
        let data = match &packet[1] {
            JsonValue::Array(d) => d,
            _ => return fail("Invalid update_players data format"),
        };
        let ghost d = values_view(data@);
        assert(values_view(packet@)[1] == Json::Array(d));
        if data.len() < 13 {
            let mut msg = String::from_str(
                "Insufficient update_players data length: expected 13, got ",
            );
            let count = decimal_text(data.len());
            msg.append(count.as_str());
            return Err(msg);
        }
        Ok(
            PacketData::UpdatePlayers(
                UpdatePlayersData {
                    player_id: data[0].int_or_zero(),
                    first_focused_position: Position {
                        x: data[1].real_or_zero(),
                        y: data[2].real_or_zero(),
                        z: data[3].real_or_zero(),
                    },
                    view_angles: ViewAngles {
                        yaw: data[4].int_or_zero(),
                        pitch: data[5].int_or_zero(),
                    },
                    momentum_a: data[6].real_or_zero(),
                    momentum_b: data[19].real_or_zero(),
                    focused_player_ping: data[12].int_or_zero(),
                    team_id: data[13].int_or_zero(),
                    state_flags: PlayerStateFlags {
                        on_ground: data[7].is_one(),
                        is_crouching: data[8].is_one(),
                        using_secondary: data[9].is_one(),
                        hip_firing: data[10].is_one(),
                        flag_11: data[11].is_one(),
                    },
                    second_focused_position: Position {
                        x: data[14].real_or_zero(),
                        y: data[15].real_or_zero(),
                        z: data[16].real_or_zero(),
                    },
                    second_focused_view_angles: ViewAngles {
                        yaw: data[17].int_or_zero(),
                        pitch: data[18].int_or_zero(),
                    },
                },
            ),
        )
    }

    fn parse_lobby_move(&self, packet: &[JsonValue]) -> (r: Result<PacketData, String>)
        ensures
            lobby_move_result(values_view(packet@), r),
    {
        if packet.len() < 5 {
            return fail("Invalid lobby move packet length");
        }
        Ok(
            PacketData::LobbyMove(
                LobbyMoveData {
                    packet_type: packet[0].text_or_empty(),
                    player_id: packet[1].text_or_empty(),
                    code: packet[2].text_or_empty(),
                    session_id: packet[3].text_or_empty(),
                    state: packet[4].int_or_zero(),
                },
            ),
        )
    }

    fn parse_hit(&self, packet: &[JsonValue]) -> (r: Result<PacketData, String>)
        ensures
            hit_result(values_view(packet@), r),
    {
        if packet.len() < 7 {
            return fail("Invalid hit packet length");
        }
        let extra = match &packet[5] {
            JsonValue::Object(e) => e,
            _ => return fail("Invalid extra data"),
        };
        let ghost entries = entries_view(extra@);
        assert(values_view(packet@)[5] == Json::Object(entries));
        let distance = match object_lookup(extra, "dst") {
            Some(v) => v.real_or_zero(),
            None => JsonNumber::Float(0),
        };
        let is_headshot = match object_lookup(extra, "hs") {
            Some(v) => v.bool_or_false(),
            None => false,
        };
        let is_wallbang = match object_lookup(extra, "wb") {
            Some(v) => v.bool_or_false(),
            None => false,
        };
        let weapon_id = match object_lookup(extra, "wId") {
            Some(v) => v.int_or_zero(),
            None => 0,
        };
        Ok(
            PacketData::Hit(
                HitData {
                    packet_type: packet[0].text_or_empty(),
                    attacker_id: packet[1].int_or_zero(),
                    victim_id: packet[2].int_or_zero(),
                    damage: packet[3].real_or_zero(),
                    effects: packet[4].deep_copy(),
                    hit_info: HitInfo { distance, is_headshot, is_wallbang, weapon_id },
                    meta: packet[6].deep_copy(),
                },
            ),
        )
    }

    fn parse_chat(&self, packet: &[JsonValue]) -> (r: Result<PacketData, String>)
        ensures
            chat_result(values_view(packet@), r),
    {
        if packet.len() < 6 {
            return fail("Invalid chat packet length");
        }
        let ghost md = chat_message_data(values_view(packet@));
        let (message, player) = match &packet[3] {
            JsonValue::Array(items) => {
                assert(values_view(packet@)[3] == Json::Array(values_view(items@)));
                let m = if items.len() > 0 {
                    items[0].text_or_empty()
                } else {
                    String::new()
                };
                let p = if items.len() > 1 {
                    items[1].text_or_empty()
                } else {
                    String::new()
                };
                (m, p)
            },
            _ => (String::new(), String::new()),
        };
        assert(message@ == text_field(json_at(md, 0)));
        assert(player@ == text_field(json_at(md, 1)));
        let mut meaning = player.clone();
        meaning.append(" triggered ");
        meaning.append(message.as_str());
        Ok(
            PacketData::Chat(
                ChatData {
                    packet_type: packet[0].text_or_empty(),
                    category: packet[1].int_or_zero(),
                    message,
                    player,
                    priority: packet[4].int_or_zero(),
                    meta: packet[5].deep_copy(),
                    meaning,
                },
            ),
        )
    }

    fn parse_game_state(&self, packet: &[JsonValue]) -> (r: Result<PacketData, String>)
        ensures
            game_state_result(values_view(packet@), r),
    {
        if packet.len() < 2 {
            return fail("Invalid game state packet length");
        }
        let state_code = packet[1].int_or_zero();
        let meaning = if state_code == 0 {
            "Game Ended"
        } else if state_code == 1 {
            "Pre-game"
        } else if state_code == 2 {
            "Warm-up"
        } else if state_code == 3 {
            "Countdown"
        } else if state_code == 4 {
            "Game In Progress"
        } else {
            "Unknown"
        };
        Ok(
            PacketData::GameState(
                GameStateData {
                    packet_type: packet[0].text_or_empty(),
                    state_code,
                    meaning: String::from_str(meaning),
                },
            ),
        )
    }

    fn parse_player_sync(&self, packet: &[JsonValue]) -> (r: Result<PacketData, String>)
        ensures
            player_sync_result(values_view(packet@), r),
    {
        if packet.len() < 2 {
            return fail("Invalid player sync packet length");
        }
        let data = match &packet[1] {
            JsonValue::Array(d) => d,
            _ => return fail("Invalid player sync data"),
        };
        let ghost d = values_view(data@);
        assert(values_view(packet@)[1] == Json::Array(d));
        if data.len() < 20 {
            return fail("Insufficient player sync data");
        }
        let flags = PlayerFlags {
            flag1: value_at_or_null(data, 9),
            flag2: value_at_or_null(data, 10),
            flag3: value_at_or_null(data, 11),
            flag4: value_at_or_null(data, 12),
            flag5: value_at_or_null(data, 13),
            flag6: value_at_or_null(data, 14),
            flag7: value_at_or_null(data, 15),
            flag8: value_at_or_null(data, 16),
            flag9: value_at_or_null(data, 17),
            flag10: value_at_or_null(data, 18),
            flag11: value_at_or_null(data, 19),
            flag12: value_at_or_null(data, 20),
            flag13: value_at_or_null(data, 21),
            flag14: value_at_or_null(data, 22),
            flag15: value_at_or_null(data, 23),
            flag16: value_at_or_null(data, 24),
        };
        Ok(
            PacketData::PlayerSync(
                PlayerSyncData {
                    packet_type: packet[0].text_or_empty(),
                    id: data[0].int_or_zero(),
                    team: data[1].int_or_zero(),
                    position: Position {
                        x: data[2].real_or_zero(),
                        y: data[3].real_or_zero(),
                        z: data[4].real_or_zero(),
                    },
                    velocity: Position {
                        x: data[5].real_or_zero(),
                        y: data[6].real_or_zero(),
                        z: data[7].real_or_zero(),
                    },
                    rotation: data[8].real_or_zero(),
                    flags,
                },
            ),
        )
    }

    fn parse_player_init(&self, packet: &[JsonValue]) -> (r: Result<PacketData, String>)
        ensures
            player_init_result(values_view(packet@), r),
    {
        if packet.len() < 3 {
            return fail("Invalid player init packet length");
        }
        let data = match &packet[1] {
            JsonValue::Array(d) => d,
            _ => return fail("Invalid player init data"),
        };
        let ghost d = values_view(data@);
        assert(values_view(packet@)[1] == Json::Array(d));
        if data.len() < 24 {
            return fail("Insufficient player init data");
        }
        Ok(
            PacketData::PlayerInit(
                PlayerInitData {
                    packet_type: packet[0].text_or_empty(),
                    uid: data[0].int_or_zero(),
                    class_id: data[1].int_or_zero(),
                    score: data[2].int_or_zero(),
                    position: Position2D { x: data[3].real_or_zero(), y: data[4].real_or_zero() },
                    username: data[5].text_or_empty(),
                    alive: data[6].bool_or_false(),
                    health: data[7].real_or_zero(),
                    max_health: data[8].real_or_zero(),
                    clan: data[11].text_or_empty(),
                    angle: data[18].real_or_zero(),
                    game_mode: data[20].int_or_zero(),
                    weapon_id: data[23].int_or_zero(),
                    raw: copy_values(data),
                    broadcast_flag: packet[2].deep_copy(),
                },
            ),
        )
    }

    /// Parses a decoded packet: its opcode is the text in its first slot,
    /// its meaning that opcode's name, and its contents are read as the
    /// opcode's kind of packet, or kept whole for an opcode of no known kind.
    pub fn parse_packet(&self, packet: &[JsonValue]) -> (r: Result<ParsedPacket, String>)
        requires
            !parse_panics(values_view(packet@)),
        ensures
            packet_result(self@, values_view(packet@), r),
    {
        let ghost p = values_view(packet@);
        if packet.len() == 0 {
            return fail("Empty packet");
        }
        let opcode: &str = match &packet[0] {
            JsonValue::Str(s) => s.as_str(),
            _ => return fail("Invalid opcode"),
        };
        assert(packet_opcode(p) == Some(opcode@));
        let meaning = self.get_opcode_name(opcode);
        let parsed = if text_eq(opcode, "sp") {
            self.parse_spawn(packet)
        } else if text_eq(opcode, "mv") {
            self.parse_move(packet)
        } else if text_eq(opcode, "k") {
            self.parse_update_players(packet)
        } else if text_eq(opcode, "q") {
            self.parse_lobby_move(packet)
        } else if text_eq(opcode, "3") {
            self.parse_hit(packet)
        } else if text_eq(opcode, "gsc") {
            self.parse_game_state(packet)
        } else if text_eq(opcode, "chi") {
            self.parse_chat(packet)
        } else if text_eq(opcode, "l") {
            self.parse_player_sync(packet)
        } else if text_eq(opcode, "0") {
            self.parse_player_init(packet)
        } else {
            Ok(
                PacketData::Generic(
                    GenericData {
                        packet_type: String::from_str(opcode),
                        name: meaning.clone(),
                        raw: copy_slice(packet),
                    },
                ),
            )
        };
        assert(data_result(self@, opcode@, p, parsed));
        match parsed {
            Ok(parsed) => Ok(ParsedPacket { opcode: String::from_str(opcode), meaning, parsed }),
            Err(e) => Err(e),
        }
    }
}

} // verus!
