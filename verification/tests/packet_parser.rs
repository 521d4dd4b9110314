use glorp::json::{copy_values, JsonNumber, JsonValue};
use glorp::packets::{PacketData, Position, ViewAngles};
use glorp::parser::{parse_would_panic, PacketParser};

fn s(t: &str) -> JsonValue {
    JsonValue::Str(t.to_string())
}

fn n(i: i64) -> JsonValue {
    if i >= 0 {
        JsonValue::Number(JsonNumber::PosInt(i as u64))
    } else {
        JsonValue::Number(JsonNumber::NegInt(i))
    }
}

fn fl(f: f64) -> JsonValue {
    JsonValue::Number(JsonNumber::Float(f.to_bits()))
}

fn num(f: f64) -> JsonNumber {
    JsonNumber::Float(f.to_bits())
}

fn zero() -> JsonNumber {
    JsonNumber::Float(0)
}

fn arr(items: Vec<JsonValue>) -> JsonValue {
    JsonValue::Array(items)
}

#[test]
fn opcode_names_from_table() {
    let p = PacketParser::new();
    assert_eq!(p.get_opcode_name("k"), "UPDATE_PLAYERS");
    assert_eq!(p.get_opcode_name("6"), "GET_KILL");
    assert_eq!(p.get_opcode_name("_0"), "RPC_SUCCESS");
    assert_eq!(p.get_opcode_name("prr"), "POPUP_REGISTER_REWARDS");
    assert_eq!(p.get_opcode_name("sp"), "ADD_SPRAY");
}

#[test]
fn unknown_opcode_name() {
    let p = PacketParser::new();
    assert_eq!(p.get_opcode_name("zzz"), "UNKNOWN (zzz)");
    assert_eq!(p.get_opcode_name(""), "UNKNOWN ()");
    assert_eq!(p.get_opcode_name("K"), "UNKNOWN (K)");
}

#[test]
fn empty_packet_is_rejected() {
    let p = PacketParser::new();
    assert_eq!(p.parse_packet(&[]), Err("Empty packet".to_string()));
}

#[test]
fn non_text_opcode_is_rejected() {
    let p = PacketParser::new();
    assert_eq!(p.parse_packet(&[n(3)]), Err("Invalid opcode".to_string()));
    assert_eq!(p.parse_packet(&[JsonValue::Null, s("x")]), Err("Invalid opcode".to_string()));
}

#[test]
fn spawn_packet() {
    let p = PacketParser::new();
    let pkt = vec![
        s("sp"), s("alice"), n(100), fl(1.5), n(-2), fl(3.0), s("no"), fl(0.25),
        JsonValue::Bool(true), n(7),
    ];
    let r = p.parse_packet(&pkt).unwrap();
    assert_eq!(r.opcode, "sp");
    assert_eq!(r.meaning, "ADD_SPRAY");
    match r.parsed {
        PacketData::Spawn(d) => {
            assert_eq!(d.packet_type, "sp");
            assert_eq!(d.name, "alice");
            assert_eq!(d.hp, JsonNumber::PosInt(100));
            assert_eq!(d.x, num(1.5));
            assert_eq!(d.y, JsonNumber::NegInt(-2));
            assert_eq!(d.z, num(3.0));
            assert_eq!(d.rot_y, zero());
            assert_eq!(d.pitch, num(0.25));
            assert_eq!(d.z_vel, zero());
            assert_eq!(d.team, 7);
        }
        other => panic!("unexpected {:?}", other),
    }
}

#[test]
fn spawn_packet_too_short() {
    let p = PacketParser::new();
    let pkt = vec![s("sp"), s("alice")];
    assert_eq!(p.parse_packet(&pkt), Err("Invalid spawn packet length".to_string()));
}

#[test]
fn move_packet_keeps_values() {
    let p = PacketParser::new();
    let pos_map = JsonValue::Object(vec![("a".to_string(), arr(vec![n(1), n(2)]))]);
    let pkt = vec![s("mv"), pos_map.deep_copy(), arr(vec![s("p")])];
    let r = p.parse_packet(&pkt).unwrap();
    assert_eq!(r.meaning, "UPD_MATCH_VOTE");
    match r.parsed {
        PacketData::Move(m) => {
            assert_eq!(m.packet_type, "mv");
            assert_eq!(m.pos_map, pos_map);
            assert_eq!(m.path, arr(vec![s("p")]));
        }
        other => panic!("unexpected {:?}", other),
    }
    assert_eq!(
        p.parse_packet(&[s("mv"), n(1)]),
        Err("Invalid move packet length".to_string())
    );
}

#[test]
fn update_players_packet() {
    let p = PacketParser::new();
    let mut data: Vec<JsonValue> = (0..20).map(|i| n(i)).collect();
    data[7] = n(1);
    data[8] = n(0);
    data[9] = JsonValue::Bool(true);
    data[10] = n(1);
    data[11] = n(2);
    data[4] = n(1i64 << 32 | 5);
    data[19] = fl(9.5);
    let pkt = vec![s("k"), arr(data)];
    assert!(!parse_would_panic(&pkt));
    let r = p.parse_packet(&pkt).unwrap();
    assert_eq!(r.meaning, "UPDATE_PLAYERS");
    match r.parsed {
        PacketData::UpdatePlayers(u) => {
            assert_eq!(u.player_id, 0);
            assert_eq!(
                u.first_focused_position,
                Position { x: JsonNumber::PosInt(1), y: JsonNumber::PosInt(2), z: JsonNumber::PosInt(3) }
            );
            assert_eq!(u.view_angles, ViewAngles { yaw: 5, pitch: 5 });
            assert_eq!(u.momentum_a, JsonNumber::PosInt(6));
            assert_eq!(u.momentum_b, num(9.5));
            assert_eq!(u.focused_player_ping, 12);
            assert_eq!(u.team_id, 13);
            assert!(u.state_flags.on_ground);
            assert!(!u.state_flags.is_crouching);
            assert!(!u.state_flags.using_secondary);
            assert!(u.state_flags.hip_firing);
            assert!(!u.state_flags.flag_11);
            assert_eq!(u.second_focused_position.z, JsonNumber::PosInt(16));
            assert_eq!(u.second_focused_view_angles, ViewAngles { yaw: 17, pitch: 18 });
        }
        other => panic!("unexpected {:?}", other),
    }
}

#[test]
fn update_players_errors() {
    let p = PacketParser::new();
    assert_eq!(
        p.parse_packet(&[s("k")]),
        Err("Invalid update_players packet length".to_string())
    );
    assert_eq!(
        p.parse_packet(&[s("k"), n(1)]),
        Err("Invalid update_players data format".to_string())
    );
    let short: Vec<JsonValue> = (0..5).map(|i| n(i)).collect();
    assert_eq!(
        p.parse_packet(&[s("k"), arr(short)]),
        Err("Insufficient update_players data length: expected 13, got 5".to_string())
    );
    assert_eq!(
        p.parse_packet(&[s("k"), arr(vec![])]),
        Err("Insufficient update_players data length: expected 13, got 0".to_string())
    );
}

#[test]
fn update_players_short_data_would_panic() {
    let data: Vec<JsonValue> = (0..15).map(|i| n(i)).collect();
    assert!(parse_would_panic(&[s("k"), arr(copy_values(&data))]));
    assert!(!parse_would_panic(&[s("l"), arr(data)]));
    assert!(!parse_would_panic(&[s("k")]));
}

#[test]
fn lobby_move_packet() {
    let p = PacketParser::new();
    let pkt = vec![s("q"), s("pid"), s("code"), n(4), n(-3)];
    let r = p.parse_packet(&pkt).unwrap();
    assert_eq!(r.meaning, "UNKNOWN (q)");
    match r.parsed {
        PacketData::LobbyMove(l) => {
            assert_eq!(l.packet_type, "q");
            assert_eq!(l.player_id, "pid");
            assert_eq!(l.code, "code");
            assert_eq!(l.session_id, "");
            assert_eq!(l.state, -3);
        }
        other => panic!("unexpected {:?}", other),
    }
    assert_eq!(
        p.parse_packet(&[s("q"), s("pid")]),
        Err("Invalid lobby move packet length".to_string())
    );
}

#[test]
fn hit_packet() {
    let p = PacketParser::new();
    let extra = JsonValue::Object(vec![
        ("dst".to_string(), fl(12.5)),
        ("hs".to_string(), JsonValue::Bool(true)),
        ("wId".to_string(), n(4)),
    ]);
    let pkt = vec![s("3"), n(1), n(2), n(30), arr(vec![]), extra, s("meta")];
    let r = p.parse_packet(&pkt).unwrap();
    assert_eq!(r.meaning, "UNKNOWN (3)");
    match r.parsed {
        PacketData::Hit(h) => {
            assert_eq!(h.attacker_id, 1);
            assert_eq!(h.victim_id, 2);
            assert_eq!(h.damage, JsonNumber::PosInt(30));
            assert_eq!(h.effects, arr(vec![]));
            assert_eq!(h.hit_info.distance, num(12.5));
            assert!(h.hit_info.is_headshot);
            assert!(!h.hit_info.is_wallbang);
            assert_eq!(h.hit_info.weapon_id, 4);
            assert_eq!(h.meta, s("meta"));
        }
        other => panic!("unexpected {:?}", other),
    }
}

#[test]
fn hit_packet_errors() {
    let p = PacketParser::new();
    assert_eq!(p.parse_packet(&[s("3"), n(1)]), Err("Invalid hit packet length".to_string()));
    let pkt = vec![s("3"), n(1), n(2), n(30), arr(vec![]), n(5), s("meta")];
    assert_eq!(p.parse_packet(&pkt), Err("Invalid extra data".to_string()));
}

#[test]
fn hit_packet_later_key_wins() {
    let p = PacketParser::new();
    let extra = JsonValue::Object(vec![
        ("wId".to_string(), n(4)),
        ("wId".to_string(), n(9)),
    ]);
    let pkt = vec![s("3"), n(1), n(2), n(30), arr(vec![]), extra, s("meta")];
    match p.parse_packet(&pkt).unwrap().parsed {
        PacketData::Hit(h) => assert_eq!(h.hit_info.weapon_id, 9),
        other => panic!("unexpected {:?}", other),
    }
}

#[test]
fn chat_packet() {
    let p = PacketParser::new();
    let pkt = vec![s("chi"), n(2), JsonValue::Null, arr(vec![s("msg.key"), s("bob")]), n(1), s("m")];
    let r = p.parse_packet(&pkt).unwrap();
    assert_eq!(r.meaning, "ADD_CHATI18N");
    match r.parsed {
        PacketData::Chat(c) => {
            assert_eq!(c.category, 2);
            assert_eq!(c.message, "msg.key");
            assert_eq!(c.player, "bob");
            assert_eq!(c.priority, 1);
            assert_eq!(c.meta, s("m"));
            assert_eq!(c.meaning, "bob triggered msg.key");
        }
        other => panic!("unexpected {:?}", other),
    }
}

#[test]
fn chat_packet_without_message_array() {
    let p = PacketParser::new();
    let pkt = vec![s("chi"), n(2), JsonValue::Null, n(3), n(1), s("m")];
    match p.parse_packet(&pkt).unwrap().parsed {
        PacketData::Chat(c) => {
            assert_eq!(c.message, "");
            assert_eq!(c.player, "");
            assert_eq!(c.meaning, " triggered ");
        }
        other => panic!("unexpected {:?}", other),
    }
    assert_eq!(p.parse_packet(&[s("chi")]), Err("Invalid chat packet length".to_string()));
}

#[test]
fn game_state_meanings() {
    let p = PacketParser::new();
    let expected = [
        (0, "Game Ended"),
        (1, "Pre-game"),
        (2, "Warm-up"),
        (3, "Countdown"),
        (4, "Game In Progress"),
        (5, "Unknown"),
        (-1, "Unknown"),
    ];
    for (code, meaning) in expected {
        let r = p.parse_packet(&[s("gsc"), n(code)]).unwrap();
        assert_eq!(r.meaning, "GAME_STATE_CHANGED");
        match r.parsed {
            PacketData::GameState(g) => {
                assert_eq!(g.state_code, code as i32);
                assert_eq!(g.meaning, meaning);
            }
            other => panic!("unexpected {:?}", other),
        }
    }
    match p.parse_packet(&[s("gsc"), s("x")]).unwrap().parsed {
        PacketData::GameState(g) => assert_eq!(g.meaning, "Game Ended"),
        other => panic!("unexpected {:?}", other),
    }
    assert_eq!(p.parse_packet(&[s("gsc")]), Err("Invalid game state packet length".to_string()));
}

#[test]
fn player_sync_packet() {
    let p = PacketParser::new();
    let data: Vec<JsonValue> = (0..22).map(|i| n(i)).collect();
    let r = p.parse_packet(&[s("l"), arr(data)]).unwrap();
    assert_eq!(r.meaning, "SYNC_PLAYER");
    match r.parsed {
        PacketData::PlayerSync(d) => {
            assert_eq!(d.id, 0);
            assert_eq!(d.team, 1);
            assert_eq!(d.position.x, JsonNumber::PosInt(2));
            assert_eq!(d.velocity.z, JsonNumber::PosInt(7));
            assert_eq!(d.rotation, JsonNumber::PosInt(8));
            assert_eq!(d.flags.flag1, n(9));
            assert_eq!(d.flags.flag13, n(21));
            assert_eq!(d.flags.flag14, JsonValue::Null);
            assert_eq!(d.flags.flag16, JsonValue::Null);
        }
        other => panic!("unexpected {:?}", other),
    }
}

#[test]
fn player_sync_errors() {
    let p = PacketParser::new();
    assert_eq!(p.parse_packet(&[s("l")]), Err("Invalid player sync packet length".to_string()));
    assert_eq!(p.parse_packet(&[s("l"), s("x")]), Err("Invalid player sync data".to_string()));
    let data: Vec<JsonValue> = (0..19).map(|i| n(i)).collect();
    assert_eq!(p.parse_packet(&[s("l"), arr(data)]), Err("Insufficient player sync data".to_string()));
}

#[test]
fn player_init_packet() {
    let p = PacketParser::new();
    let mut data: Vec<JsonValue> = (0..24).map(|i| n(i)).collect();
    data[5] = s("carol");
    data[6] = JsonValue::Bool(true);
    data[11] = s("CLAN");
    data[18] = fl(1.25);
    let r = p.parse_packet(&[s("0"), arr(copy_values(&data)), n(1)]).unwrap();
    assert_eq!(r.meaning, "ADD_PLAYERS");
    match r.parsed {
        PacketData::PlayerInit(d) => {
            assert_eq!(d.uid, 0);
            assert_eq!(d.class_id, 1);
            assert_eq!(d.score, 2);
            assert_eq!(d.position.x, JsonNumber::PosInt(3));
            assert_eq!(d.username, "carol");
            assert!(d.alive);
            assert_eq!(d.health, JsonNumber::PosInt(7));
            assert_eq!(d.clan, "CLAN");
            assert_eq!(d.angle, num(1.25));
            assert_eq!(d.game_mode, 20);
            assert_eq!(d.weapon_id, 23);
            assert_eq!(d.raw, data);
            assert_eq!(d.broadcast_flag, n(1));
        }
        other => panic!("unexpected {:?}", other),
    }
}

#[test]
fn player_init_errors() {
    let p = PacketParser::new();
    assert_eq!(p.parse_packet(&[s("0"), arr(vec![])]), Err("Invalid player init packet length".to_string()));
    assert_eq!(p.parse_packet(&[s("0"), n(1), n(2)]), Err("Invalid player init data".to_string()));
    let data: Vec<JsonValue> = (0..23).map(|i| n(i)).collect();
    assert_eq!(
        p.parse_packet(&[s("0"), arr(data), n(2)]),
        Err("Insufficient player init data".to_string())
    );
}

#[test]
fn generic_packet_is_kept_whole() {
    let p = PacketParser::new();
    let pkt = vec![s("h"), n(80), arr(vec![s("x"), JsonValue::Null]), fl(-0.5)];
    let r = p.parse_packet(&pkt).unwrap();
    assert_eq!(r.opcode, "h");
    assert_eq!(r.meaning, "CHANGE_HEALTH");
    match r.parsed {
        PacketData::Generic(g) => {
            assert_eq!(g.packet_type, "h");
            assert_eq!(g.name, "CHANGE_HEALTH");
            assert_eq!(g.raw, pkt);
        }
        other => panic!("unexpected {:?}", other),
    }
}

#[test]
fn generic_packet_with_unknown_opcode() {
    let p = PacketParser::new();
    let r = p.parse_packet(&[s("nope")]).unwrap();
    assert_eq!(r.meaning, "UNKNOWN (nope)");
    match r.parsed {
        PacketData::Generic(g) => {
            assert_eq!(g.name, "UNKNOWN (nope)");
            assert_eq!(g.raw, vec![s("nope")]);
        }
        other => panic!("unexpected {:?}", other),
    }
}
