use glorp::json::{copy_values, JsonNumber, JsonValue};
use glorp::packets::PacketData;
use glorp::parser::PacketParser;
use glorp::payload::select_kill_packet;
use glorp::text::decimal_text;
use glorp::web_message::{classify_config_value, split_text, ConfigValue};

fn s(t: &str) -> JsonValue {
    JsonValue::Str(t.to_string())
}

fn n(i: u64) -> JsonValue {
    JsonValue::Number(JsonNumber::PosInt(i))
}

#[test]
fn meaning_is_always_the_opcode_name() {
    let p = PacketParser::new();
    let data: Vec<JsonValue> = (0..24).map(n).collect();
    let packets = vec![
        vec![s("gsc"), n(2)],
        vec![s("mv"), n(1), n(2)],
        vec![s("l"), JsonValue::Array(copy_values(&data))],
        vec![s("0"), JsonValue::Array(copy_values(&data)), n(0)],
        vec![s("whatever"), JsonValue::Null],
        vec![s("ts")],
    ];
    for pkt in packets {
        let r = p.parse_packet(&pkt).unwrap();
        assert_eq!(pkt[0], s(&r.opcode));
        assert_eq!(r.meaning, p.get_opcode_name(&r.opcode));
    }
}

#[test]
fn generic_packets_are_kept_whole() {
    let p = PacketParser::new();
    let pkt = vec![s("ts"), JsonValue::Object(vec![("a".to_string(), n(1))]), JsonValue::Bool(false)];
    let r = p.parse_packet(&pkt).unwrap();
    match r.parsed {
        PacketData::Generic(g) => {
            assert_eq!(g.raw, pkt);
            assert_eq!(g.packet_type, r.opcode);
            assert_eq!(g.name, r.meaning);
            assert_eq!(g.name, "TEAM_SCORE");
        }
        other => panic!("unexpected {:?}", other),
    }
}

#[test]
fn other_opcodes_always_parse() {
    let p = PacketParser::new();
    for op in ["h", "6", "", "spawn", "K", "00"] {
        let r = p.parse_packet(&[s(op)]).unwrap();
        assert!(matches!(r.parsed, PacketData::Generic(_)));
    }
}

#[test]
fn selected_packets_are_kept_whole() {
    let pkt = vec![s("6"), n(250), s("x")];
    let r = select_kill_packet(&pkt).unwrap().unwrap();
    assert_eq!(r.opcode, "6");
    assert_eq!(r.meaning, PacketParser::new().get_opcode_name("6"));
    match r.parsed {
        PacketData::Generic(g) => assert_eq!(g.raw, pkt),
        other => panic!("unexpected {:?}", other),
    }
    assert_eq!(select_kill_packet(&[s("7"), n(1)]), Ok(None));
}

#[test]
fn entered_opcodes_are_named() {
    let p = PacketParser::new();
    for (code, name) in [("fp", "FORCE_PING"), ("twitchDropsResponse", "TWITCH_DROPS_RESPONSE"), ("debug_rc", "DEBUG_RAYCAST")] {
        assert_eq!(p.get_opcode_name(code), name);
    }
    assert_eq!(p.get_opcode_name("fpx"), "UNKNOWN (fpx)");
}

#[test]
fn split_parts_join_back() {
    for m in ["set-config, fov, 90", "", ", ", "a,b, c,  d", ", , x, "] {
        assert_eq!(split_text(m).join(", "), m);
    }
}

#[test]
fn decimal_reads_back() {
    for n in [0usize, 7, 10, 13, 999, 123456789] {
        assert_eq!(classify_config_value(&decimal_text(n)), ConfigValue::Int(n as i64));
    }
}
