use glorp::json::{JsonNumber, JsonValue};
use glorp::packets::PacketData;
use glorp::payload::{
    decode_packet_bytes, decode_payload, next_decode_step, process_payload, select_kill_packet,
    Base64Error, DecodeStep, PayloadError,
};

fn s(t: &str) -> JsonValue {
    JsonValue::Str(t.to_string())
}

#[test]
fn payload_base64_is_decoded() {
    assert_eq!(decode_payload("aGk="), Ok(b"hi".to_vec()));
    assert_eq!(decode_payload(""), Ok(vec![]));
    assert_eq!(decode_payload("kqE2AQ=="), Ok(vec![0x92, 0xa1, 0x36, 0x01]));
}

#[test]
fn payload_base64_errors() {
    assert_eq!(decode_payload("a"), Err(Base64Error::InvalidLength));
    assert_eq!(decode_payload("a!==").unwrap_err(), Base64Error::InvalidByte(1, b'!'));
    assert!(decode_payload("aGk").is_err());
    assert_eq!(decode_payload("aGk=="), Err(Base64Error::InvalidLength));
    assert_eq!(decode_payload("aGl="), Err(Base64Error::InvalidLastSymbol(2, b'l')));
}

#[test]
fn msgpack_decode_steps() {
    assert_eq!(next_decode_step(4, None), DecodeStep::Try(4));
    assert_eq!(next_decode_step(4, Some((4, true))), DecodeStep::Keep(4));
    assert_eq!(next_decode_step(4, Some((4, false))), DecodeStep::Try(3));
    assert_eq!(next_decode_step(4, Some((2, false))), DecodeStep::Try(1));
    assert_eq!(next_decode_step(4, Some((1, false))), DecodeStep::ReportFirstError);
    assert_eq!(next_decode_step(4, Some((2, true))), DecodeStep::Keep(2));
    assert_eq!(next_decode_step(0, None), DecodeStep::Try(0));
    assert_eq!(next_decode_step(0, Some((0, false))), DecodeStep::ReportFirstError);
}

#[test]
fn msgpack_decode_steps_walk_every_prefix() {
    let mut tried = vec![];
    let mut step = next_decode_step(5, None);
    while let DecodeStep::Try(len) = step {
        tried.push(len);
        step = next_decode_step(5, Some((len, false)));
    }
    assert_eq!(tried, vec![5, 4, 3, 2, 1]);
    assert_eq!(step, DecodeStep::ReportFirstError);
}

#[test]
fn kill_packets_are_selected() {
    let pkt = vec![s("6"), JsonValue::Number(JsonNumber::PosInt(1))];
    let r = select_kill_packet(&pkt).unwrap().unwrap();
    assert_eq!(r.opcode, "6");
    assert_eq!(r.meaning, "GET_KILL");
    match r.parsed {
        PacketData::Generic(g) => {
            assert_eq!(g.packet_type, "6");
            assert_eq!(g.name, "GET_KILL");
            assert_eq!(g.raw, pkt);
        }
        other => panic!("unexpected {:?}", other),
    }
}

#[test]
fn other_packets_are_not_selected() {
    assert_eq!(select_kill_packet(&[]), Ok(None));
    assert_eq!(select_kill_packet(&[s("sp")]), Ok(None));
    assert_eq!(select_kill_packet(&[JsonValue::Number(JsonNumber::PosInt(6))]), Ok(None));
    assert_eq!(select_kill_packet(&[s("66")]), Ok(None));
}

fn reference_decode(bytes: &[u8]) -> Result<(usize, usize), String> {
    let first = rmp_serde::from_slice::<Vec<serde_json::Value>>(bytes);
    match first {
        Ok(v) => Ok((bytes.len(), v.len())),
        Err(e) => {
            for i in (1..bytes.len()).rev() {
                if let Ok(v) = rmp_serde::from_slice::<Vec<serde_json::Value>>(&bytes[..i]) {
                    return Ok((i, v.len()));
                }
            }
            Err(e.to_string())
        }
    }
}

#[test]
fn packet_bytes_decode() {
    let r = decode_packet_bytes(&[0x92, 0xa1, 0x36, 0x01]).unwrap();
    assert_eq!(r.0, 4);
    assert_eq!(r.1, vec![s("6"), JsonValue::Number(JsonNumber::PosInt(1))]);
    let r = decode_packet_bytes(&[0x92, 0xff, 0xcb, 0x3f, 0xf8, 0, 0, 0, 0, 0, 0]).unwrap();
    assert_eq!(
        r.1,
        vec![
            JsonValue::Number(JsonNumber::NegInt(-1)),
            JsonValue::Number(JsonNumber::Float(1.5f64.to_bits()))
        ]
    );
    let r = decode_packet_bytes(&[0x91, 0x81, 0xa1, 0x61, 0xc3]).unwrap();
    assert_eq!(r.1, vec![JsonValue::Object(vec![("a".to_string(), JsonValue::Bool(true))])]);
}

#[test]
fn packet_bytes_agree_with_retry_rule() {
    let cases: Vec<Vec<u8>> = vec![
        vec![],
        vec![0x92, 0xa1, 0x36],
        vec![0x91, 0x01, 0xc1],
        vec![0x92, 0x01, 0x02, 0x03],
        vec![0xc1],
        vec![0x93, 0x01, 0xc1, 0x02],
        vec![0x90],
    ];
    for b in cases {
        let ours = decode_packet_bytes(&b).map(|(n, v)| (n, v.len()));
        assert_eq!(ours, reference_decode(&b), "bytes {:?}", b);
    }
}

#[test]
fn payloads_are_processed() {
    let r = process_payload("kqE2AQ==").unwrap().unwrap();
    assert_eq!(r.meaning, "GET_KILL");
    match r.parsed {
        PacketData::Generic(g) => {
            assert_eq!(g.raw, vec![s("6"), JsonValue::Number(JsonNumber::PosInt(1))])
        }
        other => panic!("unexpected {:?}", other),
    }
    assert_eq!(process_payload("kqFrAQ=="), Ok(None));
    assert_eq!(process_payload("a"), Err(PayloadError::Base64(Base64Error::InvalidLength)));
    assert!(matches!(process_payload(""), Err(PayloadError::MessagePack(_))));
}
