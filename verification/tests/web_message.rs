use std::collections::VecDeque;

use glorp::overlay::{record_frame_time, settings_shown_after_key, OverlaySettings, FRAME_HISTORY_LEN};
use glorp::web_message::{
    char_is_white_space, classify_config_value, parse_bool, parse_i64, documents_subpath, parse_web_message,
    split_message, split_text, trim_text, ConfigValue, WebCommand,
};

#[test]
fn white_space_matches_std() {
    for u in 0u32..0x3100 {
        if let Some(c) = char::from_u32(u) {
            assert_eq!(char_is_white_space(c), c.is_whitespace(), "code point {:x}", u);
        }
    }
    for c in ['\u{feff}', '\u{180e}', '\u{200b}', 'a', '\u{10ffff}'] {
        assert_eq!(char_is_white_space(c), c.is_whitespace());
    }
}

#[test]
fn trimming() {
    assert_eq!(trim_text("  a b \t"), "a b");
    assert_eq!(trim_text("\u{3000}x\u{a0}"), "x");
    assert_eq!(trim_text("   "), "");
    assert_eq!(trim_text(""), "");
    for t in [" x ", "\n\ty z\r\n", "\u{2028}q", "no"] {
        assert_eq!(trim_text(t), t.trim());
    }
}

#[test]
fn splitting() {
    assert_eq!(split_text("a, b, c"), vec!["a", "b", "c"]);
    assert_eq!(split_text("a,b"), vec!["a,b"]);
    assert_eq!(split_text(""), vec![""]);
    assert_eq!(split_text("a, "), vec!["a", ""]);
    assert_eq!(split_text(", , "), vec!["", "", ""]);
    for t in ["x, y,z, ,w", ",, ,", "set-config, a, b, c"] {
        let expected: Vec<String> = t.split(", ").map(|p| p.to_string()).collect();
        assert_eq!(split_text(t), expected);
    }
    assert_eq!(split_message(" set-config ,  fov ,  90 "), vec!["set-config", "fov", "90"]);
}

#[test]
fn config_values() {
    assert_eq!(classify_config_value("true"), ConfigValue::Bool(true));
    assert_eq!(classify_config_value("false"), ConfigValue::Bool(false));
    assert_eq!(classify_config_value("True"), ConfigValue::Other("True".to_string()));
    assert_eq!(classify_config_value("90"), ConfigValue::Int(90));
    assert_eq!(classify_config_value("+7"), ConfigValue::Int(7));
    assert_eq!(classify_config_value("-12"), ConfigValue::Int(-12));
    assert_eq!(classify_config_value("-9223372036854775808"), ConfigValue::Int(i64::MIN));
    assert_eq!(
        classify_config_value("9223372036854775808"),
        ConfigValue::Other("9223372036854775808".to_string())
    );
    assert_eq!(classify_config_value("1.5"), ConfigValue::Other("1.5".to_string()));
    assert_eq!(classify_config_value("-"), ConfigValue::Other("-".to_string()));
    assert_eq!(classify_config_value(""), ConfigValue::Other("".to_string()));
}

#[test]
fn set_config_message() {
    assert_eq!(
        parse_web_message("set-config, fov, 90"),
        WebCommand::SetConfig { setting: "fov".to_string(), value: ConfigValue::Int(90) }
    );
    assert_eq!(
        parse_web_message("set-config, startMode, Remember Previous"),
        WebCommand::SetConfig {
            setting: "startMode".to_string(),
            value: ConfigValue::Other("Remember Previous".to_string())
        }
    );
    assert_eq!(
        parse_web_message("set-config, swapper,  true "),
        WebCommand::SetConfig { setting: "swapper".to_string(), value: ConfigValue::Bool(true) }
    );
}

#[test]
fn simple_messages() {
    assert_eq!(parse_web_message("get-info"), WebCommand::GetInfo);
    assert_eq!(parse_web_message("  get-info "), WebCommand::GetInfo);
    assert_eq!(parse_web_message("close"), WebCommand::Close);
    assert_eq!(parse_web_message("ping"), WebCommand::Ping);
    assert_eq!(parse_web_message("open, swapper"), WebCommand::Open { target: "swapper".to_string() });
}

#[test]
fn flag_messages() {
    assert_eq!(parse_web_message("drag, true"), WebCommand::SetDrag { wparam: 0 });
    assert_eq!(parse_web_message("drag, false"), WebCommand::SetDrag { wparam: 2 });
    assert_eq!(parse_web_message("drag, yes"), WebCommand::SetDrag { wparam: 2 });
    assert_eq!(parse_web_message("toggle-rboost, true"), WebCommand::ToggleRenderBoost { wparam: 1 });
    assert_eq!(parse_web_message("toggle-rboost, 1"), WebCommand::ToggleRenderBoost { wparam: 3 });
}

#[test]
fn throttle_and_presence_messages() {
    assert_eq!(
        parse_web_message("throttle, game"),
        WebCommand::Throttle { setting: "throttle".to_string() }
    );
    assert_eq!(
        parse_web_message("throttle, menu"),
        WebCommand::Throttle { setting: "inMenuThrottle".to_string() }
    );
    assert_eq!(
        parse_web_message("rpc-update, FFA, Sandstorm"),
        WebCommand::RpcUpdate { state: "FFA on Sandstorm".to_string() }
    );
}

#[test]
fn ignored_messages() {
    assert_eq!(parse_web_message(""), WebCommand::Ignore);
    assert_eq!(parse_web_message("unknown"), WebCommand::Ignore);
    assert_eq!(parse_web_message("close, now"), WebCommand::Ignore);
    assert_eq!(parse_web_message("drag"), WebCommand::Ignore);
    assert_eq!(parse_web_message("set-config,a,b"), WebCommand::Ignore);
    assert_eq!(parse_web_message("GET-INFO"), WebCommand::Ignore);
}

#[test]
fn documents_entries() {
    assert_eq!(documents_subpath("blocklist"), Some("user_blocklist.json".to_string()));
    assert_eq!(documents_subpath("swapper"), Some("swapper".to_string()));
    assert_eq!(documents_subpath("userscripts"), Some("scripts".to_string()));
    assert_eq!(documents_subpath("other"), None);
}

#[test]
fn overlay_shows_everything_by_default() {
    let s = OverlaySettings::default();
    assert!(s.show_fps && s.show_frametime && s.show_avg && s.show_low1 && s.show_low01 && s.show_graph);
}

#[test]
fn frame_history_is_capped() {
    let mut h: VecDeque<f32> = VecDeque::new();
    for i in 0..150 {
        record_frame_time(&mut h, i as f32);
        assert!(h.len() <= FRAME_HISTORY_LEN);
        assert_eq!(*h.back().unwrap(), i as f32);
    }
    assert_eq!(h.len(), 100);
    assert_eq!(*h.front().unwrap(), 50.0);
}

#[test]
fn page_up_toggles_settings() {
    assert!(settings_shown_after_key(false, true, true));
    assert!(!settings_shown_after_key(true, true, true));
    assert!(settings_shown_after_key(true, false, true));
    assert!(!settings_shown_after_key(false, true, false));
}

#[test]
fn bool_and_integer_texts_read_as_std_does() {
    for t in ["true", "false", "True", "", " true", "1"] {
        assert_eq!(parse_bool(t), t.parse::<bool>().ok());
    }
    for t in [
        "0", "-0", "+0", "007", "42", "-42", "+42", "", "+", "-", "--1", "+-1", "1_000", " 1", "1 ",
        "9223372036854775807", "9223372036854775808", "-9223372036854775808",
        "-9223372036854775809", "99999999999999999999999", "12a", "\u{661}",
    ] {
        assert_eq!(parse_i64(t), t.parse::<i64>().ok(), "text {:?}", t);
    }
}
