use micept::codec::{decode_config, encode_config};
use micept::config::{AppConfig, WindowPosition};

fn sample() -> AppConfig {
    AppConfig {
        window_position: WindowPosition { x: 1280, y: -35 },
        mouse_through: false,
        auto_accept: true,
        auto_hide: true,
        window_visible: false,
    }
}

#[test]
fn encode_default_config() {
    assert_eq!(
        encode_config(&AppConfig::default()),
        "{\"window_position\":{\"x\":-400,\"y\":0},\"mouse_through\":true,\"auto_accept\":true,\"auto_hide\":false,\"window_visible\":true}"
    );
}

#[test]
fn config_round_trip() {
    let extremes = AppConfig {
        window_position: WindowPosition { x: i32::MIN, y: i32::MAX },
        ..sample()
    };
    for c in [AppConfig::default(), sample(), extremes] {
        let text = encode_config(&c);
        assert_eq!(decode_config(&text), Some(c));
        assert_eq!(AppConfig::load(Some(&text)), c);
    }
}

#[test]
fn decode_pretty_layout() {
    let text = "{\n  \"window_position\": {\n    \"x\": 1280,\n    \"y\": -35\n  },\n  \"mouse_through\": false,\n  \"auto_accept\": true,\n  \"auto_hide\": true,\n  \"window_visible\": false\n}\n";
    assert_eq!(decode_config(text), Some(sample()));
}

#[test]
fn decode_rejects_other_texts() {
    assert_eq!(decode_config(""), None);
    assert_eq!(decode_config("not json"), None);
    assert_eq!(decode_config("{\"window_position\":{\"x\":1,\"y\":2},\"mouse_through\":true}"), None);
    assert_eq!(
        decode_config("{\"window_position\":{\"x\":2147483648,\"y\":0},\"mouse_through\":true,\"auto_accept\":true,\"auto_hide\":false,\"window_visible\":true}"),
        None
    );
    assert_eq!(
        decode_config("{\"window_position\":{\"x\":1,\"y\":0},\"mouse_through\":yes,\"auto_accept\":true,\"auto_hide\":false,\"window_visible\":true}"),
        None
    );
    let good = encode_config(&sample());
    assert_eq!(decode_config(&format!("{} x", good)), None);
    assert_eq!(decode_config(&format!("  {}  \n", good)), Some(sample()));
}

#[test]
fn decode_accepts_smallest_i32() {
    let text = "{\"window_position\":{\"x\":-2147483648,\"y\":-0},\"mouse_through\":true,\"auto_accept\":false,\"auto_hide\":false,\"window_visible\":true}";
    let c = decode_config(text).unwrap();
    assert_eq!(c.window_position, WindowPosition { x: i32::MIN, y: 0 });
    assert!(!c.auto_accept);
}

#[test]
fn load_falls_back_to_defaults() {
    assert_eq!(AppConfig::load(None), AppConfig::default());
    assert_eq!(AppConfig::load(Some("{}")), AppConfig::default());
}
