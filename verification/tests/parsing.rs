use danmaku_relay::decimal::{parse_u16, parse_u64};
use danmaku_relay::route::{parse_connect_path, ConnectParam, SerType};

#[test]
fn decimal_accepts_digits() {
    assert_eq!(parse_u64(b"510"), Some(510));
    assert_eq!(parse_u64(b"0"), Some(0));
    assert_eq!(parse_u64(b"007"), Some(7));
    assert_eq!(parse_u64(b"+42"), Some(42));
    assert_eq!(parse_u64(b"18446744073709551615"), Some(u64::MAX));
}

#[test]
fn decimal_rejects_what_from_str_radix_rejects() {
    for s in ["", "+", "-", "-1", "12a", " 1", "1 ", "++1", "18446744073709551616", "99999999999999999999999"] {
        assert_eq!(parse_u64(s.as_bytes()), None, "{s:?}");
        assert!(u64::from_str_radix(s, 10).is_err(), "{s:?}");
    }
}

#[test]
fn decimal_agrees_with_std() {
    for s in ["1", "+0", "65535", "65536", "4294967296", "123456789012345678", "00000000000000000000001"] {
        assert_eq!(parse_u64(s.as_bytes()), u64::from_str_radix(s, 10).ok(), "{s:?}");
        assert_eq!(parse_u16(s.as_bytes()), u16::from_str_radix(s, 10).ok(), "{s:?}");
    }
}

#[test]
fn port_bounds() {
    assert_eq!(parse_u16(b"10200"), Some(10200));
    assert_eq!(parse_u16(b"65535"), Some(65535));
    assert_eq!(parse_u16(b"65536"), None);
    assert_eq!(parse_u16(b"port"), None);
}

#[test]
fn path_json_and_bincode() {
    assert_eq!(
        parse_connect_path("/510/json"),
        Some(ConnectParam { roomid: 510, connect_type: SerType::Json })
    );
    assert_eq!(
        parse_connect_path("/477317922/bincode"),
        Some(ConnectParam { roomid: 477317922, connect_type: SerType::Bincode })
    );
}

#[test]
fn path_extra_segments_are_ignored() {
    assert_eq!(
        parse_connect_path("/1/json/whatever/else"),
        Some(ConnectParam { roomid: 1, connect_type: SerType::Json })
    );
    assert_eq!(
        parse_connect_path("/1/bincode/"),
        Some(ConnectParam { roomid: 1, connect_type: SerType::Bincode })
    );
}

#[test]
fn path_refused() {
    for p in ["", "/", "/510", "/510/", "/510/xml", "/abc/json", "//json", "/510/JSON", "/510/jsonx", "510/json", "/-1/json", "/18446744073709551616/json"] {
        assert_eq!(parse_connect_path(p), None, "{p:?}");
    }
}

#[test]
fn path_text_before_first_slash_is_skipped() {
    assert_eq!(
        parse_connect_path("ws:/7/json"),
        Some(ConnectParam { roomid: 7, connect_type: SerType::Json })
    );
}

#[test]
fn path_room_with_plus_sign() {
    assert_eq!(
        parse_connect_path("/+12/json"),
        Some(ConnectParam { roomid: 12, connect_type: SerType::Json })
    );
}
