use danmaku_relay::frames::{pipe_sends, BincodeConvertor, JsonConvertor, PipeOutlets, WsFrame};
use danmaku_relay::model::{
    CoinType, Danmaku, DanmakuMessage, Enter, Gift, GiftInfo, GuardBuy, Popularity, Superchat,
    User, Watched,
};
use danmaku_relay::rooms::RoomInitProgress;
use danmaku_relay::store::{pg_row, EventRecord, PgRow};
use danmaku_relay::timestamp::{ms_to_dt, UtcTimestamp, MAX_TIMESTAMP_SECS};

fn user() -> User {
    User { uid: 42, uname: "alice".to_string() }
}

#[test]
fn millis_split() {
    assert_eq!(ms_to_dt(1_700_000_000_123), UtcTimestamp { secs: 1_700_000_000, nanos: 123_000_000 });
    assert_eq!(ms_to_dt(999), UtcTimestamp { secs: 0, nanos: 999_000_000 });
}

#[test]
fn chrono_date_time() {
    let t = ms_to_dt(1_700_000_000_123).to_naive();
    assert_eq!(t.and_utc().timestamp_millis(), 1_700_000_000_123);
    assert_eq!(t.to_string(), "2023-11-14 22:13:20.123");
    let last = ms_to_dt(MAX_TIMESTAMP_SECS as u64 * 1000 + 999).to_naive();
    assert_eq!(last.and_utc().timestamp(), MAX_TIMESTAMP_SECS);
    assert_eq!(ms_to_dt(0).to_naive().to_string(), "1970-01-01 00:00:00");
}

#[test]
fn danmaku_row() {
    let d = Danmaku::new(
        510,
        3,
        DanmakuMessage::Emoticon { alt_message: "[doge]".to_string() },
        Some("{\"tag\":\"Emoticon\"}".to_string()),
        user(),
        Some("{\"medal_name\":\"m\"}".to_string()),
        2_500,
    );
    assert_eq!(d.id, None);
    assert_eq!(d.room_id, 510);
    assert_eq!(d.user_id, 42);
    assert_eq!(d.user_name, "alice");
    assert_eq!(d.flag, 3);
    assert_eq!(d.message, "{\"tag\":\"Emoticon\"}");
    assert!(d.is_emoticon);
    assert_eq!(d.essential_message, "[doge]");
    assert_eq!(d.medal.as_deref(), Some("{\"medal_name\":\"m\"}"));
    assert_eq!(d.timestamp, UtcTimestamp { secs: 2, nanos: 500_000_000 });

    let d = Danmaku::new(
        1,
        0,
        DanmakuMessage::Plain { message: "hi".to_string() },
        None,
        user(),
        None,
        0,
    );
    assert!(!d.is_emoticon);
    assert_eq!(d.essential_message, "hi");
    assert_eq!(d.message, "");
    assert_eq!(d.medal, None);
}

#[test]
fn casts_wrap_like_as() {
    let d = Danmaku::new(
        u64::MAX,
        1 << 32 | 5,
        DanmakuMessage::Plain { message: String::new() },
        None,
        User { uid: 1 << 63, uname: String::new() },
        None,
        0,
    );
    assert_eq!(d.room_id, -1);
    assert_eq!(d.flag, 5);
    assert_eq!(d.user_id, i64::MIN);
    let g = GuardBuy::new(1, user(), 70000, 1 << 31, 0);
    assert_eq!(g.guards_level, 70000u64 as i16);
    assert_eq!(g.price, i32::MIN);
    let p = Popularity::new(9, u32::MAX, 1000);
    assert_eq!(p.count, -1);
    assert_eq!(p.timestamp, UtcTimestamp { secs: 1, nanos: 0 });
}

#[test]
fn gift_row() {
    let gift = GiftInfo {
        coin_type: CoinType::Gold,
        coin_count: 100,
        gift_name: "rocket".to_string(),
        gift_id: 7,
        price: 1000,
    };
    let g = Gift::new(5, user(), None, None, gift, 0);
    assert!(g.gift_paid);
    assert_eq!(g.gift_id, 7);
    assert_eq!(g.gift_name, "rocket");
    assert_eq!(g.gift_price, 1000);
    assert_eq!(g.gift_count, 100);
    let silver = GiftInfo {
        coin_type: CoinType::Silver,
        coin_count: 1,
        gift_name: "leaf".to_string(),
        gift_id: 1,
        price: 0,
    };
    assert!(!Gift::new(5, user(), None, None, silver, 0).gift_paid);
}

#[test]
fn other_rows() {
    let e = Enter::new(8, user(), Some("m".to_string()), 1);
    assert_eq!((e.room_id, e.user_id, e.user_name.as_str()), (8, 42, "alice"));
    assert_eq!(e.medal.as_deref(), Some("m"));
    assert_eq!(e.timestamp, UtcTimestamp { secs: 0, nanos: 1_000_000 });
    let s = Superchat::new(8, user(), None, 30, "hello".to_string(), 0);
    assert_eq!((s.price, s.message.as_str()), (30, "hello"));
    let w = Watched::new(8, 12, 0);
    assert_eq!(w.count, 12);
}

#[test]
fn event_to_row() {
    match pg_row(3, EventRecord::PopularityUpdate { popularity: 77 }, 5000) {
        Some(PgRow::Popularity(p)) => {
            assert_eq!(p, Popularity::new(3, 77, 5000));
        }
        _ => panic!("expected a popularity row"),
    }
    match pg_row(3, EventRecord::WatchedUpdate { num: 9 }, 0) {
        Some(PgRow::Watched(w)) => assert_eq!(w.count, 9),
        _ => panic!("expected a watched row"),
    }
    match pg_row(3, EventRecord::GuardBuy { level: 3, price: 198, user: user() }, 0) {
        Some(PgRow::GuardBuy(g)) => assert_eq!((g.guards_level, g.price), (3, 198)),
        _ => panic!("expected a guard row"),
    }
    match pg_row(3, EventRecord::EnterRoom { user: user(), medal: None }, 0) {
        Some(PgRow::Enter(e)) => assert_eq!(e.user_name, "alice"),
        _ => panic!("expected an enter row"),
    }
    assert!(pg_row(3, EventRecord::Unstored, 0).is_none());
}

#[test]
fn frames() {
    assert!(matches!(JsonConvertor::convert("{}".to_string()), WsFrame::Text(t) if t == "{}"));
    assert!(matches!(BincodeConvertor::convert(Some(vec![1, 2])), WsFrame::Binary(b) if b == vec![1, 2]));
    assert!(matches!(BincodeConvertor::convert(None), WsFrame::Binary(b) if b.is_empty()));
}

#[test]
fn piping_sends_json_on_the_bincode_sender() {
    let outlets = PipeOutlets { json_sender: true, bincode_sender: true, mongo: false };
    let r = pipe_sends(outlets, Some(vec![9]), Some("j".to_string()));
    assert_eq!(r.to_bincode_sender.len(), 2);
    assert!(matches!(&r.to_bincode_sender[0], WsFrame::Binary(b) if *b == vec![9]));
    assert!(matches!(&r.to_bincode_sender[1], WsFrame::Text(t) if t == "j"));
    assert!(r.to_json_sender.is_empty());
    assert!(!r.store);
    let outlets = PipeOutlets { json_sender: true, bincode_sender: false, mongo: true };
    let r = pipe_sends(outlets, Some(vec![9]), Some("j".to_string()));
    assert!(r.to_bincode_sender.is_empty());
    assert!(r.to_json_sender.is_empty());
    assert!(r.store);
}

#[test]
fn room_progress() {
    let mut p = RoomInitProgress::new(3);
    assert_eq!(p.record(true), 1);
    assert_eq!(p.record(false), 1);
    assert!(!p.finished());
    assert_eq!(p.record(true), 2);
    assert!(p.finished());
    assert_eq!((p.attempted, p.connected), (3, 2));
}

#[test]
fn danmaku_event_to_row() {
    let ev = EventRecord::Danmaku {
        flag: 1,
        message: DanmakuMessage::Plain { message: "gg".to_string() },
        message_json: Some("{}".to_string()),
        user: user(),
        medal: None,
    };
    match pg_row(510, ev, 1_000) {
        Some(PgRow::Danmaku(d)) => {
            assert_eq!((d.room_id, d.flag, d.message.as_str(), d.essential_message.as_str()), (510, 1, "{}", "gg"));
            assert_eq!(d.timestamp, UtcTimestamp { secs: 1, nanos: 0 });
        }
        _ => panic!("expected a danmaku row"),
    }
    let ev = EventRecord::SuperChat { user: user(), medal: None, price: 30, message: "sc".to_string() };
    assert!(matches!(pg_row(1, ev, 0), Some(PgRow::Superchat(s)) if s.message == "sc" && s.price == 30));
}
