use danmaku_relay::channels::ChannelPlan;
use danmaku_relay::config::{
    config_source, listen_addr, quick_start_config, ArgError, ConfigSource, ListenAddr, NetConfig,
    DEFAULT_PORT,
};
use danmaku_relay::route::SerType;

fn args(a: &[&str]) -> Vec<String> {
    a.iter().map(|s| s.to_string()).collect()
}

#[test]
fn no_arguments() {
    assert!(matches!(config_source(&args(&[])), Err(ArgError::MissingRoomId)));
    assert_eq!(ArgError::MissingRoomId.message(), "roomid should be a number of u64");
}

#[test]
fn config_file() {
    match config_source(&args(&["config", "relay.toml", "ignored"])) {
        Ok(ConfigSource::File(p)) => assert_eq!(p, "relay.toml"),
        _ => panic!("expected a file"),
    }
    assert!(matches!(config_source(&args(&["config"])), Err(ArgError::MissingConfigPath)));
    assert_eq!(ArgError::MissingConfigPath.message(), "missing arg: config file path");
}

#[test]
fn room_with_default_port() {
    match config_source(&args(&["510"])) {
        Ok(ConfigSource::Given(c)) => {
            assert_eq!(c.net.port, DEFAULT_PORT);
            assert_eq!(c.net.port, 10200);
            assert_eq!(c.net.ipv4, Some([127, 0, 0, 1]));
            assert_eq!(c.net.ipv6, None);
            assert_eq!(c.room.len(), 1);
            assert_eq!(c.room[0].roomid, 510);
            assert_eq!(c.room[0].channel, vec!["json".to_string(), "bincode".to_string()]);
            assert!(c.db.mongo.is_none());
            assert!(c.db.pg.is_none());
        }
        _ => panic!("expected a configuration"),
    }
}

#[test]
fn room_with_port() {
    match config_source(&args(&["510", "8080"])) {
        Ok(ConfigSource::Given(c)) => {
            assert_eq!(c.net.port, 8080);
            assert_eq!(c.room[0].roomid, 510);
        }
        _ => panic!("expected a configuration"),
    }
}

#[test]
fn bad_room_and_port() {
    assert!(matches!(config_source(&args(&["abc"])), Err(ArgError::InvalidRoomId)));
    assert!(matches!(config_source(&args(&["Config", "x"])), Err(ArgError::InvalidRoomId)));
    assert!(matches!(config_source(&args(&["510", "70000"])), Err(ArgError::InvalidPort)));
    assert!(matches!(config_source(&args(&["510", "p"])), Err(ArgError::InvalidPort)));
    assert_eq!(ArgError::InvalidPort.message(), "port should be a number of u64");
    assert_eq!(ArgError::InvalidRoomId.message(), "roomid should be a number of u64");
}

#[test]
fn quick_start_serves_both_encodings() {
    let c = quick_start_config(3, 1);
    let plan = ChannelPlan::for_room(&c.room[0]);
    assert!(plan.serves(SerType::Json));
    assert!(plan.serves(SerType::Bincode));
    assert!(!plan.db_mongo);
    assert!(!plan.db_pg);
}

#[test]
fn channel_plan_from_names() {
    let plan = ChannelPlan::from_channels(&args(&["pg", "json", "json"]));
    assert_eq!(plan, ChannelPlan { ws_json: true, ws_bincode: false, db_mongo: false, db_pg: true });
    assert!(plan.serves(SerType::Json));
    assert!(!plan.serves(SerType::Bincode));
    let plan = ChannelPlan::from_channels(&args(&["mongo", "bincode", "JSON", "pg "]));
    assert_eq!(plan, ChannelPlan { ws_json: false, ws_bincode: true, db_mongo: true, db_pg: false });
    let plan = ChannelPlan::from_channels(&args(&[]));
    assert_eq!(plan, ChannelPlan { ws_json: false, ws_bincode: false, db_mongo: false, db_pg: false });
}

#[test]
fn listen_address_choice() {
    let net = NetConfig { ipv4: Some([10, 0, 0, 2]), ipv6: Some([1; 8]), port: 1 };
    assert!(matches!(listen_addr(&net), ListenAddr::V4([10, 0, 0, 2])));
    let net = NetConfig { ipv4: None, ipv6: Some([0, 0, 0, 0, 0, 0, 0, 1]), port: 1 };
    assert!(matches!(listen_addr(&net), ListenAddr::V6([0, 0, 0, 0, 0, 0, 0, 1])));
    let net = NetConfig { ipv4: None, ipv6: None, port: 1 };
    assert!(matches!(listen_addr(&net), ListenAddr::V4([0, 0, 0, 0])));
}
