//! The relay's configuration and how it is chosen from the command line.

use vstd::prelude::*;
use vstd::utf8::encode_utf8;
use crate::decimal::{parse_decimal_spec, parse_u16, parse_u64};

verus! {

/// Everything the relay needs to start.
pub struct Config {
    pub net: NetConfig,
    pub room: Vec<RoomConfigItem>,
    pub db: DbConfig,
}

/// A room to follow and the channels its events are relayed to
/// (`json`, `bincode`, `mongo`, `pg`).
pub struct RoomConfigItem {
    pub roomid: u64,
    pub channel: Vec<String>,
}

/// Where the websocket server listens.
pub struct NetConfig {
    pub ipv4: Option<[u8; 4]>,
    pub ipv6: Option<[u16; 8]>,
    pub port: u16,
}

/// The databases that events may be stored in.
pub struct DbConfig {
    pub mongo: Option<MongoConfig>,
    pub pg: Option<PgConfig>,
}

/// A MongoDB server and database.
pub struct MongoConfig {
    pub db: String,
    pub host: String,
    pub port: u16,
}

/// A PostgreSQL connection url.
pub struct PgConfig {
    pub url: String,
}

/// The port that the websocket server listens on when none is given.
pub const DEFAULT_PORT: u16 = 10200;

/// The characters of `config`.
pub open spec fn config_word() -> Seq<char> {
    seq!['c', 'o', 'n', 'f', 'i', 'g']
}

/// The characters of `json`.
pub open spec fn json_chars() -> Seq<char> {
    seq!['j', 's', 'o', 'n']
}

/// The characters of `bincode`.
pub open spec fn bincode_chars() -> Seq<char> {
    seq!['b', 'i', 'n', 'c', 'o', 'd', 'e']
}

/// The characters of `mongo`.
pub open spec fn mongo_chars() -> Seq<char> {
    seq!['m', 'o', 'n', 'g', 'o']
}

/// The characters of `pg`.
pub open spec fn pg_chars() -> Seq<char> {
    seq!['p', 'g']
}

/// `c` is the configuration used when the relay is started with a room id:
/// it listens on 127.0.0.1 at `port`, follows room `roomid` alone and relays
/// it to websocket clients as json and as bincode, with no database.
pub open spec fn is_quick_start_config(c: Config, roomid: u64, port: u16) -> bool {
    &&& c.net.ipv4 matches Some(a) && a@ == seq![127u8, 0u8, 0u8, 1u8]
    &&& c.net.ipv6 is None
    &&& c.net.port == port
    &&& c.room@.len() == 1
    &&& c.room@[0].roomid == roomid
    &&& c.room@[0].channel@.len() == 2
    &&& c.room@[0].channel@[0]@ == json_chars()
    &&& c.room@[0].channel@[1]@ == bincode_chars()
    &&& c.db.mongo is None
    &&& c.db.pg is None
}

/// How the configuration is obtained.
pub enum ConfigSource {
    /// Read and parse the TOML file at this path.
    File(String),
    /// Use this configuration as it is.
    Given(Config),
}

/// Why the command line does not say how to configure the relay.
#[derive(Clone, Copy, Debug, PartialEq, Eq, Structural)]
pub enum ArgError {
    /// No argument was given.
    MissingRoomId,
    /// `config` was given without a path.
    MissingConfigPath,
    /// The first argument is neither `config` nor a room id.
    InvalidRoomId,
    /// The argument after the room id is no port number.
    InvalidPort,
}

impl ArgError {
    /// The message the relay stops with.
    pub fn message(&self) -> (r: &'static str)
        ensures
            r@ == match self {
                ArgError::MissingRoomId => "roomid should be a number of u64"@,
                ArgError::MissingConfigPath => "missing arg: config file path"@,
                ArgError::InvalidRoomId => "roomid should be a number of u64"@,
                ArgError::InvalidPort => "port should be a number of u64"@,
            },
    {
        match self {
            ArgError::MissingRoomId => "roomid should be a number of u64",
            ArgError::MissingConfigPath => "missing arg: config file path",
            ArgError::InvalidRoomId => "roomid should be a number of u64",
            ArgError::InvalidPort => "port should be a number of u64",
        }
    }
}

/// The characters `json`.
pub fn json_name() -> (s: String)
    ensures
        s@ == json_chars(),
{
    let s = "json".to_string();
    proof {
        reveal_strlit("json");
    }
    s
}

/// The characters `bincode`.
pub fn bincode_name() -> (s: String)
    ensures
        s@ == bincode_chars(),
{
    let s = "bincode".to_string();
    proof {
        reveal_strlit("bincode");
    }
    s
}

/// The configuration for following one room from the command line.
pub fn quick_start_config(roomid: u64, port: u16) -> (c: Config)
    ensures
        is_quick_start_config(c, roomid, port),
        c.net.ipv4 matches Some(a) && a@ == seq![127u8, 0u8, 0u8, 1u8],
        c.net.ipv6 is None,
        c.net.port == port,
        c.room@.len() == 1 && c.room@[0].roomid == roomid,
{
    let mut channel: Vec<String> = Vec::new();
    channel.push(json_name());
    channel.push(bincode_name());
    let mut room: Vec<RoomConfigItem> = Vec::new();
    room.push(RoomConfigItem { roomid, channel });
    let c = Config {
        net: NetConfig { ipv4: Some([127u8, 0u8, 0u8, 1u8]), ipv6: None, port },
        room,
        db: DbConfig { mongo: None, pg: None },
    };
    assert(c.net.ipv4.unwrap()@ =~= seq![127u8, 0u8, 0u8, 1u8]);
    c
}

/// Chooses the configuration from the command-line arguments that follow the
/// program name: `config <path>` names a TOML file; otherwise the first
/// argument is the room id to follow and the optional second one the port.
/// Arguments after those are ignored.
pub fn config_source(args: &Vec<String>) -> (r: Result<ConfigSource, ArgError>)
    ensures
        args@.len() == 0 ==> r == Err::<ConfigSource, ArgError>(ArgError::MissingRoomId),
        args@.len() > 0 && args@[0]@ == config_word() ==> {
            if args@.len() > 1 {
                r matches Ok(ConfigSource::File(path)) && path@ == args@[1]@
            } else {
                r == Err::<ConfigSource, ArgError>(ArgError::MissingConfigPath)
            }
        },
        r matches Ok(ConfigSource::Given(c)) ==> c.net.ipv4 matches Some(a) && a@ == seq![
            127u8,
            0u8,
            0u8,
            1u8,
        ] && c.net.ipv6 is None,
        args@.len() > 0 && args@[0]@ != config_word() ==> {
            match parse_decimal_spec(encode_utf8(args@[0]@), u64::MAX as nat) {
                None => r == Err::<ConfigSource, ArgError>(ArgError::InvalidRoomId),
                Some(roomid) => if args@.len() > 1 {
                    match parse_decimal_spec(encode_utf8(args@[1]@), u16::MAX as nat) {
                        None => r == Err::<ConfigSource, ArgError>(ArgError::InvalidPort),
                        Some(port) => r matches Ok(ConfigSource::Given(c))
                            && is_quick_start_config(c, roomid as u64, port as u16),
                    }
                } else {
                    r matches Ok(ConfigSource::Given(c)) && is_quick_start_config(
                        c,
                        roomid as u64,
                        DEFAULT_PORT,
                    )
                },
            }
        },
{
    if args.len() == 0 {
        return Err(ArgError::MissingRoomId);
    }
    let keyword = "config".to_string();
    proof {
        reveal_strlit("config");
    }
    assert(keyword@ =~= config_word());
    let first_is_keyword = args[0] == keyword;
    assert(first_is_keyword == (args@[0]@ == config_word()));
    if first_is_keyword {
        if args.len() > 1 {
            Ok(ConfigSource::File(args[1].clone()))
        } else {
            Err(ArgError::MissingConfigPath)
        }
    } else {
        match parse_u64(args[0].as_str().as_bytes()) {
            None => Err(ArgError::InvalidRoomId),
            Some(roomid) => {
                if args.len() > 1 {
                    match parse_u16(args[1].as_str().as_bytes()) {
                        None => Err(ArgError::InvalidPort),
                        Some(port) => Ok(ConfigSource::Given(quick_start_config(roomid, port))),
                    }
                } else {
                    Ok(ConfigSource::Given(quick_start_config(roomid, DEFAULT_PORT)))
                }
            },
        }
    }
}


/// The address the websocket server binds to.
#[derive(Clone, Copy, Debug)]
pub enum ListenAddr {
    V4([u8; 4]),
    V6([u16; 8]),
}

/// The address the websocket server binds to: the configured IPv4 address,
/// else the configured IPv6 address, else 0.0.0.0.
pub fn listen_addr(net: &NetConfig) -> (a: ListenAddr)
    ensures
        match net.ipv4 {
            Some(v4) => a == ListenAddr::V4(v4),
            None => match net.ipv6 {
                Some(v6) => a == ListenAddr::V6(v6),
                None => a matches ListenAddr::V4(z) && z@ == seq![0u8, 0u8, 0u8, 0u8],
            },
        },
        a == listen_addr_spec(*net),
{
    match net.ipv4 {
        Some(v4) => ListenAddr::V4(v4),
        None => match net.ipv6 {
            Some(v6) => ListenAddr::V6(v6),
            None => {
                let z: [u8; 4] = [0u8, 0u8, 0u8, 0u8];
                assert(z@ =~= seq![0u8, 0u8, 0u8, 0u8]);
                assert(z == [0u8, 0u8, 0u8, 0u8]);
                ListenAddr::V4(z)
            },
        },
    }
}


/// Started with a room id, the relay listens on IPv4 127.0.0.1 only, at the
/// port given (10200 when none is), whatever the room and the port.
pub proof fn lemma_quick_start_listens_on_loopback(c: Config, roomid: u64, port: u16)
    requires
        is_quick_start_config(c, roomid, port),
    ensures
        c.net.ipv4 matches Some(a) && a@ == seq![127u8, 0u8, 0u8, 1u8],
        c.net.ipv6 is None,
        c.net.port == port,
        listen_addr_spec(c.net) matches ListenAddr::V4(a) && a@ == seq![127u8, 0u8, 0u8, 1u8],
{
}

/// The address the websocket server binds to for `net`.
pub open spec fn listen_addr_spec(net: NetConfig) -> ListenAddr {
    match net.ipv4 {
        Some(v4) => ListenAddr::V4(v4),
        None => match net.ipv6 {
            Some(v6) => ListenAddr::V6(v6),
            None => ListenAddr::V4([0u8, 0u8, 0u8, 0u8]),
        },
    }
}

/// Two quick starts of one room that differ only in the port argument give
/// configurations that differ only in the port.
pub proof fn lemma_port_changes_only_port(c1: Config, c2: Config, roomid: u64, p1: u16, p2: u16)
    requires
        is_quick_start_config(c1, roomid, p1),
        is_quick_start_config(c2, roomid, p2),
    ensures
        c1.net.ipv4.unwrap()@ == c2.net.ipv4.unwrap()@,
        c1.net.ipv4 is Some && c2.net.ipv4 is Some,
        c1.net.ipv6 is None && c2.net.ipv6 is None,
        c1.net.port == p1 && c2.net.port == p2,
        c1.room@.len() == c2.room@.len() == 1,
        c1.room@[0].roomid == c2.room@[0].roomid == roomid,
        c1.room@[0].channel@.len() == c2.room@[0].channel@.len(),
        forall|i: int|
            0 <= i < c1.room@[0].channel@.len() ==> #[trigger] c1.room@[0].channel@[i]@
                == c2.room@[0].channel@[i]@,
        c1.db.mongo is None && c2.db.mongo is None,
        c1.db.pg is None && c2.db.pg is None,
{
    assert forall|i: int| 0 <= i < c1.room@[0].channel@.len() implies #[trigger] c1.room@[0].channel@[i]@
        == c2.room@[0].channel@[i]@ by {
        assert(i == 0 || i == 1);
    }
}

} // verus!
