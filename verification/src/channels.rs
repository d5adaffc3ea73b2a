//! Which consumers a room feeds, as its configured channel list says.

use vstd::prelude::*;
use vstd::utf8::{encode_utf8, is_ascii_chars, is_ascii_chars_encode_utf8};
use crate::config::{bincode_chars, is_quick_start_config, json_chars, mongo_chars, pg_chars, Config, RoomConfigItem};
use crate::decimal::{all_digits, digits_value};
use crate::route::{connect_param_spec, lemma_subscription_path_accepted, ser_type_name, SerType};

verus! {

/// The consumers that are started for a room.
#[derive(Clone, Copy, Debug, PartialEq, Eq, Structural)]
pub struct ChannelPlan {
    /// Websocket clients that want json.
    pub ws_json: bool,
    /// Websocket clients that want bincode.
    pub ws_bincode: bool,
    /// A MongoDB collection.
    pub db_mongo: bool,
    /// PostgreSQL tables.
    pub db_pg: bool,
}

/// The channel list holds the name `name`.
pub open spec fn names(channel: Seq<String>, name: Seq<char>) -> bool {
    exists|i: int| 0 <= i < channel.len() && #[trigger] channel[i]@ == name
}

/// The consumers that the channel list `channel` asks for.
pub open spec fn plan_of(channel: Seq<String>) -> ChannelPlan {
    ChannelPlan {
        ws_json: names(channel, json_chars()),
        ws_bincode: names(channel, bincode_chars()),
        db_mongo: names(channel, mongo_chars()),
        db_pg: names(channel, pg_chars()),
    }
}

/// The channel name that enables websocket clients of encoding `t`.
pub open spec fn ser_type_chars(t: SerType) -> Seq<char> {
    match t {
        SerType::Json => json_chars(),
        SerType::Bincode => bincode_chars(),
    }
}

/// A room with plan `p` serves websocket clients that ask for encoding `t`.
pub open spec fn serves_spec(p: ChannelPlan, t: SerType) -> bool {
    match t {
        SerType::Json => p.ws_json,
        SerType::Bincode => p.ws_bincode,
    }
}

/// Whether `channel` holds a name equal to `name`.
fn holds_name(channel: &Vec<String>, name: &String) -> (r: bool)
    ensures
        r == names(channel@, name@),
{
    let mut i: usize = 0;
    while i < channel.len()
        invariant
            0 <= i <= channel@.len(),
            forall|k: int| 0 <= k < i ==> #[trigger] channel@[k]@ != name@,
        decreases channel@.len() - i,
    {
        let same = channel[i] == *name;
        if same {
            assert(channel@[i as int]@ == name@);
            return true;
        }
        i = i + 1;
    }
    false
}

/// The characters `mongo`.
fn mongo_name() -> (s: String)
    ensures
        s@ == mongo_chars(),
{
    let s = "mongo".to_string();
    proof {
        reveal_strlit("mongo");
    }
    s
}

/// The characters `pg`.
fn pg_name() -> (s: String)
    ensures
        s@ == pg_chars(),
{
    let s = "pg".to_string();
    proof {
        reveal_strlit("pg");
    }
    s
}

impl ChannelPlan {
    /// The consumers that a room's channel list asks for: each of `json`,
    /// `bincode`, `mongo` and `pg` is enabled when the list holds that name.
    pub fn from_channels(channel: &Vec<String>) -> (p: ChannelPlan)
        ensures
            p == plan_of(channel@),
    {
        let json = crate::config::json_name();
        let bincode = crate::config::bincode_name();
        ChannelPlan {
            ws_json: holds_name(channel, &json),
            ws_bincode: holds_name(channel, &bincode),
            db_mongo: holds_name(channel, &mongo_name()),
            db_pg: holds_name(channel, &pg_name()),
        }
    }

    /// The consumers for a configured room.
    pub fn for_room(room: &RoomConfigItem) -> (p: ChannelPlan)
        ensures
            p == plan_of(room.channel@),
    {
        Self::from_channels(&room.channel)
    }

    /// Whether websocket clients that ask for encoding `t` are served.
    pub fn serves(&self, t: SerType) -> (r: bool)
        ensures
            r == serves_spec(*self, t),
    {
        match t {
            SerType::Json => self.ws_json,
            SerType::Bincode => self.ws_bincode,
        }
    }
}

/// A room serves websocket clients of an encoding exactly when its channel
/// list names that encoding.
pub proof fn lemma_serves_iff_named(channel: Seq<String>, t: SerType)
    ensures
        serves_spec(plan_of(channel), t) <==> names(channel, ser_type_chars(t)),
{
}

/// The path segment that selects an encoding is the UTF-8 text of the
/// channel name that enables it.
pub proof fn lemma_path_name_is_channel_name(t: SerType)
    ensures
        encode_utf8(ser_type_chars(t)) == ser_type_name(t),
{
    let c = ser_type_chars(t);
    assert(is_ascii_chars(c));
    is_ascii_chars_encode_utf8(c);
    assert(c[0] as u8 == encode_utf8(c)[0]);
    assert(c[1] as u8 == encode_utf8(c)[1]);
    assert(c[2] as u8 == encode_utf8(c)[2]);
    assert(c[3] as u8 == encode_utf8(c)[3]);
    if t == SerType::Bincode {
        assert(c[4] as u8 == encode_utf8(c)[4]);
        assert(c[5] as u8 == encode_utf8(c)[5]);
        assert(c[6] as u8 == encode_utf8(c)[6]);
    }
    assert(encode_utf8(c) =~= ser_type_name(t));
}


/// The room followed from the command line serves websocket clients of
/// both encodings and stores nothing in a database.
pub proof fn lemma_quick_start_plan(c: Config, roomid: u64, port: u16, t: SerType)
    requires
        is_quick_start_config(c, roomid, port),
    ensures
        serves_spec(plan_of(c.room@[0].channel@), t),
        !plan_of(c.room@[0].channel@).db_mongo,
        !plan_of(c.room@[0].channel@).db_pg,
{
    let ch = c.room@[0].channel@;
    assert(ch[0]@ == json_chars());
    assert(ch[1]@ == bincode_chars());
    assert(names(ch, json_chars()));
    assert(names(ch, bincode_chars()));
    assert forall|i: int| 0 <= i < ch.len() implies #[trigger] ch[i]@ != mongo_chars() && ch[i]@
        != pg_chars() by {
        assert(ch[i]@.len() == 4 || ch[i]@.len() == 7);
    }
}


/// A relay started from the command line for room `roomid` serves every
/// client that subscribes with `/<roomid>/json` or `/<roomid>/bincode`
/// (written with any decimal digits of the room id, followed by nothing or
/// by more `/...`).
pub proof fn lemma_quick_start_clients_served(
    c: Config,
    roomid: u64,
    port: u16,
    digits: Seq<u8>,
    t: SerType,
    tail: Seq<u8>,
)
    requires
        is_quick_start_config(c, roomid, port),
        digits.len() > 0,
        all_digits(digits),
        digits_value(digits) == roomid,
        tail.len() == 0 || tail[0] == 47,
    ensures
        ({
            let path = seq![47u8] + digits + seq![47u8] + ser_type_name(t) + tail;
            &&& connect_param_spec(path) matches Some(p)
            &&& p.roomid == c.room@[0].roomid
            &&& p.connect_type == t
            &&& serves_spec(plan_of(c.room@[0].channel@), p.connect_type)
        }),
{
    let empty = Seq::<u8>::empty();
    lemma_subscription_path_accepted(empty, digits, t, tail);
    assert(empty + seq![47u8] + digits + seq![47u8] + ser_type_name(t) + tail =~= seq![47u8]
        + digits + seq![47u8] + ser_type_name(t) + tail);
    lemma_quick_start_plan(c, roomid, port, t);
}

} // verus!
