//! The rows that are stored for a room's events, and the event data they are
//! made from.

use vstd::prelude::*;
use crate::timestamp::{lemma_ms_to_dt_keeps_millis, ms_in_range, ms_to_dt, ms_to_dt_spec, UtcTimestamp};

verus! {

/// A viewer.
pub struct User {
    pub uid: u64,
    pub uname: String,
}

/// The text of a danmaku.
pub enum DanmakuMessage {
    /// Plain text.
    Plain { message: String },
    /// A sticker, with the text shown in its place.
    Emoticon { alt_message: String },
}

/// Whether a gift was paid for with silver or gold coins.
#[derive(Clone, Copy, Debug, PartialEq, Eq, Structural)]
pub enum CoinType {
    Silver,
    Gold,
}

/// A gift that was sent.
pub struct GiftInfo {
    pub coin_type: CoinType,
    pub coin_count: u64,
    pub gift_name: String,
    pub gift_id: u64,
    pub price: u64,
}

/// The kind of a blind-box gift.
pub struct GiftType {
    pub action: String,
    pub gift_name: String,
    pub gift_id: u64,
}

/// The text stored for an absent encoding: empty.
pub open spec fn text_or_empty(s: Option<String>) -> Seq<char> {
    match s {
        Some(t) => t@,
        None => Seq::empty(),
    }
}

/// The stored text of a danmaku.
pub open spec fn essential_text(m: DanmakuMessage) -> String {
    match m {
        DanmakuMessage::Plain { message } => message,
        DanmakuMessage::Emoticon { alt_message } => alt_message,
    }
}

fn unwrap_or_empty(s: Option<String>) -> (r: String)
    ensures
        r@ == text_or_empty(s),
{
    match s {
        Some(t) => t,
        None => String::new(),
    }
}

/// A danmaku row.
pub struct Danmaku {
    pub id: Option<i32>,
    pub room_id: i64,
    pub user_id: i64,
    pub user_name: String,
    pub flag: i32,
    /// The json encoding of the message, empty where it could not be made.
    pub message: String,
    pub is_emoticon: bool,
    pub essential_message: String,
    /// The json encoding of the fan medal.
    pub medal: Option<String>,
    pub timestamp: UtcTimestamp,
}

impl Danmaku {
    /// `self` is the row for this danmaku.
    pub open spec fn made_from(
        self,
        room_id: u64,
        flag: u64,
        message: DanmakuMessage,
        message_json: Option<String>,
        user: User,
        medal: Option<String>,
        time: u64,
    ) -> bool {
        &&& self.id is None
        &&& self.room_id == room_id as i64
        &&& self.user_id == user.uid as i64
        &&& self.user_name == user.uname
        &&& self.flag == flag as i32
        &&& self.message@ == text_or_empty(message_json)
        &&& self.is_emoticon == (message is Emoticon)
        &&& self.essential_message == essential_text(message)
        &&& self.medal == medal
        &&& self.timestamp == ms_to_dt_spec(time)
    }

    /// The row for a danmaku sent at `time` (milliseconds since the epoch).
    /// `message_json` is the json encoding of the message, where it could be
    /// made, and `medal` that of the sender's fan medal.
    pub fn new(
        room_id: u64,
        flag: u64,
        message: DanmakuMessage,
        message_json: Option<String>,
        user: User,
        medal: Option<String>,
        time: u64,
    ) -> (r: Danmaku)
        requires
            ms_in_range(time),
        ensures
            r.made_from(room_id, flag, message, message_json, user, medal, time),
            r.room_id == room_id as i64,
            r.user_id == user.uid as i64,
            r.user_name == user.uname,
            r.medal == medal,
            r.flag == flag as i32,
            r.is_emoticon <==> message is Emoticon,
            r.timestamp.secs * 1000 + r.timestamp.nanos / 1_000_000 == time,
            r.timestamp.nanos % 1_000_000 == 0,
            r.timestamp.nanos < 1_000_000_000,
    {
        let msg_json = unwrap_or_empty(message_json);
        let (is_emoticon, essential_message) = match message {
            DanmakuMessage::Emoticon { alt_message } => (true, alt_message),
            DanmakuMessage::Plain { message } => (false, message),
        };
        Danmaku {
            id: None,
            room_id: room_id as i64,
            user_id: user.uid as i64,
            user_name: user.uname,
            flag: flag as i32,
            message: msg_json,
            is_emoticon,
            essential_message,
            medal,
            timestamp: ms_to_dt(time),
        }
    }
}

/// A row for a viewer entering the room.
pub struct Enter {
    pub id: Option<i32>,
    pub room_id: i64,
    pub user_id: i64,
    pub user_name: String,
    pub medal: Option<String>,
    pub timestamp: UtcTimestamp,
}

impl Enter {
    /// `self` is the row for this entry.
    pub open spec fn made_from(self, room_id: u64, user: User, medal: Option<String>, time: u64) -> bool {
        &&& self.id is None
        &&& self.room_id == room_id as i64
        &&& self.user_id == user.uid as i64
        &&& self.user_name == user.uname
        &&& self.medal == medal
        &&& self.timestamp == ms_to_dt_spec(time)
    }

    /// The row for `user` entering the room at `time`.
    pub fn new(room_id: u64, user: User, medal: Option<String>, time: u64) -> (r: Enter)
        requires
            ms_in_range(time),
        ensures
            r.made_from(room_id, user, medal, time),
            r.room_id == room_id as i64,
            r.user_id == user.uid as i64,
            r.user_name == user.uname,
            r.medal == medal,
            r.timestamp.secs * 1000 + r.timestamp.nanos / 1_000_000 == time,
            r.timestamp.nanos % 1_000_000 == 0,
            r.timestamp.nanos < 1_000_000_000,
    {
        Enter {
            id: None,
            room_id: room_id as i64,
            user_id: user.uid as i64,
            user_name: user.uname,
            medal,
            timestamp: ms_to_dt(time),
        }
    }
}

/// A gift row.
pub struct Gift {
    pub id: Option<i32>,
    pub room_id: i64,
    pub user_id: i64,
    pub user_name: String,
    pub gift_id: i32,
    pub gift_name: String,
    pub gift_price: i32,
    pub gift_count: i32,
    /// Paid for with gold coins.
    pub gift_paid: bool,
    pub medal: Option<String>,
    pub timestamp: UtcTimestamp,
}

impl Gift {
    /// `self` is the row for this gift.
    pub open spec fn made_from(
        self,
        room_id: u64,
        user: User,
        medal: Option<String>,
        gift: GiftInfo,
        time: u64,
    ) -> bool {
        &&& self.id is None
        &&& self.room_id == room_id as i64
        &&& self.user_id == user.uid as i64
        &&& self.user_name == user.uname
        &&& self.gift_id == gift.gift_id as i32
        &&& self.gift_name == gift.gift_name
        &&& self.gift_price == gift.price as i32
        &&& self.gift_count == gift.coin_count as i32
        &&& self.gift_paid == (gift.coin_type == CoinType::Gold)
        &&& self.medal == medal
        &&& self.timestamp == ms_to_dt_spec(time)
    }

    /// The row for `gift` sent by `user` at `time`; the kind of a blind box
    /// is not stored.
    pub fn new(
        room_id: u64,
        user: User,
        medal: Option<String>,
        _blindbox: Option<GiftType>,
        gift: GiftInfo,
        time: u64,
    ) -> (r: Gift)
        requires
            ms_in_range(time),
        ensures
            r.made_from(room_id, user, medal, gift, time),
            r.room_id == room_id as i64,
            r.user_id == user.uid as i64,
            r.user_name == user.uname,
            r.medal == medal,
            r.gift_name == gift.gift_name,
            r.gift_paid <==> gift.coin_type == CoinType::Gold,
            r.timestamp.secs * 1000 + r.timestamp.nanos / 1_000_000 == time,
            r.timestamp.nanos % 1_000_000 == 0,
            r.timestamp.nanos < 1_000_000_000,
    {
        let gift_paid = match gift.coin_type {
            CoinType::Silver => false,
            CoinType::Gold => true,
        };
        Gift {
            id: None,
            room_id: room_id as i64,
            user_id: user.uid as i64,
            user_name: user.uname,
            gift_id: gift.gift_id as i32,
            gift_name: gift.gift_name,
            gift_price: gift.price as i32,
            gift_count: gift.coin_count as i32,
            gift_paid,
            medal,
            timestamp: ms_to_dt(time),
        }
    }
}

/// A row for a bought guard membership.
pub struct GuardBuy {
    pub id: Option<i32>,
    pub room_id: i64,
    pub user_id: i64,
    pub user_name: String,
    pub guards_level: i16,
    pub price: i32,
    pub timestamp: UtcTimestamp,
}

impl GuardBuy {
    /// `self` is the row for this purchase.
    pub open spec fn made_from(self, room_id: u64, user: User, level: u64, price: u64, time: u64) -> bool {
        &&& self.id is None
        &&& self.room_id == room_id as i64
        &&& self.user_id == user.uid as i64
        &&& self.user_name == user.uname
        &&& self.guards_level == level as i16
        &&& self.price == price as i32
        &&& self.timestamp == ms_to_dt_spec(time)
    }

    /// The row for `user` buying guard level `level` for `price` at `time`.
    pub fn new(room_id: u64, user: User, level: u64, price: u64, time: u64) -> (r: GuardBuy)
        requires
            ms_in_range(time),
        ensures
            r.made_from(room_id, user, level, price, time),
            r.room_id == room_id as i64,
            r.user_id == user.uid as i64,
            r.user_name == user.uname,
            r.guards_level == level as i16,
            r.price == price as i32,
            r.timestamp.secs * 1000 + r.timestamp.nanos / 1_000_000 == time,
            r.timestamp.nanos % 1_000_000 == 0,
            r.timestamp.nanos < 1_000_000_000,
    {
        GuardBuy {
            id: None,
            room_id: room_id as i64,
            user_id: user.uid as i64,
            user_name: user.uname,
            guards_level: level as i16,
            price: price as i32,
            timestamp: ms_to_dt(time),
        }
    }
}

/// A row for a popularity count.
#[derive(Clone, Copy, Debug, PartialEq, Eq, Structural)]
pub struct Popularity {
    pub id: Option<i32>,
    pub room_id: i64,
    pub count: i32,
    pub timestamp: UtcTimestamp,
}

impl Popularity {
    /// The row for popularity `count` at `time`.
    pub fn new(room_id: u64, count: u32, time: u64) -> (r: Popularity)
        requires
            ms_in_range(time),
        ensures
            r == (Popularity {
                id: None,
                room_id: room_id as i64,
                count: count as i32,
                timestamp: ms_to_dt_spec(time),
            }),
            r.room_id == room_id as i64,
            r.count == count as i32,
            r.timestamp.secs * 1000 + r.timestamp.nanos / 1_000_000 == time,
            r.timestamp.nanos % 1_000_000 == 0,
            r.timestamp.nanos < 1_000_000_000,
    {
        Popularity { id: None, room_id: room_id as i64, count: count as i32, timestamp: ms_to_dt(time) }
    }
}

/// A row for a count of viewers who watched.
#[derive(Clone, Copy, Debug, PartialEq, Eq, Structural)]
pub struct Watched {
    pub id: Option<i32>,
    pub room_id: i64,
    pub count: i32,
    pub timestamp: UtcTimestamp,
}

impl Watched {
    /// The row for `num` viewers having watched, at `time`.
    pub fn new(room_id: u64, num: u64, time: u64) -> (r: Watched)
        requires
            ms_in_range(time),
        ensures
            r == (Watched {
                id: None,
                room_id: room_id as i64,
                count: num as i32,
                timestamp: ms_to_dt_spec(time),
            }),
            r.room_id == room_id as i64,
            r.count == num as i32,
            r.timestamp.secs * 1000 + r.timestamp.nanos / 1_000_000 == time,
            r.timestamp.nanos % 1_000_000 == 0,
            r.timestamp.nanos < 1_000_000_000,
    {
        Watched { id: None, room_id: room_id as i64, count: num as i32, timestamp: ms_to_dt(time) }
    }
}

/// A superchat row.
pub struct Superchat {
    pub id: Option<i32>,
    pub room_id: i64,
    pub user_id: i64,
    pub user_name: String,
    pub message: String,
    pub price: i32,
    pub medal: Option<String>,
    pub timestamp: UtcTimestamp,
}

impl Superchat {
    /// `self` is the row for this superchat.
    pub open spec fn made_from(
        self,
        room_id: u64,
        user: User,
        medal: Option<String>,
        price: u64,
        message: String,
        time: u64,
    ) -> bool {
        &&& self.id is None
        &&& self.room_id == room_id as i64
        &&& self.user_id == user.uid as i64
        &&& self.user_name == user.uname
        &&& self.message == message
        &&& self.price == price as i32
        &&& self.medal == medal
        &&& self.timestamp == ms_to_dt_spec(time)
    }

    /// The row for a superchat of `price` with `message` at `time`.
    pub fn new(
        room_id: u64,
        user: User,
        medal: Option<String>,
        price: u64,
        message: String,
        time: u64,
    ) -> (r: Superchat)
        requires
            ms_in_range(time),
        ensures
            r.made_from(room_id, user, medal, price, message, time),
            r.room_id == room_id as i64,
            r.user_id == user.uid as i64,
            r.user_name == user.uname,
            r.medal == medal,
            r.message == message,
            r.price == price as i32,
            r.timestamp.secs * 1000 + r.timestamp.nanos / 1_000_000 == time,
            r.timestamp.nanos % 1_000_000 == 0,
            r.timestamp.nanos < 1_000_000_000,
    {
        Superchat {
            id: None,
            room_id: room_id as i64,
            user_id: user.uid as i64,
            price: price as i32,
            user_name: user.uname,
            message,
            medal,
            timestamp: ms_to_dt(time),
        }
    }
}


/// A danmaku row keeps the room, the sender, the sender's fan medal (for
/// plain and emoticon messages alike) and the time of the danmaku, to the
/// millisecond.
pub proof fn lemma_danmaku_row_keeps_event(
    r: Danmaku,
    room_id: u64,
    flag: u64,
    message: DanmakuMessage,
    message_json: Option<String>,
    user: User,
    medal: Option<String>,
    time: u64,
)
    requires
        r.made_from(room_id, flag, message, message_json, user, medal, time),
        ms_in_range(time),
    ensures
        r.room_id == room_id as i64,
        r.user_id == user.uid as i64,
        r.user_name == user.uname,
        r.medal == medal,
        r.timestamp.secs * 1000 + r.timestamp.nanos / 1_000_000 == time,
{
    lemma_ms_to_dt_keeps_millis(time);
}

/// A gift row is stored under the room the gift was sent in and the id of
/// the viewer who sent it, with the gift's time.
pub proof fn lemma_gift_row_keeps_event(
    r: Gift,
    room_id: u64,
    user: User,
    medal: Option<String>,
    gift: GiftInfo,
    time: u64,
)
    requires
        r.made_from(room_id, user, medal, gift, time),
        ms_in_range(time),
    ensures
        r.room_id == room_id as i64,
        r.user_id == user.uid as i64,
        r.user_name == user.uname,
        r.gift_name == gift.gift_name,
        r.timestamp.secs * 1000 + r.timestamp.nanos / 1_000_000 == time,
{
    lemma_ms_to_dt_keeps_millis(time);
}

/// A superchat row keeps the room, the sender, the message and the time of
/// the superchat, to the millisecond.
pub proof fn lemma_superchat_row_keeps_event(
    r: Superchat,
    room_id: u64,
    user: User,
    medal: Option<String>,
    price: u64,
    message: String,
    time: u64,
)
    requires
        r.made_from(room_id, user, medal, price, message, time),
        ms_in_range(time),
    ensures
        r.room_id == room_id as i64,
        r.user_id == user.uid as i64,
        r.user_name == user.uname,
        r.message == message,
        r.timestamp.secs * 1000 + r.timestamp.nanos / 1_000_000 == time,
        r.timestamp.nanos < 1_000_000_000,
{
    lemma_ms_to_dt_keeps_millis(time);
}

/// A guard-purchase row keeps the room, the buyer's id and name, and the
/// time of the purchase.
pub proof fn lemma_guard_buy_row_keeps_event(
    r: GuardBuy,
    room_id: u64,
    user: User,
    level: u64,
    price: u64,
    time: u64,
)
    requires
        r.made_from(room_id, user, level, price, time),
        ms_in_range(time),
    ensures
        r.room_id == room_id as i64,
        r.user_id == user.uid as i64,
        r.user_name == user.uname,
        r.timestamp.secs * 1000 + r.timestamp.nanos / 1_000_000 == time,
{
    lemma_ms_to_dt_keeps_millis(time);
}

/// An entry row keeps the room, the viewer and the time of the entry.
pub proof fn lemma_enter_row_keeps_event(
    r: Enter,
    room_id: u64,
    user: User,
    medal: Option<String>,
    time: u64,
)
    requires
        r.made_from(room_id, user, medal, time),
        ms_in_range(time),
    ensures
        r.room_id == room_id as i64,
        r.user_id == user.uid as i64,
        r.user_name == user.uname,
        r.medal == medal,
        r.timestamp.secs * 1000 + r.timestamp.nanos / 1_000_000 == time,
{
    lemma_ms_to_dt_keeps_millis(time);
}

} // verus!
