//! Which PostgreSQL row, if any, an event of a room is stored as.

use vstd::prelude::*;
use crate::model::{Danmaku, DanmakuMessage, Enter, Gift, GiftInfo, GiftType, GuardBuy, Popularity, Superchat, User, Watched};
use crate::timestamp::{lemma_ms_to_dt_keeps_millis, ms_in_range, ms_to_dt_spec, UtcTimestamp};

verus! {

/// The data of a live-room event, as far as storing it needs.
pub enum EventRecord {
    Danmaku {
        flag: u64,
        message: DanmakuMessage,
        message_json: Option<String>,
        user: User,
        medal: Option<String>,
    },
    SuperChat { user: User, medal: Option<String>, price: u64, message: String },
    Gift { user: User, medal: Option<String>, blindbox: Option<GiftType>, gift: GiftInfo },
    GuardBuy { level: u64, price: u64, user: User },
    EnterRoom { user: User, medal: Option<String> },
    WatchedUpdate { num: u64 },
    PopularityUpdate { popularity: u32 },
    /// Any other event; it is not stored.
    Unstored,
}

/// A row of one of the event tables.
pub enum PgRow {
    Danmaku(Danmaku),
    Superchat(Superchat),
    Gift(Gift),
    GuardBuy(GuardBuy),
    Enter(Enter),
    Watched(Watched),
    Popularity(Popularity),
}

/// `r` is what event `ev` of room `room_id`, received at `time`, is stored as.
pub open spec fn stored_as(room_id: u64, ev: EventRecord, time: u64, r: Option<PgRow>) -> bool {
    match ev {
        EventRecord::Danmaku { flag, message, message_json, user, medal } => r matches Some(
            PgRow::Danmaku(d),
        ) && d.made_from(room_id, flag, message, message_json, user, medal, time),
        EventRecord::SuperChat { user, medal, price, message } => r matches Some(
            PgRow::Superchat(s),
        ) && s.made_from(room_id, user, medal, price, message, time),
        EventRecord::Gift { user, medal, blindbox, gift } => r matches Some(PgRow::Gift(g))
            && g.made_from(room_id, user, medal, gift, time),
        EventRecord::GuardBuy { level, price, user } => r matches Some(PgRow::GuardBuy(g))
            && g.made_from(room_id, user, level, price, time),
        EventRecord::EnterRoom { user, medal } => r matches Some(PgRow::Enter(e)) && e.made_from(
            room_id,
            user,
            medal,
            time,
        ),
        EventRecord::WatchedUpdate { num } => r == Some(
            PgRow::Watched(
                Watched {
                    id: None,
                    room_id: room_id as i64,
                    count: num as i32,
                    timestamp: ms_to_dt_spec(time),
                },
            ),
        ),
        EventRecord::PopularityUpdate { popularity } => r == Some(
            PgRow::Popularity(
                Popularity {
                    id: None,
                    room_id: room_id as i64,
                    count: popularity as i32,
                    timestamp: ms_to_dt_spec(time),
                },
            ),
        ),
        EventRecord::Unstored => r is None,
    }
}

/// The row that event `event` of room `room_id`, received at `time`
/// (milliseconds since the epoch), is stored as; `None` for events that
/// are not stored.
pub fn pg_row(room_id: u64, event: EventRecord, time: u64) -> (r: Option<PgRow>)
    requires
        ms_in_range(time),
    ensures
        stored_as(room_id, event, time, r),
{
    match event {
        EventRecord::Danmaku { flag, message, message_json, user, medal } => Some(
            PgRow::Danmaku(Danmaku::new(room_id, flag, message, message_json, user, medal, time)),
        ),
        EventRecord::SuperChat { user, medal, price, message } => Some(
            PgRow::Superchat(Superchat::new(room_id, user, medal, price, message, time)),
        ),
        EventRecord::Gift { user, medal, blindbox, gift } => Some(
            PgRow::Gift(Gift::new(room_id, user, medal, blindbox, gift, time)),
        ),
        EventRecord::GuardBuy { level, price, user } => Some(
            PgRow::GuardBuy(GuardBuy::new(room_id, user, level, price, time)),
        ),
        EventRecord::EnterRoom { user, medal } => Some(
            PgRow::Enter(Enter::new(room_id, user, medal, time)),
        ),
        EventRecord::WatchedUpdate { num } => Some(PgRow::Watched(Watched::new(room_id, num, time))),
        EventRecord::PopularityUpdate { popularity } => Some(
            PgRow::Popularity(Popularity::new(room_id, popularity, time)),
        ),
        EventRecord::Unstored => None,
    }
}


/// The room a stored row belongs to.
pub open spec fn row_room_id(r: PgRow) -> i64 {
    match r {
        PgRow::Danmaku(d) => d.room_id,
        PgRow::Superchat(x) => x.room_id,
        PgRow::Gift(x) => x.room_id,
        PgRow::GuardBuy(x) => x.room_id,
        PgRow::Enter(x) => x.room_id,
        PgRow::Watched(x) => x.room_id,
        PgRow::Popularity(x) => x.room_id,
    }
}

/// The time a stored row records.
pub open spec fn row_timestamp(r: PgRow) -> UtcTimestamp {
    match r {
        PgRow::Danmaku(d) => d.timestamp,
        PgRow::Superchat(x) => x.timestamp,
        PgRow::Gift(x) => x.timestamp,
        PgRow::GuardBuy(x) => x.timestamp,
        PgRow::Enter(x) => x.timestamp,
        PgRow::Watched(x) => x.timestamp,
        PgRow::Popularity(x) => x.timestamp,
    }
}

/// Every event except the unstored kinds is stored as exactly one row, and
/// that row belongs to the event's room and records the event's time to the
/// millisecond.
pub proof fn lemma_stored_row_keeps_room_and_time(
    room_id: u64,
    ev: EventRecord,
    time: u64,
    r: Option<PgRow>,
)
    requires
        stored_as(room_id, ev, time, r),
        ms_in_range(time),
    ensures
        r is Some <==> !(ev is Unstored),
        r matches Some(row) ==> row_room_id(row) == room_id as i64,
        r matches Some(row) ==> row_timestamp(row).secs * 1000 + row_timestamp(row).nanos
            / 1_000_000 == time,
        r matches Some(row) ==> row_timestamp(row).nanos < 1_000_000_000,
{
    lemma_ms_to_dt_keeps_millis(time);
}

} // verus!
