//! Reading the websocket request path `/<roomid>/<json|bincode>` that a
//! client uses to subscribe to a room.

use vstd::prelude::*;
use vstd::string::StringSliceAdditionalSpecFns;
use crate::decimal::{all_digits, digits_value, is_digit, parse_decimal_spec, parse_u64_range, unsigned_digits};

verus! {

/// How the events of a room are encoded for a websocket client.
#[derive(Clone, Copy, Debug, PartialEq, Eq, Structural)]
pub enum SerType {
    Json,
    Bincode,
}

/// What a client asked for: the room and the encoding.
#[derive(Clone, Copy, Debug, PartialEq, Eq, Structural)]
pub struct ConnectParam {
    pub roomid: u64,
    pub connect_type: SerType,
}

/// The UTF-8 bytes of `json`.
pub open spec fn json_bytes() -> Seq<u8> {
    seq![106u8, 115u8, 111u8, 110u8]
}

/// The UTF-8 bytes of `bincode`.
pub open spec fn bincode_bytes() -> Seq<u8> {
    seq![98u8, 105u8, 110u8, 99u8, 111u8, 100u8, 101u8]
}

/// The name under which an encoding is requested and configured.
pub open spec fn ser_type_name(t: SerType) -> Seq<u8> {
    match t {
        SerType::Json => json_bytes(),
        SerType::Bincode => bincode_bytes(),
    }
}

/// The encoding that a path segment names, if any.
pub open spec fn ser_type_named(seg: Seq<u8>) -> Option<SerType> {
    if seg == json_bytes() {
        Some(SerType::Json)
    } else if seg == bincode_bytes() {
        Some(SerType::Bincode)
    } else {
        None
    }
}

/// The index of the first `/` in `s` at or after `from`, or `s.len()` if there is none.
pub open spec fn slash_from(s: Seq<u8>, from: int) -> int
    decreases s.len() - from,
{
    if from < 0 || from >= s.len() {
        s.len() as int
    } else if s[from] == 47 {
        from
    } else {
        slash_from(s, from + 1)
    }
}

/// What the path `path` asks for. The path is split at every `/`; the text
/// before the first `/` is skipped, the next piece must be a room id and the
/// piece after it must name an encoding; further pieces are ignored.
pub open spec fn connect_param_spec(path: Seq<u8>) -> Option<ConnectParam> {
    let p0 = slash_from(path, 0);
    if p0 >= path.len() {
        None
    } else {
        let p1 = slash_from(path, p0 + 1);
        match parse_decimal_spec(path.subrange(p0 + 1, p1), u64::MAX as nat) {
            None => None,
            Some(roomid) => if p1 >= path.len() {
                None
            } else {
                let p2 = slash_from(path, p1 + 1);
                match ser_type_named(path.subrange(p1 + 1, p2)) {
                    Some(t) => Some(ConnectParam { roomid: roomid as u64, connect_type: t }),
                    None => None,
                }
            },
        }
    }
}

proof fn lemma_slash_from_bounds(s: Seq<u8>, from: int)
    requires
        0 <= from <= s.len(),
    ensures
        from <= slash_from(s, from) <= s.len(),
        slash_from(s, from) < s.len() ==> s[slash_from(s, from)] == 47,
    decreases s.len() - from,
{
    if from < s.len() && s[from] != 47 {
        lemma_slash_from_bounds(s, from + 1);
    }
}

/// Finds the first `/` in `s` at or after `from`.
fn find_slash(s: &[u8], from: usize) -> (r: usize)
    requires
        from <= s@.len(),
    ensures
        r as int == slash_from(s@, from as int),
        from <= r <= s@.len(),
{
    proof {
        lemma_slash_from_bounds(s@, from as int);
    }
    let mut i = from;
    while i < s.len()
        invariant
            from <= i <= s@.len(),
            slash_from(s@, from as int) == slash_from(s@, i as int),
        decreases s@.len() - i,
    {
        if s[i] == 47u8 {
            return i;
        }
        i = i + 1;
    }
    i
}

/// The encoding that `s[lo..hi]` names, if any.
fn ser_type_in(s: &[u8], lo: usize, hi: usize) -> (r: Option<SerType>)
    requires
        lo <= hi <= s@.len(),
    ensures
        r == ser_type_named(s@.subrange(lo as int, hi as int)),
{
    let ghost seg = s@.subrange(lo as int, hi as int);
    if hi - lo == 4 && s[lo] == 106u8 && s[lo + 1] == 115u8 && s[lo + 2] == 111u8 && s[lo + 3]
        == 110u8 {
        assert(seg =~= json_bytes());
        Some(SerType::Json)
    } else if hi - lo == 7 && s[lo] == 98u8 && s[lo + 1] == 105u8 && s[lo + 2] == 110u8 && s[lo
        + 3] == 99u8 && s[lo + 4] == 111u8 && s[lo + 5] == 100u8 && s[lo + 6] == 101u8 {
        assert(seg =~= bincode_bytes());
        Some(SerType::Bincode)
    } else {
        proof {
            if seg == json_bytes() {
                assert(seg.len() == 4);
                assert(seg[0] == 106u8 && seg[1] == 115u8 && seg[2] == 111u8 && seg[3] == 110u8);
            }
            if seg == bincode_bytes() {
                assert(seg.len() == 7);
                assert(seg[0] == 98u8 && seg[1] == 105u8 && seg[2] == 110u8 && seg[3] == 99u8);
                assert(seg[4] == 111u8 && seg[5] == 100u8 && seg[6] == 101u8);
            }
        }
        None
    }
}

/// Reads a subscription request path such as `/510/json`: the room id and the
/// encoding, or `None` where the path does not name both.
pub fn parse_connect_path(path: &str) -> (r: Option<ConnectParam>)
    ensures
        r == connect_param_spec(path.spec_bytes()),
{
    let s = path.as_bytes();
    let p0 = find_slash(s, 0);
    if p0 >= s.len() {
        return None;
    }
    let p1 = find_slash(s, p0 + 1);
    match parse_u64_range(s, p0 + 1, p1) {
        None => None,
        Some(roomid) => {
            if p1 >= s.len() {
                return None;
            }
            let p2 = find_slash(s, p1 + 1);
            match ser_type_in(s, p1 + 1, p2) {
                Some(t) => Some(ConnectParam { roomid, connect_type: t }),
                None => None,
            }
        },
    }
}


/// With no `/` in `s[from..k]` and a `/` (or the end) at `k`, the first `/`
/// at or after `from` is at `k`.
proof fn lemma_slash_from_at(s: Seq<u8>, from: int, k: int)
    requires
        0 <= from <= k <= s.len(),
        forall|i: int| from <= i < k ==> s[i] != 47,
        k == s.len() || s[k] == 47,
    ensures
        slash_from(s, from) == k,
    decreases k - from,
{
    if from < k {
        lemma_slash_from_at(s, from + 1, k);
    }
}

/// Every path of the form `<prefix>/<room id>/<encoding>` followed by nothing
/// or by a further `/...` is accepted, with the room id's decimal value and
/// the named encoding.
pub proof fn lemma_subscription_path_accepted(
    prefix: Seq<u8>,
    digits: Seq<u8>,
    t: SerType,
    tail: Seq<u8>,
)
    requires
        forall|i: int| 0 <= i < prefix.len() ==> prefix[i] != 47,
        digits.len() > 0,
        all_digits(digits),
        digits_value(digits) <= u64::MAX,
        tail.len() == 0 || tail[0] == 47,
    ensures
        connect_param_spec(prefix + seq![47u8] + digits + seq![47u8] + ser_type_name(t) + tail)
            == Some(ConnectParam { roomid: digits_value(digits) as u64, connect_type: t }),
{
    let name = ser_type_name(t);
    let path = prefix + seq![47u8] + digits + seq![47u8] + name + tail;
    let p0 = prefix.len() as int;
    let p1 = p0 + 1 + digits.len();
    let p2 = p1 + 1 + name.len();
    assert(path[p0] == 47u8);
    lemma_slash_from_at(path, 0, p0);
    assert forall|i: int| p0 + 1 <= i < p1 implies path[i] != 47 by {
        assert(path[i] == digits[i - p0 - 1]);
        assert(is_digit(digits[i - p0 - 1]));
    }
    assert(path[p1] == 47u8);
    lemma_slash_from_at(path, p0 + 1, p1);
    assert(path.subrange(p0 + 1, p1) =~= digits);
    assert(is_digit(digits[0]));
    assert(unsigned_digits(digits) == digits);
    assert forall|i: int| p1 + 1 <= i < p2 implies path[i] != 47 by {
        assert(path[i] == name[i - p1 - 1]);
    }
    if tail.len() > 0 {
        assert(path[p2] == tail[0]);
    }
    lemma_slash_from_at(path, p1 + 1, p2);
    assert(path.subrange(p1 + 1, p2) =~= name);
}

} // verus!
