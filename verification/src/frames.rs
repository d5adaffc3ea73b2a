//! The websocket frames that encoded events are sent in.

use vstd::prelude::*;

verus! {

/// A websocket data frame.
pub enum WsFrame {
    Text(String),
    Binary(Vec<u8>),
}

/// Sends events to websocket clients as json text frames.
pub struct JsonConvertor;

/// Sends events to websocket clients as bincode binary frames.
pub struct BincodeConvertor;

impl JsonConvertor {
    /// The frame for an event whose json encoding is `json`.
    pub fn convert(json: String) -> (f: WsFrame)
        ensures
            f matches WsFrame::Text(t) && t == json,
    {
        WsFrame::Text(json)
    }
}

impl BincodeConvertor {
    /// The frame for an event whose bincode encoding is `bincode`; an event
    /// that could not be encoded is sent as an empty frame.
    pub fn convert(bincode: Option<Vec<u8>>) -> (f: WsFrame)
        ensures
            f matches WsFrame::Binary(b) && b@ == match bincode {
                Some(v) => v@,
                None => Seq::<u8>::empty(),
            },
    {
        match bincode {
            Some(v) => WsFrame::Binary(v),
            None => WsFrame::Binary(Vec::new()),
        }
    }
}

/// The encodings of the outbound websocket senders.
#[derive(Clone, Copy, Debug, PartialEq, Eq, Structural)]
pub enum PipeType {
    Json,
    Bincode,
}

/// The outlets that piping feeds.
#[derive(Clone, Copy, Debug, PartialEq, Eq, Structural)]
pub struct PipeOutlets {
    pub json_sender: bool,
    pub bincode_sender: bool,
    pub mongo: bool,
}

/// What piping does with one event.
pub struct PipeSends {
    /// The frames sent on the bincode sender, in order.
    pub to_bincode_sender: Vec<WsFrame>,
    /// The frames sent on the json sender, in order.
    pub to_json_sender: Vec<WsFrame>,
    /// Whether the event is inserted into the MongoDB collection.
    pub store: bool,
}

/// The frames sent on the bincode sender for one event: the bincode frame,
/// then the json frame, each where the encoding succeeded; nothing without a
/// bincode sender.
pub open spec fn bincode_sender_frames(
    outlets: PipeOutlets,
    bincode: Option<Vec<u8>>,
    json: Option<String>,
) -> Seq<WsFrame> {
    if !outlets.bincode_sender {
        Seq::empty()
    } else {
        let first = match bincode {
            Some(b) => seq![WsFrame::Binary(b)],
            None => Seq::empty(),
        };
        let second = match json {
            Some(j) => seq![WsFrame::Text(j)],
            None => Seq::empty(),
        };
        first + second
    }
}

/// What piping does with an event whose encodings are `bincode` and `json`
/// (`None` where encoding failed). Both frames go to the bincode sender,
/// whether or not a json sender exists; the json sender gets nothing.
pub fn pipe_sends(outlets: PipeOutlets, bincode: Option<Vec<u8>>, json: Option<String>) -> (r:
    PipeSends)
    ensures
        r.to_bincode_sender@ == bincode_sender_frames(outlets, bincode, json),
        r.to_json_sender@.len() == 0,
        r.store == outlets.mongo,
{
    let mut to_bincode_sender: Vec<WsFrame> = Vec::new();
    if outlets.bincode_sender {
        match bincode {
            Some(b) => to_bincode_sender.push(WsFrame::Binary(b)),
            None => {},
        }
    }
    if outlets.bincode_sender {
        match json {
            Some(j) => to_bincode_sender.push(WsFrame::Text(j)),
            None => {},
        }
    }
    let r = PipeSends { to_bincode_sender, to_json_sender: Vec::new(), store: outlets.mongo };
    assert(r.to_bincode_sender@ =~= bincode_sender_frames(outlets, bincode, json));
    r
}

} // verus!
