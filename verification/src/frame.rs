//! Binary frames: the fast path for stream payloads.
//!
//! A binary frame is the connection id in exactly 36 bytes followed by the
//! raw payload.  An id shorter than 36 bytes is padded with zero bytes, a
//! longer one is cut.

use vstd::prelude::*;
use vstd::slice::slice_subrange;
use vstd::slice::slice_to_vec;
use vstd::utf8::encode_utf8;
use vstd::utf8::is_ascii_chars;
use vstd::utf8::is_ascii_chars_encode_utf8;
use crate::protocol::WsMessage;
use crate::protocol::WsMessageView;
use crate::text::all_ascii;
use crate::text::ascii_chars;
use crate::text::ascii_string;

verus! {

/// The number of bytes that a connection id takes in a binary frame.
pub const CONN_ID_LEN: usize = 36;

/// The id field of a frame for an id with the bytes `id`: its first 36
/// bytes, with zero bytes where it has none.
pub open spec fn conn_id_field(id: Seq<u8>) -> Seq<u8> {
    Seq::new(
        36,
        |i: int|
            if i < id.len() {
                id[i]
            } else {
                0u8
            },
    )
}

/// The binary frame that carries `payload` on the connection `conn_id`.
pub open spec fn data_frame(conn_id: Seq<char>, payload: Seq<u8>) -> Seq<u8> {
    conn_id_field(encode_utf8(conn_id)) + payload
}

/// The connection id and payload that a binary frame carries.  A frame of
/// fewer than 37 bytes, or one whose first 36 bytes are not all ASCII,
/// carries nothing.
pub open spec fn frame_parts(frame: Seq<u8>) -> Option<(Seq<char>, Seq<u8>)> {
    if frame.len() >= 37 && all_ascii(frame.subrange(0, 36)) {
        Some((ascii_chars(frame.subrange(0, 36)), frame.subrange(36, frame.len() as int)))
    } else {
        None
    }
}

/// Builds the binary frame for `data` on the connection `conn_id`.
pub fn encode_data_frame(conn_id: &str, data: &[u8]) -> (frame: Vec<u8>)
    ensures
        frame@ == data_frame(conn_id@, data@),
{
    let id = conn_id.as_bytes();
    let mut frame: Vec<u8> = Vec::new();
    let mut i: usize = 0;
    while i < CONN_ID_LEN
        invariant
            i <= CONN_ID_LEN,
            id@ == encode_utf8(conn_id@),
            frame@.len() == i,
            forall|k: int| 0 <= k < i ==> #[trigger] frame@[k] == conn_id_field(id@)[k],
        decreases CONN_ID_LEN - i,
    {
        if i < id.len() {
            frame.push(id[i]);
        } else {
            frame.push(0u8);
        }
        i += 1;
    }
    assert(frame@ =~= conn_id_field(id@));
    let mut j: usize = 0;
    while j < data.len()
        invariant
            j <= data.len(),
            frame@ == conn_id_field(encode_utf8(conn_id@)) + data@.subrange(0, j as int),
        decreases data.len() - j,
    {
        frame.push(data[j]);
        assert(data@.subrange(0, j + 1) =~= data@.subrange(0, j as int).push(data@[j as int]));
        j += 1;
    }
    assert(data@.subrange(0, data.len() as int) =~= data@);
    frame
}

/// Takes a binary frame apart.
pub fn decode_data_frame(frame: &[u8]) -> (r: Option<(String, Vec<u8>)>)
    ensures
        match r {
            Some((conn_id, payload)) => frame_parts(frame@) == Some((conn_id@, payload@)),
            None => frame_parts(frame@) is None,
        },
{
    if frame.len() <= CONN_ID_LEN {
        return None;
    }
    let head = slice_subrange(frame, 0, CONN_ID_LEN);
    let mut i: usize = 0;
    while i < CONN_ID_LEN
        invariant
            i <= CONN_ID_LEN,
            frame@.len() > 36,
            head@ == frame@.subrange(0, 36),
            forall|k: int| 0 <= k < i ==> #[trigger] head@[k] < 128,
        decreases CONN_ID_LEN - i,
    {
        if head[i] >= 128 {
            assert(!(frame@.subrange(0, 36)[i as int] < 128));
            return None;
        }
        i += 1;
    }
    let conn_id = ascii_string(head);
    let payload = slice_to_vec(slice_subrange(frame, CONN_ID_LEN, frame.len()));
    Some((conn_id, payload))
}

/// A frame that is built for a 36-character ASCII connection id and a
/// payload of at least one byte comes apart into that id and that payload.
pub proof fn law_frame_round_trip(conn_id: Seq<char>, payload: Seq<u8>)
    requires
        conn_id.len() == 36,
        is_ascii_chars(conn_id),
        payload.len() >= 1,
    ensures
        frame_parts(data_frame(conn_id, payload)) == Some((conn_id, payload)),
{
    is_ascii_chars_encode_utf8(conn_id);
    let id = encode_utf8(conn_id);
    let frame = data_frame(conn_id, payload);
    assert(frame.subrange(0, 36) =~= conn_id_field(id));
    assert(frame.subrange(36, frame.len() as int) =~= payload);
    assert forall|i: int| 0 <= i < 36 implies #[trigger] conn_id_field(id)[i] < 128 by {
        assert(conn_id[i] as u8 == id[i]);
    }
    assert(ascii_chars(conn_id_field(id)) =~= conn_id) by {
        assert forall|i: int| 0 <= i < 36 implies #[trigger] ascii_chars(conn_id_field(id))[i]
            == conn_id[i] by {
            assert(conn_id[i] as u8 == id[i]);
        }
    }
}

impl WsMessage {
    /// The binary frame for this message.  Only `Data` travels in binary;
    /// every other message is sent as text.
    pub fn binary_frame(&self) -> (frame: Option<Vec<u8>>)
        ensures
            match self@ {
                WsMessageView::Data { conn_id, data } => frame matches Some(bytes) && bytes@
                    == data_frame(conn_id, data),
                _ => frame is None,
            },
    {
        match self {
            WsMessage::Data { conn_id, data } => Some(
                encode_data_frame(conn_id.as_str(), data.as_slice()),
            ),
            _ => None,
        }
    }

    /// The `Data` message that a binary frame stands for.
    pub fn from_binary_frame(frame: &[u8]) -> (msg: Option<WsMessage>)
        ensures
            match frame_parts(frame@) {
                Some((conn_id, data)) => msg matches Some(m) && m@ == (WsMessageView::Data {
                    conn_id,
                    data,
                }),
                None => msg is None,
            },
    {
        match decode_data_frame(frame) {
            Some((conn_id, data)) => Some(WsMessage::Data { conn_id, data }),
            None => None,
        }
    }
}

} // verus!
