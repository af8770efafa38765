//! The binary framing of hub messages: the length of the body, seven bits to the
//! byte with the lowest bits first, and then the body.

use crate::value::{msgpack, write_msgpack, MsgValue, MsgView};
use vstd::prelude::*;

verus! {

/// A length in groups of seven bits, lowest group first. Every byte but the last
/// has its top bit set.
pub open spec fn length_prefix(len: nat) -> Seq<u8>
    decreases len,
{
    if len < 128 {
        seq![len as u8]
    } else {
        seq![(len % 128 + 128) as u8] + length_prefix(len / 128)
    }
}

/// A body behind its length.
pub open spec fn frame(body: Seq<u8>) -> Seq<u8> {
    length_prefix(body.len()) + body
}

/// The frame that carries a MessagePack value.
pub open spec fn value_frame(value: MsgView) -> Seq<u8> {
    frame(msgpack(value))
}

proof fn lemma_seven_bits(size: usize)
    ensures
        (size & 0x7f) == size % 128,
        (size & 0x7f) < 128,
        size >> 7 == size / 128,
        ((size & 0x7f) | 0x80) == size % 128 + 128,
{
    assert((size & 0x7f) == size % 128) by (bit_vector);
    assert((size & 0x7f) < 128) by (bit_vector);
    assert(size >> 7 == size / 128) by (bit_vector);
    assert(((size & 0x7f) | 0x80) == (size & 0x7f) + 128) by (bit_vector);
}

/// Puts the length of a body in front of it.
pub fn prefix_length(body: Vec<u8>) -> (framed: Vec<u8>)
    ensures
        framed@ == frame(body@),
{
    let mut buf = body;
    let mut size: usize = buf.len();
    let mut len_buf: Vec<u8> = Vec::new();
    assert(len_buf@ + length_prefix(size as nat) =~= length_prefix(buf@.len()));

    loop
        invariant_except_break
            len_buf@ + length_prefix(size as nat) == length_prefix(buf@.len()),
        ensures
            len_buf@ == length_prefix(buf@.len()),
        decreases size,
    {
        let ghost before = len_buf@;
        let ghost size_before = size;
        proof {
            lemma_seven_bits(size);
        }
        let mut size_part: usize = size & 0x7f;
        size >>= 7;

        if size > 0 {
            size_part |= 0x80;
        }
        len_buf.push(size_part as u8);
        assert(len_buf@ + length_prefix(size as nat) =~= before + (seq![size_part as u8]
            + length_prefix(size as nat)));

        if size == 0 {
            assert(length_prefix(size_before as nat) =~= seq![size_part as u8]);
            break;
        }
    }

    len_buf.append(&mut buf);
    len_buf
}

/// Encodes a value and puts the length of the encoding in front of it.
pub fn serialize(val: MsgValue) -> (framed: Vec<u8>)
    ensures
        framed@ == value_frame(val@),
{
    prefix_length(write_msgpack(&val))
}

/// The length at the head of a stream and how many bytes it takes, if a whole
/// length is there.
pub open spec fn read_length(stream: Seq<u8>) -> Option<(nat, nat)>
    decreases stream.len(),
{
    if stream.len() == 0 {
        None
    } else if stream[0] < 128 {
        Some((stream[0] as nat, 1))
    } else {
        match read_length(stream.drop_first()) {
            Some((high, used)) => Some(((stream[0] - 128) as nat + 128 * high, used + 1)),
            None => None,
        }
    }
}

/// The body of the frame at the head of a stream and what follows the frame, if
/// a whole frame is there.
pub open spec fn read_frame(stream: Seq<u8>) -> Option<(Seq<u8>, Seq<u8>)> {
    match read_length(stream) {
        Some((len, used)) => if used + len <= stream.len() {
            Some(
                (
                    stream.subrange(used as int, (used + len) as int),
                    stream.subrange((used + len) as int, stream.len() as int),
                ),
            )
        } else {
            None
        },
        None => None,
    }
}

/// A length reads back from its groups of seven bits, whatever follows them.
pub proof fn law_length_reads_back(len: nat, rest: Seq<u8>)
    ensures
        read_length(length_prefix(len) + rest) == Some((len, length_prefix(len).len())),
    decreases len,
{
    let prefix = length_prefix(len);
    let stream = prefix + rest;
    if len < 128 {
        assert(stream[0] == len as u8);
    } else {
        law_length_reads_back(len / 128, rest);
        let tail = length_prefix(len / 128);
        assert(stream[0] == (len % 128 + 128) as u8);
        assert(stream.drop_first() =~= tail + rest);
        assert(prefix.len() == tail.len() + 1);
        assert(len == len % 128 + 128 * (len / 128));
    }
}

/// A reader takes the body of the first frame off a stream and is left with what
/// followed that frame: frames sent one after the other are told apart.
pub proof fn law_frame_reads_back(body: Seq<u8>, rest: Seq<u8>)
    ensures
        read_frame(frame(body) + rest) == Some((body, rest)),
{
    let prefix = length_prefix(body.len());
    let stream = frame(body) + rest;
    law_length_reads_back(body.len(), body + rest);
    assert(stream =~= prefix + (body + rest));
    assert(stream.subrange(prefix.len() as int, (prefix.len() + body.len()) as int) =~= body);
    assert(stream.subrange((prefix.len() + body.len()) as int, stream.len() as int) =~= rest);
}

/// The groups of a length are as few as can be: all but the last say that another
/// follows, and the last is not empty unless it is the only one.
pub proof fn law_length_is_written_shortest(len: nat)
    ensures
        length_prefix(len).len() > 0,
        length_prefix(len).last() < 128,
        length_prefix(len).len() > 1 ==> length_prefix(len).last() > 0,
        forall|i: int|
            0 <= i < length_prefix(len).len() - 1 ==> (#[trigger] length_prefix(len)[i]) >= 128,
    decreases len,
{
    if len >= 128 {
        law_length_is_written_shortest(len / 128);
        let tail = length_prefix(len / 128);
        let prefix = length_prefix(len);
        assert(prefix[0] == (len % 128 + 128) as u8);
        assert(forall|i: int| 0 < i < prefix.len() ==> prefix[i] == tail[i - 1]);
        assert(prefix.last() == tail.last());
        assert(tail.len() == 1 ==> tail.last() == (len / 128) as u8);
    }
}

/// What a reader takes off a stream that starts with the frame of a value is the
/// MessagePack encoding of that value.
pub proof fn law_value_reads_back(value: MsgView, rest: Seq<u8>)
    ensures
        read_frame(value_frame(value) + rest) == Some((msgpack(value), rest)),
{
    law_frame_reads_back(msgpack(value), rest);
}

}
