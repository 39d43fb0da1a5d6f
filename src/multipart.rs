use vstd::prelude::*;

use crate::decoder::{
    capacity, frame_step, head_of, initial, more_step, result_view, Action, ActionModel, Decoder,
    DecoderModel, Stage,
};
use crate::error::{Error, ErrorModel};
use crate::message::{Message, MessageModel, DATA_MAX_LEN, SEQUENCE_LEN, TOPIC_MAX_LEN};

verus! {

/// The result of reading the multipart message `frames` off a socket, as the
/// wire protocol defines it: a topic, a payload and a sequence frame, each
/// within its bounds, and nothing more.
pub open spec fn decode_message(frames: Seq<Seq<u8>>) -> Result<MessageModel, ErrorModel> {
    if frames.len() == 0 {
        Err(ErrorModel::InvalidMultipartLength(0))
    } else if frames[0].len() > TOPIC_MAX_LEN {
        Err(ErrorModel::InvalidTopic(frames[0].len(), frames[0].take(TOPIC_MAX_LEN as int)))
    } else if frames.len() == 1 {
        Err(ErrorModel::InvalidMultipartLength(1))
    } else if frames[1].len() > DATA_MAX_LEN {
        Err(ErrorModel::InvalidDataLength(frames[1].len()))
    } else if frames.len() == 2 {
        Err(ErrorModel::InvalidMultipartLength(2))
    } else if frames[2].len() != SEQUENCE_LEN {
        Err(ErrorModel::InvalidSequenceLength(frames[2].len()))
    } else if frames.len() == 3 {
        Ok(MessageModel { topic: frames[0], data: frames[1], sequence: frames[2] })
    } else {
        Err(ErrorModel::InvalidMultipartLength(frames.len()))
    }
}

/// How many frames of the multipart message `frames` that read takes off the
/// socket: it stops at the first frame found out of bounds, and otherwise
/// takes them all.
pub open spec fn frames_read(frames: Seq<Seq<u8>>) -> nat {
    if frames.len() == 0 {
        0
    } else if frames[0].len() > TOPIC_MAX_LEN || frames.len() == 1 {
        1
    } else if frames[1].len() > DATA_MAX_LEN || frames.len() == 2 {
        2
    } else if frames[2].len() != SEQUENCE_LEN || frames.len() == 3 {
        3
    } else {
        frames.len()
    }
}

/// Runs a decoder in state `s`, which waits for a frame, over `frames[i..]`,
/// the rest of a multipart message: each frame is received into the buffer
/// the decoder asks for, and "more frames" holds of all but the last. Gives
/// the result and the index past the last frame received.
pub open spec fn feed(s: DecoderModel, frames: Seq<Seq<u8>>, i: nat) -> (Result<
    MessageModel,
    ErrorModel,
>, nat)
    decreases frames.len() - i,
{
    if i >= frames.len() {
        (Err(ErrorModel::InvalidMultipartLength(0)), i)
    } else {
        let f = frames[i as int];
        let (s1, a1) = frame_step(s, head_of(f, capacity(s.stage)), f.len());
        match a1 {
            ActionModel::Done(r) => (r, i + 1),
            _ => {
                let (s2, a2) = more_step(s1, i + 1 < frames.len());
                match a2 {
                    ActionModel::Done(r) => (r, i + 1),
                    _ => feed(s2, frames, i + 1),
                }
            },
        }
    }
}

/// The frames of `frames` as byte sequences.
pub open spec fn frames_view(frames: Seq<Vec<u8>>) -> Seq<Seq<u8>> {
    frames.map_values(|f: Vec<u8>| f@)
}

proof fn lemma_drain(s: DecoderModel, frames: Seq<Seq<u8>>, i: nat)
    requires
        s.stage == Stage::Drain,
        !s.awaiting_more,
        3 <= i < frames.len(),
        s.count + (frames.len() - i) <= usize::MAX,
    ensures
        feed(s, frames, i) == (
            Err::<MessageModel, ErrorModel>(ErrorModel::InvalidMultipartLength(
                (s.count + (frames.len() - i)) as nat,
            )),
            frames.len(),
        ),
    decreases frames.len() - i,
{
    let f = frames[i as int];
    let (s1, a1) = frame_step(s, head_of(f, capacity(s.stage)), f.len());
    let (s2, a2) = more_step(s1, i + 1 < frames.len());
    if i + 1 < frames.len() {
        lemma_drain(s2, frames, i + 1);
    }
}

/// Driving a decoder from its initial state over a multipart message gives
/// exactly the result that the wire protocol defines for it, after taking
/// exactly `frames_read(frames)` frames off the socket.
pub proof fn lemma_feed_decodes(frames: Seq<Seq<u8>>)
    requires
        frames.len() <= usize::MAX,
    ensures
        feed(initial(), frames, 0) == (decode_message(frames), frames_read(frames)),
{
    if frames.len() > 3 && frames[0].len() <= TOPIC_MAX_LEN && frames[1].len() <= DATA_MAX_LEN
        && frames[2].len() == SEQUENCE_LEN {
        let s0 = initial();
        let (s1, _) = frame_step(s0, frames[0], frames[0].len());
        let (s2, _) = more_step(s1, true);
        let (s3, _) = frame_step(s2, frames[1], frames[1].len());
        let (s4, _) = more_step(s3, true);
        let (s5, _) = frame_step(s4, frames[2], frames[2].len());
        let (s6, _) = more_step(s5, true);
        assert(feed(s0, frames, 0) == feed(s2, frames, 1));
        assert(feed(s2, frames, 1) == feed(s4, frames, 2));
        assert(feed(s4, frames, 2) == feed(s6, frames, 3));
        lemma_drain(s6, frames, 3);
    } else {
        reveal_with_fuel(feed, 4);
    }
}

/// A successfully decoded message always has its topic, payload and sequence
/// within their bounds.
pub proof fn lemma_decoded_within_bounds(frames: Seq<Seq<u8>>)
    ensures
        decode_message(frames) matches Ok(m) ==> m.wf(),
{
}

/// Three frames within their bounds decode to the message made of them, and
/// the read takes all three.
pub proof fn lemma_three_frames_round_trip(topic: Seq<u8>, data: Seq<u8>, sequence: Seq<u8>)
    requires
        topic.len() <= TOPIC_MAX_LEN,
        data.len() <= DATA_MAX_LEN,
        sequence.len() == SEQUENCE_LEN,
    ensures
        decode_message(seq![topic, data, sequence]) == Ok::<MessageModel, ErrorModel>(
            MessageModel { topic, data, sequence },
        ),
        frames_read(seq![topic, data, sequence]) == 3,
{
}

/// A topic frame that no further frame follows is reported as a message of
/// one frame.
pub proof fn lemma_topic_alone(topic: Seq<u8>)
    requires
        topic.len() <= TOPIC_MAX_LEN,
    ensures
        decode_message(seq![topic]) == Err::<MessageModel, ErrorModel>(
            ErrorModel::InvalidMultipartLength(1),
        ),
        frames_read(seq![topic]) == 1,
{
}

/// A topic and a payload frame with nothing after them are reported as a
/// message of two frames.
pub proof fn lemma_two_frames(topic: Seq<u8>, data: Seq<u8>)
    requires
        topic.len() <= TOPIC_MAX_LEN,
        data.len() <= DATA_MAX_LEN,
    ensures
        decode_message(seq![topic, data]) == Err::<MessageModel, ErrorModel>(
            ErrorModel::InvalidMultipartLength(2),
        ),
        frames_read(seq![topic, data]) == 2,
{
}

/// A message of four frames or more whose first three are within bounds is
/// reported with its frame count, and the read takes every one of its frames,
/// so none is left pending for the next read.
pub proof fn lemma_extra_frames_drained(frames: Seq<Seq<u8>>)
    requires
        frames.len() >= 4,
        frames[0].len() <= TOPIC_MAX_LEN,
        frames[1].len() <= DATA_MAX_LEN,
        frames[2].len() == SEQUENCE_LEN,
    ensures
        decode_message(frames) == Err::<MessageModel, ErrorModel>(
            ErrorModel::InvalidMultipartLength(frames.len()),
        ),
        frames_read(frames) == frames.len(),
{
}

/// A topic frame one byte too long is reported with its length and the bytes
/// that fitted into the topic buffer, whatever follows it.
pub proof fn lemma_topic_too_long(frames: Seq<Seq<u8>>)
    requires
        frames.len() >= 1,
        frames[0].len() == TOPIC_MAX_LEN + 1,
    ensures
        decode_message(frames) == Err::<MessageModel, ErrorModel>(
            ErrorModel::InvalidTopic(
                (TOPIC_MAX_LEN + 1) as nat,
                frames[0].take(TOPIC_MAX_LEN as int),
            ),
        ),
        frames_read(frames) == 1,
{
}

/// Whenever a read ends, on a message or on an error, the decoder is back in
/// its initial state, so the next read starts with a topic frame and nothing
/// of the previous message.
pub proof fn lemma_done_resets(s: DecoderModel, head: Seq<u8>, len: nat, more: bool)
    ensures
        frame_step(s, head, len).1 is Done ==> frame_step(s, head, len).0 == initial(),
        more_step(s, more).1 is Done ==> more_step(s, more).0 == initial(),
{
}

/// The first `n` bytes of `src`.
fn copy_prefix(src: &[u8], n: usize) -> (r: Vec<u8>)
    requires
        n <= src@.len(),
    ensures
        r@ == src@.take(n as int),
{
    let mut r: Vec<u8> = Vec::with_capacity(n);
    let mut i: usize = 0;
    while i < n
        invariant
            i <= n <= src@.len(),
            r@ == src@.take(i as int),
        decreases n - i,
    {
        r.push(src[i]);
        i = i + 1;
        proof {
            assert(r@ =~= src@.take(i as int));
        }
    }
    r
}

/// Decodes a multipart message that has already been received whole, frame
/// by frame as from a socket. Returns the result and how many frames the read
/// took; frames after those are left for the next read.
pub fn decode_frames(frames: &Vec<Vec<u8>>) -> (r: (Result<Message, Error>, usize))
    ensures
        result_view(r.0) == decode_message(frames_view(frames@)),
        r.1 == frames_read(frames_view(frames@)),
        r.0 matches Ok(m) ==> m@.wf(),
{
    let ghost fs = frames_view(frames@);
    let total = frames.len();
    proof {
        assert(fs.len() == frames@.len());
        lemma_feed_decodes(fs);
    }
    let mut dec = Decoder::new();
    let mut i: usize = 0;
    loop
        invariant
            i == 0 || i < frames@.len(),
            fs == frames_view(frames@),
            dec@.wf(),
            !dec@.awaiting_more,
            feed(dec@, fs, i as nat) == (decode_message(fs), frames_read(fs)),
        decreases frames@.len() - i,
    {
        if i >= frames.len() {
            return (Err(Error::InvalidMultipartLength(0)), 0);
        }
        let frame = &frames[i];
        let cap = dec.capacity();
        let n = if frame.len() <= cap {
            frame.len()
        } else {
            cap
        };
        let head = copy_prefix(frame.as_slice(), n);
        proof {
            assert(fs[i as int] == frame@);
            assert(head@ == head_of(fs[i as int], capacity(dec@.stage)));
        }
        match dec.on_frame(head.as_slice(), frame.len()) {
            Action::Done(r) => {
                return (r, i + 1);
            },
            _ => {},
        }
        match dec.on_more(i + 1 < frames.len()) {
            Action::Done(r) => {
                return (r, i + 1);
            },
            _ => {},
        }
        i = i + 1;
    }
}

} // verus!
