//! Subscriber-side decoding of a three-frame publish/subscribe wire protocol:
//! a topic frame, a payload frame and a fixed-width sequence frame.
//!
//! [`Decoder`] is driven frame by frame by whoever owns the socket; it decides
//! which buffer each frame is received into, when to ask whether more frames
//! are pending, and when a read ends, with a [`Message`] or an [`Error`].
//! [`decode_frames`] runs it over a message already received whole.

mod decoder;
mod dispatch;
mod error;
mod message;
mod multipart;

pub use crate::decoder::{
    capacity, frame_step, head_of, initial, more_step, result_view, Action, ActionModel, Decoder,
    DecoderModel, Stage,
};
pub use crate::dispatch::{fan_in_capacity, Verdict};
pub use crate::error::{Error, ErrorModel};
pub use crate::message::{Message, MessageModel, DATA_MAX_LEN, SEQUENCE_LEN, TOPIC_MAX_LEN};
pub use crate::multipart::{
    decode_frames, decode_message, feed, frames_read, frames_view, lemma_decoded_within_bounds,
    lemma_done_resets, lemma_extra_frames_drained, lemma_feed_decodes,
    lemma_three_frames_round_trip, lemma_topic_alone, lemma_topic_too_long, lemma_two_frames,
};
