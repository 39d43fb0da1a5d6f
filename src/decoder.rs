use vstd::prelude::*;

use crate::error::{Error, ErrorModel};
use crate::message::{Message, MessageModel, DATA_MAX_LEN, SEQUENCE_LEN, TOPIC_MAX_LEN};

verus! {

/// Which frame of a multipart message the decoder is at.
#[derive(PartialEq, Eq, Structural, Clone, Copy, Debug)]
pub enum Stage {
    /// The first frame, the topic.
    Topic,
    /// The second frame, the payload.
    Data,
    /// The third frame, the sequence marker.
    Sequence,
    /// Frames past the third, read only to be thrown away.
    Drain,
}

/// What the caller must do next on the socket.
#[derive(Debug)]
pub enum Action {
    /// Receive the next frame into a buffer of this many bytes, then call
    /// [`Decoder::on_frame`].
    Receive(usize),
    /// Ask the socket whether more frames of this message are pending, then
    /// call [`Decoder::on_more`].
    QueryMore,
    /// The read is over, with this result; the decoder is ready for the next one.
    Done(Result<Message, Error>),
}

/// The mathematical content of an [`Action`].
pub enum ActionModel {
    Receive(nat),
    QueryMore,
    Done(Result<MessageModel, ErrorModel>),
}

impl View for Action {
    type V = ActionModel;

    open spec fn view(&self) -> ActionModel {
        match self {
            Action::Receive(n) => ActionModel::Receive(*n as nat),
            Action::QueryMore => ActionModel::QueryMore,
            Action::Done(r) => ActionModel::Done(result_view(*r)),
        }
    }
}

/// The mathematical content of the result of a read.
pub open spec fn result_view(r: Result<Message, Error>) -> Result<MessageModel, ErrorModel> {
    match r {
        Ok(m) => Ok(m@),
        Err(e) => Err(e@),
    }
}

/// The abstract state of a [`Decoder`].
pub struct DecoderModel {
    pub stage: Stage,
    /// A frame of `stage` was received and the "more frames" flag is awaited.
    pub awaiting_more: bool,
    pub topic: Seq<u8>,
    pub data: Seq<u8>,
    pub sequence: Seq<u8>,
    /// Frames seen so far, counted while draining.
    pub count: nat,
}

impl DecoderModel {
    pub open spec fn wf(self) -> bool {
        &&& self.topic.len() <= TOPIC_MAX_LEN
        &&& self.data.len() <= DATA_MAX_LEN
        &&& self.sequence.len() == SEQUENCE_LEN
        &&& self.count <= usize::MAX
    }
}

/// The size of the buffer that a frame of `stage` is received into.
pub open spec fn capacity(stage: Stage) -> nat {
    match stage {
        Stage::Topic => TOPIC_MAX_LEN as nat,
        Stage::Data => DATA_MAX_LEN as nat,
        Stage::Sequence => SEQUENCE_LEN as nat,
        Stage::Drain => 0,
    }
}

/// The bytes of a frame that fit into a buffer of `cap` bytes.
pub open spec fn head_of(frame: Seq<u8>, cap: nat) -> Seq<u8> {
    if frame.len() <= cap {
        frame
    } else {
        frame.take(cap as int)
    }
}

/// The state before the first frame of a message.
pub open spec fn initial() -> DecoderModel {
    DecoderModel {
        stage: Stage::Topic,
        awaiting_more: false,
        topic: Seq::empty(),
        data: Seq::empty(),
        sequence: Seq::new(SEQUENCE_LEN as nat, |i: int| 0u8),
        count: 0,
    }
}

/// Ends the read with `r` and starts over.
pub open spec fn finish(r: Result<MessageModel, ErrorModel>) -> (DecoderModel, ActionModel) {
    (initial(), ActionModel::Done(r))
}

/// The transition on receiving a frame of length `len`, of which `head` fitted
/// into the buffer.
pub open spec fn frame_step(s: DecoderModel, head: Seq<u8>, len: nat) -> (DecoderModel, ActionModel) {
    let waiting = DecoderModel { awaiting_more: true, ..s };
    match s.stage {
        Stage::Topic => if len > TOPIC_MAX_LEN {
            finish(Err(ErrorModel::InvalidTopic(len, head)))
        } else {
            (DecoderModel { topic: head, ..waiting }, ActionModel::QueryMore)
        },
        Stage::Data => if len > DATA_MAX_LEN {
            finish(Err(ErrorModel::InvalidDataLength(len)))
        } else {
            (DecoderModel { data: head, ..waiting }, ActionModel::QueryMore)
        },
        Stage::Sequence => if len != SEQUENCE_LEN {
            finish(Err(ErrorModel::InvalidSequenceLength(len)))
        } else {
            (DecoderModel { sequence: head, ..waiting }, ActionModel::QueryMore)
        },
        Stage::Drain => {
            let count = if s.count < usize::MAX { s.count + 1 } else { s.count };
            (DecoderModel { count, ..waiting }, ActionModel::QueryMore)
        },
    }
}

/// The transition on learning whether more frames are pending.
pub open spec fn more_step(s: DecoderModel, more: bool) -> (DecoderModel, ActionModel) {
    let next = |stage: Stage, count: nat|
        (
            DecoderModel { stage, awaiting_more: false, count, ..s },
            ActionModel::Receive(capacity(stage)),
        );
    match s.stage {
        Stage::Topic => if more {
            next(Stage::Data, s.count)
        } else {
            finish(Err(ErrorModel::InvalidMultipartLength(1)))
        },
        Stage::Data => if more {
            next(Stage::Sequence, s.count)
        } else {
            finish(Err(ErrorModel::InvalidMultipartLength(2)))
        },
        Stage::Sequence => if more {
            next(Stage::Drain, 3)
        } else {
            finish(Ok(MessageModel { topic: s.topic, data: s.data, sequence: s.sequence }))
        },
        Stage::Drain => if more {
            next(Stage::Drain, s.count)
        } else {
            finish(Err(ErrorModel::InvalidMultipartLength(s.count)))
        },
    }
}

/// Decodes one multipart message, frame by frame, as the socket delivers it.
///
/// The decoder never reads ahead: after each frame it either ends the read
/// or asks for the next step, so a bad frame is reported before any further
/// blocking receive. Frames past the third are received into an empty buffer
/// until none is pending, so that the next read starts at a message boundary.
pub struct Decoder {
    stage: Stage,
    awaiting_more: bool,
    topic: Vec<u8>,
    data: Vec<u8>,
    sequence: [u8; SEQUENCE_LEN],
    count: usize,
}

impl View for Decoder {
    type V = DecoderModel;

    closed spec fn view(&self) -> DecoderModel {
        DecoderModel {
            stage: self.stage,
            awaiting_more: self.awaiting_more,
            topic: self.topic@,
            data: self.data@,
            sequence: self.sequence@,
            count: self.count as nat,
        }
    }
}

/// Replaces the contents of `dst` with those of `src`, keeping its allocation.
fn refill(dst: &mut Vec<u8>, src: &[u8])
    ensures
        final(dst)@ == src@,
{
    dst.clear();
    let mut i: usize = 0;
    while i < src.len()
        invariant
            i <= src@.len(),
            dst@ == src@.take(i as int),
        decreases src@.len() - i,
    {
        dst.push(src[i]);
        i = i + 1;
        proof {
            assert(dst@ =~= src@.take(i as int));
        }
    }
    proof {
        assert(dst@ =~= src@);
    }
}

/// The topic buffer holding `head`, which fills it exactly.
fn topic_buffer(head: &[u8]) -> (r: [u8; TOPIC_MAX_LEN])
    requires
        head@.len() == TOPIC_MAX_LEN,
    ensures
        r@ == head@,
{
    let mut buf = [0u8; TOPIC_MAX_LEN];
    let mut i: usize = 0;
    while i < TOPIC_MAX_LEN
        invariant
            i <= TOPIC_MAX_LEN,
            head@.len() == TOPIC_MAX_LEN,
            buf@.len() == TOPIC_MAX_LEN,
            forall|j: int| 0 <= j < i ==> buf@[j] == head@[j],
        decreases TOPIC_MAX_LEN - i,
    {
        buf[i] = head[i];
        i = i + 1;
    }
    proof {
        assert(buf@ =~= head@);
    }
    buf
}

/// The sequence buffer holding `head`, which fills it exactly.
fn sequence_buffer(head: &[u8]) -> (r: [u8; SEQUENCE_LEN])
    requires
        head@.len() == SEQUENCE_LEN,
    ensures
        r@ == head@,
{
    let mut buf = [0u8; SEQUENCE_LEN];
    let mut i: usize = 0;
    while i < SEQUENCE_LEN
        invariant
            i <= SEQUENCE_LEN,
            head@.len() == SEQUENCE_LEN,
            buf@.len() == SEQUENCE_LEN,
            forall|j: int| 0 <= j < i ==> buf@[j] == head@[j],
        decreases SEQUENCE_LEN - i,
    {
        buf[i] = head[i];
        i = i + 1;
    }
    proof {
        assert(buf@ =~= head@);
    }
    buf
}

impl Decoder {
    /// A decoder waiting for the first frame of a message.
    pub fn new() -> (r: Decoder)
        ensures
            r@ == initial(),
    {
        let r = Decoder {
            stage: Stage::Topic,
            awaiting_more: false,
            topic: Vec::new(),
            data: Vec::new(),
            sequence: [0u8; SEQUENCE_LEN],
            count: 0,
        };
        proof {
            assert(r@.sequence =~= initial().sequence);
        }
        r
    }

    /// What to do first: receive the topic frame.
    pub fn start(&self) -> (r: Action)
        ensures
            r@ == ActionModel::Receive(capacity(Stage::Topic)),
    {
        Action::Receive(TOPIC_MAX_LEN)
    }

    /// Sets the decoder back to its initial state, keeping the payload buffer.
    fn reset(&mut self)
        ensures
            final(self)@ == initial(),
    {
        self.stage = Stage::Topic;
        self.awaiting_more = false;
        self.topic = Vec::new();
        self.data.clear();
        self.sequence = [0u8; SEQUENCE_LEN];
        self.count = 0;
        proof {
            assert(self@.sequence =~= initial().sequence);
            assert(self@.data =~= initial().data);
        }
    }

    /// The size of the buffer that the next frame is to be received into.
    pub fn capacity(&self) -> (r: usize)
        ensures
            r == capacity(self@.stage),
    {
        match self.stage {
            Stage::Topic => TOPIC_MAX_LEN,
            Stage::Data => DATA_MAX_LEN,
            Stage::Sequence => SEQUENCE_LEN,
            Stage::Drain => 0,
        }
    }

    /// Takes in a received frame: `len` is its length, `head` the bytes of it
    /// that fitted into the buffer of [`Action::Receive`].
    pub fn on_frame(&mut self, head: &[u8], len: usize) -> (r: Action)
        requires
            old(self)@.wf(),
            !old(self)@.awaiting_more,
            head@.len() == if len <= capacity(old(self)@.stage) {
                len as nat
            } else {
                capacity(old(self)@.stage)
            },
        ensures
            final(self)@.wf(),
            (final(self)@, r@) == frame_step(old(self)@, head@, len as nat),
    {
        match self.stage {
            Stage::Topic => {
                if len > TOPIC_MAX_LEN {
                    let buf = topic_buffer(head);
                    self.reset();
                    Action::Done(Err(Error::InvalidTopic(len, buf)))
                } else {
                    self.topic = crate::message::copy_bytes(head);
                    self.awaiting_more = true;
                    Action::QueryMore
                }
            },
            Stage::Data => {
                if len > DATA_MAX_LEN {
                    self.reset();
                    Action::Done(Err(Error::InvalidDataLength(len)))
                } else {
                    refill(&mut self.data, head);
                    self.awaiting_more = true;
                    Action::QueryMore
                }
            },
            Stage::Sequence => {
                if len != SEQUENCE_LEN {
                    self.reset();
                    Action::Done(Err(Error::InvalidSequenceLength(len)))
                } else {
                    self.sequence = sequence_buffer(head);
                    self.awaiting_more = true;
                    Action::QueryMore
                }
            },
            Stage::Drain => {
                self.count = self.count.saturating_add(1);
                self.awaiting_more = true;
                Action::QueryMore
            },
        }
    }

    /// Takes in whether more frames of the message are pending.
    pub fn on_more(&mut self, more: bool) -> (r: Action)
        requires
            old(self)@.wf(),
            old(self)@.awaiting_more,
        ensures
            final(self)@.wf(),
            (final(self)@, r@) == more_step(old(self)@, more),
            r matches Action::Done(Ok(m)) ==> m@.wf(),
    {
        match self.stage {
            Stage::Topic => {
                if more {
                    self.stage = Stage::Data;
                    self.awaiting_more = false;
                    Action::Receive(DATA_MAX_LEN)
                } else {
                    self.reset();
                    Action::Done(Err(Error::InvalidMultipartLength(1)))
                }
            },
            Stage::Data => {
                if more {
                    self.stage = Stage::Sequence;
                    self.awaiting_more = false;
                    Action::Receive(SEQUENCE_LEN)
                } else {
                    self.reset();
                    Action::Done(Err(Error::InvalidMultipartLength(2)))
                }
            },
            Stage::Sequence => {
                if more {
                    self.stage = Stage::Drain;
                    self.awaiting_more = false;
                    self.count = 3;
                    Action::Receive(0)
                } else {
                    let m = Message::from_parts(
                        self.topic.as_slice(),
                        self.data.as_slice(),
                        self.sequence,
                    );
                    self.reset();
                    Action::Done(Ok(m))
                }
            },
            Stage::Drain => {
                if more {
                    self.awaiting_more = false;
                    Action::Receive(0)
                } else {
                    let count = self.count;
                    self.reset();
                    Action::Done(Err(Error::InvalidMultipartLength(count)))
                }
            },
        }
    }
}

} // verus!
