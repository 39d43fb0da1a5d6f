use vstd::prelude::*;

verus! {

/// The largest topic frame accepted, in bytes.
pub const TOPIC_MAX_LEN: usize = 9;

/// The largest payload frame accepted, in bytes.
pub const DATA_MAX_LEN: usize = 4_000_000;

/// The exact length of the sequence frame, in bytes.
pub const SEQUENCE_LEN: usize = 4;

/// One decoded three-frame message: topic, payload and sequence marker.
#[derive(Debug)]
pub struct Message {
    topic: Vec<u8>,
    data: Vec<u8>,
    sequence: [u8; SEQUENCE_LEN],
}

/// The mathematical content of a [`Message`].
pub struct MessageModel {
    pub topic: Seq<u8>,
    pub data: Seq<u8>,
    pub sequence: Seq<u8>,
}

impl MessageModel {
    /// Every frame is within its bounds.
    pub open spec fn wf(self) -> bool {
        &&& self.topic.len() <= TOPIC_MAX_LEN
        &&& self.data.len() <= DATA_MAX_LEN
        &&& self.sequence.len() == SEQUENCE_LEN
    }
}

/// An owned copy of `src`.
pub(crate) fn copy_bytes(src: &[u8]) -> (r: Vec<u8>)
    ensures
        r@ == src@,
{
    let mut r: Vec<u8> = Vec::with_capacity(src.len());
    let mut i: usize = 0;
    while i < src.len()
        invariant
            i <= src@.len(),
            r@ == src@.take(i as int),
        decreases src@.len() - i,
    {
        r.push(src[i]);
        i = i + 1;
        proof {
            assert(r@ =~= src@.take(i as int));
        }
    }
    proof {
        assert(r@ =~= src@);
    }
    r
}

impl View for Message {
    type V = MessageModel;

    closed spec fn view(&self) -> MessageModel {
        MessageModel { topic: self.topic@, data: self.data@, sequence: self.sequence@ }
    }
}

impl Message {
    #[verifier::type_invariant]
    spec fn inv(self) -> bool {
        self@.wf()
    }

    /// Builds a message from its three frames, which must be within bounds.
    pub fn from_parts(topic: &[u8], data: &[u8], sequence: [u8; SEQUENCE_LEN]) -> (r: Message)
        requires
            topic@.len() <= TOPIC_MAX_LEN,
            data@.len() <= DATA_MAX_LEN,
        ensures
            r@ == (MessageModel { topic: topic@, data: data@, sequence: sequence@ }),
    {
        let m = Message { topic: copy_bytes(topic), data: copy_bytes(data), sequence };
        proof {
            assert(m.sequence@.len() == SEQUENCE_LEN);
        }
        m
    }

    /// The topic frame.
    pub fn topic(&self) -> (r: &[u8])
        ensures
            r@ == self@.topic,
            r@.len() <= TOPIC_MAX_LEN,
    {
        proof {
            use_type_invariant(self);
        }
        self.topic.as_slice()
    }

    /// The payload frame.
    pub fn data(&self) -> (r: &[u8])
        ensures
            r@ == self@.data,
            r@.len() <= DATA_MAX_LEN,
    {
        proof {
            use_type_invariant(self);
        }
        self.data.as_slice()
    }

    /// The sequence frame.
    pub fn sequence(&self) -> (r: [u8; SEQUENCE_LEN])
        ensures
            r@ == self@.sequence,
    {
        self.sequence
    }
}

} // verus!
