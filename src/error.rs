use vstd::prelude::*;

use crate::message::TOPIC_MAX_LEN;
use zmq::Error as ZmqError;

verus! {

/// The transport's error type, carried unchanged inside [`Error::Zmq`].
#[verifier::external_type_specification]
#[verifier::external_body]
pub struct ExZmqError(ZmqError);

/// Why a read of one multipart message failed.
#[derive(Debug, Clone, Copy)]
pub enum Error {
    /// The first frame was longer than `TOPIC_MAX_LEN`; carries its length and
    /// the bytes that fitted into the topic buffer.
    InvalidTopic(usize, [u8; TOPIC_MAX_LEN]),
    /// The second frame was longer than `DATA_MAX_LEN`.
    InvalidDataLength(usize),
    /// The third frame was not exactly `SEQUENCE_LEN` bytes long.
    InvalidSequenceLength(usize),
    /// The message did not consist of exactly three frames; carries the number
    /// of frames observed.
    InvalidMultipartLength(usize),
    /// The transport failed.
    Zmq(ZmqError),
}

/// The mathematical content of an [`Error`].
pub enum ErrorModel {
    InvalidTopic(nat, Seq<u8>),
    InvalidDataLength(nat),
    InvalidSequenceLength(nat),
    InvalidMultipartLength(nat),
    Zmq(ZmqError),
}

impl View for Error {
    type V = ErrorModel;

    open spec fn view(&self) -> ErrorModel {
        match *self {
            Error::InvalidTopic(n, buf) => ErrorModel::InvalidTopic(n as nat, buf@),
            Error::InvalidDataLength(n) => ErrorModel::InvalidDataLength(n as nat),
            Error::InvalidSequenceLength(n) => ErrorModel::InvalidSequenceLength(n as nat),
            Error::InvalidMultipartLength(n) => ErrorModel::InvalidMultipartLength(n as nat),
            Error::Zmq(e) => ErrorModel::Zmq(e),
        }
    }
}

impl From<ZmqError> for Error {
    fn from(e: ZmqError) -> (r: Error)
        ensures
            r == Error::Zmq(e),
    {
        Error::Zmq(e)
    }
}

impl vstd::std_specs::convert::FromSpecImpl<ZmqError> for Error {
    open spec fn obeys_from_spec() -> bool {
        true
    }

    open spec fn from_spec(e: ZmqError) -> Error {
        Error::Zmq(e)
    }
}

} // verus!
