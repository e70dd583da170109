//! The reader of a connection: bytes come in as the stream delivers them, and
//! messages come out one by one.

use crate::message::{message_of, Message};
use crate::wire::{decode_value, wire_parse, DecodeFailure, Decoded};
use vstd::prelude::*;

verus! {

/// What a reader finds at the front of the bytes it holds.
#[derive(Debug, PartialEq)]
pub enum Polled {
    /// A whole message, which has left the reader.
    Message(Message),
    /// No whole value yet: the bytes held end before the value does, and
    /// more are needed.
    Pending,
    /// Decoding failed for good: the decoder refuses the bytes held, which
    /// stay, or the value at the front is no message, and has left the
    /// reader. The connection is to be torn down.
    Malformed,
}

/// The bytes of a stream that have arrived and have not been decoded yet.
pub struct Reader {
    buffer: Vec<u8>,
}

impl Reader {
    /// The bytes that the reader holds, oldest first.
    pub closed spec fn buffered(&self) -> Seq<u8> {
        self.buffer@
    }

    /// A reader that holds nothing.
    pub fn new() -> (r: Self)
        ensures
            r.buffered() == Seq::<u8>::empty(),
    {
        Reader { buffer: Vec::new() }
    }

    /// Takes in bytes that the stream delivered, behind those already held.
    pub fn feed(&mut self, chunk: &[u8])
        ensures
            final(self).buffered() == old(self).buffered() + chunk@,
    {
        self.buffer.extend_from_slice(chunk);
    }

    /// The number of bytes held.
    pub fn buffered_len(&self) -> (n: usize)
        ensures
            n == self.buffered().len(),
    {
        self.buffer.len()
    }

    /// Decodes the value at the front of the bytes held, if it is whole, and
    /// drops its bytes; those behind it stay for the next call. Bytes that
    /// the decoder refuses are reported as malformed at once, whatever
    /// follows them.
    pub fn poll(&mut self) -> (r: Polled)
        ensures
            match wire_parse(old(self).buffered()) {
                Decoded::Incomplete => r == Polled::Pending && final(self).buffered() == old(
                    self,
                ).buffered(),
                Decoded::Refused => r == Polled::Malformed && final(self).buffered() == old(
                    self,
                ).buffered(),
                Decoded::Value { value, taken } => {
                    &&& taken <= old(self).buffered().len()
                    &&& final(self).buffered() == old(self).buffered().subrange(
                        taken as int,
                        old(self).buffered().len() as int,
                    )
                    &&& match message_of(value) {
                        None => r == Polled::Malformed,
                        Some(m) => r is Message && r->Message_0@ == m,
                    }
                },
            },
    {
        match decode_value(self.buffer.as_slice()) {
            Err(DecodeFailure::Incomplete) => Polled::Pending,
            Err(DecodeFailure::Refused) => Polled::Malformed,
            Ok((value, taken)) => {
                let rest = self.buffer.split_off(taken);
                self.buffer = rest;
                match Message::from_value(value) {
                    Ok(message) => Polled::Message(message),
                    Err(_) => Polled::Malformed,
                }
            },
        }
    }
}

} // verus!
