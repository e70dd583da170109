//! The writer of a connection: the one place where messages become bytes, in
//! the order in which they were submitted.

use crate::message::{frame_of, Message, MessageModel};
use crate::wire::wire_image;
use vstd::prelude::*;

verus! {

/// The bytes that a sequence of messages makes on the wire: the encoding of
/// each, one after the other, with nothing between them.
pub open spec fn stream_of(messages: Seq<MessageModel>) -> Seq<u8>
    decreases messages.len(),
{
    if messages.len() == 0 {
        Seq::<u8>::empty()
    } else {
        stream_of(messages.drop_last()) + wire_image(frame_of(messages.last()))
    }
}

/// The models of a queue of messages.
pub open spec fn queue_models(queue: Seq<Message>) -> Seq<MessageModel> {
    Seq::new(queue.len(), |i: int| queue[i]@)
}

/// A message submitted after others is written after them: its bytes follow
/// the bytes of everything submitted before it.
pub proof fn lemma_stream_appends(earlier: Seq<MessageModel>, m: MessageModel)
    ensures
        stream_of(earlier.push(m)) == stream_of(earlier) + wire_image(frame_of(m)),
{
    assert(earlier.push(m).drop_last() =~= earlier);
}

/// Of two messages submitted in order, the bytes of the first come before the
/// bytes of the second, and nothing comes between them.
pub proof fn lemma_writer_fifo(earlier: Seq<MessageModel>, m1: MessageModel, m2: MessageModel)
    ensures
        stream_of(earlier.push(m1).push(m2)) == stream_of(earlier) + wire_image(frame_of(m1))
            + wire_image(frame_of(m2)),
{
    lemma_stream_appends(earlier, m1);
    lemma_stream_appends(earlier.push(m1), m2);
}

/// The intake queue of a connection's writer.
pub struct Writer {
    queue: Vec<Message>,
}

impl Writer {
    /// The messages submitted and not yet written, oldest first.
    pub closed spec fn queued(&self) -> Seq<Message> {
        self.queue@
    }

    /// A writer with nothing to write.
    pub fn new() -> (w: Self)
        ensures
            w.queued() == Seq::<Message>::empty(),
    {
        Writer { queue: Vec::new() }
    }

    /// Puts `message` at the end of the queue.
    pub fn submit(&mut self, message: Message)
        ensures
            final(self).queued() == old(self).queued().push(message),
    {
        self.queue.push(message);
    }

    /// The number of messages that wait to be written.
    pub fn backlog(&self) -> (n: usize)
        ensures
            n == self.queued().len(),
    {
        self.queue.len()
    }

    /// Empties the queue and returns the bytes to write to the stream: the
    /// encoding of each message, in the order of submission.
    pub fn flush(&mut self) -> (bytes: Vec<u8>)
        ensures
            bytes@ == stream_of(queue_models(old(self).queued())),
            final(self).queued() == Seq::<Message>::empty(),
    {
        let mut bytes: Vec<u8> = Vec::new();
        let mut i: usize = 0;
        let ghost models = queue_models(self.queue@);
        assert(models.take(0) =~= Seq::<MessageModel>::empty());
        while i < self.queue.len()
            invariant
                self.queue == old(self).queue,
                models == queue_models(self.queue@),
                i <= self.queue.len(),
                bytes@ == stream_of(models.take(i as int)),
            decreases self.queue.len() - i,
        {
            let mut packed = self.queue[i].pack();
            proof {
                assert(models.take(i + 1) =~= models.take(i as int).push(models[i as int]));
                lemma_stream_appends(models.take(i as int), models[i as int]);
            }
            bytes.append(&mut packed);
            i += 1;
        }
        assert(models.take(i as int) =~= models);
        self.queue.clear();
        bytes
    }
}

} // verus!
