//! The batching scheduler: messages accepted for store-and-forward wait in a
//! batch, and each timer tick moves the whole batch into the relay store.

use vstd::prelude::*;
use crate::message::EncryptedMessage;
use crate::relay::{pending, stored, MessageStore, Queues};

verus! {

/// The queues after the messages of `batch` were stored, first to last, each
/// for the recipient that it names.
pub open spec fn flushed(queues: Queues, batch: Seq<EncryptedMessage>) -> Queues
    decreases batch.len(),
{
    if batch.len() == 0 {
        queues
    } else {
        flushed(stored(queues, batch.first().target_device_id@, batch.first()), batch.skip(1))
    }
}

/// The messages of `batch` that are bound for `id`, in their order.
pub open spec fn bound_for(batch: Seq<EncryptedMessage>, id: Seq<char>) -> Seq<EncryptedMessage>
    decreases batch.len(),
{
    if batch.len() == 0 {
        Seq::empty()
    } else if batch.first().target_device_id@ == id {
        seq![batch.first()] + bound_for(batch.skip(1), id)
    } else {
        bound_for(batch.skip(1), id)
    }
}

/// A flush appends to each recipient's queue the messages of the batch that
/// are bound for it, in the order in which they entered the batch.
pub proof fn lemma_flush_is_fifo(queues: Queues, batch: Seq<EncryptedMessage>, id: Seq<char>)
    ensures
        pending(flushed(queues, batch), id) == pending(queues, id) + bound_for(batch, id),
    decreases batch.len(),
{
    if batch.len() == 0 {
        assert(pending(queues, id) + bound_for(batch, id) =~= pending(queues, id));
    } else {
        let first = batch.first();
        let next = stored(queues, first.target_device_id@, first);
        lemma_flush_is_fifo(next, batch.skip(1), id);
        if first.target_device_id@ == id {
            assert(pending(next, id) + bound_for(batch.skip(1), id) =~= pending(queues, id) + bound_for(
                batch,
                id,
            ));
        }
    }
}

/// What the scheduler is woken by.
pub enum BatchEvent {
    /// The timer's interval has passed.
    Tick,
    /// A message has arrived on the delivery queue.
    Arrived(EncryptedMessage),
}

/// The messages accepted since the last tick, oldest first.
pub struct MessageBatch {
    pub messages: Vec<EncryptedMessage>,
}

impl MessageBatch {
    /// An empty batch.
    pub fn new() -> (batch: MessageBatch)
        ensures
            batch.messages@ == Seq::<EncryptedMessage>::empty(),
    {
        MessageBatch { messages: Vec::new() }
    }

    /// Adds a message at the end of the batch.
    pub fn push(&mut self, message: EncryptedMessage)
        ensures
            final(self).messages@ == old(self).messages@.push(message),
    {
        self.messages.push(message);
    }

    /// Moves every message of the batch into the store, oldest first, each
    /// into the queue of the recipient that it names, and leaves the batch
    /// empty. Returns how many messages were moved.
    pub fn flush(&mut self, store: &mut MessageStore) -> (moved: usize)
        ensures
            final(store)@ == flushed(old(store)@, old(self).messages@),
            final(self).messages@ == Seq::<EncryptedMessage>::empty(),
            moved == old(self).messages@.len(),
    {
        let moved: usize = self.messages.len();
        while self.messages.len() > 0
            invariant
                    flushed(store@, self.messages@) == flushed(old(store)@, old(self).messages@),
            decreases self.messages@.len(),
        {
            let ghost before = self.messages@;
            let message = self.messages.remove(0);
            assert(self.messages@ =~= before.skip(1));
            let recipient = message.target_device_id.clone();
            let _ = store.store_message(recipient.as_str(), message, true);
        }
        assert(self.messages@ =~= Seq::<EncryptedMessage>::empty());
        moved
    }

    /// One step of the scheduler: an arriving message joins the batch, and a
    /// tick flushes the batch into the store.
    pub fn on_event(&mut self, store: &mut MessageStore, event: BatchEvent)
        ensures
            match event {
                BatchEvent::Tick => {
                    &&& final(store)@ == flushed(old(store)@, old(self).messages@)
                    &&& final(self).messages@ == Seq::<EncryptedMessage>::empty()
                },
                BatchEvent::Arrived(message) => {
                    &&& final(store)@ == old(store)@
                    &&& final(self).messages@ == old(self).messages@.push(message)
                },
            },
    {
        match event {
            BatchEvent::Tick => {
                let _ = self.flush(store);
            },
            BatchEvent::Arrived(message) => {
                self.push(message);
            },
        }
    }
}

} // verus!
