//! The near edge of the delivery collaborator: an ordered queue of built
//! payloads awaiting transmission. Batching, retrying and the network
//! itself live outside this crate; callers drain the queue and deliver.

use vstd::prelude::*;
use vstd::string::*;
use crate::error::Error;
use crate::payload::Payload;

verus! {

/// Accepts built payloads for delivery to a collector endpoint, in order.
pub struct Emitter {
    /// Where the payloads are bound.
    pub collector_url: String,
    /// The payloads accepted so far and not yet taken for transmission.
    pub queue: Vec<Payload>,
}

impl Emitter {
    pub fn new(collector_url: &str) -> (r: Emitter)
        ensures
            r.collector_url@ == collector_url@,
            r.queue@ == Seq::<Payload>::empty(),
    {
        Emitter { collector_url: collector_url.to_owned(), queue: Vec::new() }
    }

    /// Enqueues one built payload. The queue keeps arrival order; nothing
    /// already queued is touched.
    pub fn add(&mut self, payload: Payload) -> (r: Result<(), Error>)
        ensures
            r is Ok,
            final(self).queue@ == old(self).queue@.push(payload),
            final(self).collector_url == old(self).collector_url,
    {
        self.queue.push(payload);
        Ok(())
    }

    /// Takes every queued payload out, oldest first, leaving the queue
    /// empty.
    pub fn take_pending(&mut self) -> (r: Vec<Payload>)
        ensures
            r@ == old(self).queue@,
            final(self).queue@ == Seq::<Payload>::empty(),
            final(self).collector_url == old(self).collector_url,
    {
        let mut taken: Vec<Payload> = Vec::new();
        core::mem::swap(&mut taken, &mut self.queue);
        taken
    }
}

} // verus!
