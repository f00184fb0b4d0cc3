//! Lossy frame broadcast: one producer, many independent subscribers.
//!
//! The channel keeps only the newest `capacity` frames. Publishing is total
//! — the producer never blocks and never waits on a subscriber. A subscriber
//! that falls behind loses the oldest frames, counts them, and catches up;
//! the frames it does receive come in exactly publication order.

use vstd::prelude::*;

verus! {

/// Frames a session keeps for its subscribers before the oldest drop out.
pub const FRAME_CHANNEL_CAPACITY: usize = 100;

/// The per-session broadcast channel of raw frame bytes.
pub struct FrameChannel {
    /// The frames still held, oldest first.
    pub buffer: Vec<Vec<u8>>,
    /// Index in the full publication history of `buffer[0]`.
    pub first_kept: u64,
    /// How many frames the buffer may hold.
    pub capacity: usize,
    /// Every frame ever published, in order.
    pub history: Ghost<Seq<Seq<u8>>>,
}

impl FrameChannel {
    /// How many frames were ever published.
    pub open spec fn published(self) -> nat {
        self.history@.len()
    }

    /// The buffer holds exactly the newest published frames.
    pub open spec fn wf(self) -> bool {
        &&& self.capacity >= 1
        &&& self.buffer@.len() == if self.history@.len() < self.capacity {
            self.history@.len() as int
        } else {
            self.capacity as int
        }
        &&& self.history@.len() <= 0xffff_ffff_ffff_ffff
        &&& self.first_kept + self.buffer@.len() == self.history@.len()
        &&& forall|i: int|
            0 <= i < self.buffer@.len() ==> self.buffer@[i]@ == self.history@[self.first_kept + i]
    }

    /// A fresh channel with the given capacity.
    pub fn new(capacity: usize) -> (r: FrameChannel)
        requires
            capacity >= 1,
        ensures
            r.wf(),
            r.capacity == capacity,
            r.published() == 0,
    {
        FrameChannel { buffer: Vec::new(), first_kept: 0, capacity, history: Ghost(Seq::empty()) }
    }

    /// Publishes one frame, evicting the oldest where the buffer is full.
    /// Total: the producer never blocks, whatever the subscribers do.
    pub fn publish(&mut self, frame: Vec<u8>)
        requires
            old(self).wf(),
            old(self).published() < 0xffff_ffff_ffff_ffff,
        ensures
            final(self).wf(),
            final(self).capacity == old(self).capacity,
            final(self).history@ == old(self).history@.push(frame@),
    {
        if self.buffer.len() == self.capacity {
            self.buffer.remove(0);
            self.first_kept = self.first_kept + 1;
        }
        self.buffer.push(frame);
        proof {
            self.history@ = self.history@.push(self.buffer@.last()@);
        }
    }

    /// The channel never holds more than `capacity` frames: everything
    /// older than `published - capacity` is gone for every subscriber.
    pub proof fn lemma_lossy_bound(self)
        requires
            self.wf(),
        ensures
            self.published() - self.first_kept <= self.capacity,
    {
    }
}

/// One subscriber's cursor into a channel's publication history.
pub struct FrameSubscriber {
    /// Index of the next frame to deliver.
    pub cursor: u64,
    /// How many frames this subscriber has lost so far.
    pub lost: u64,
    /// The history indices of every frame delivered, in delivery order.
    pub received: Ghost<Seq<int>>,
}

impl FrameSubscriber {
    /// The cursor trails the channel and the delivery log is consistent:
    /// indices are strictly increasing and below the cursor.
    pub open spec fn wf(self, chan: FrameChannel) -> bool {
        &&& self.cursor <= chan.published()
        &&& self.lost <= self.cursor
        &&& forall|k1: int, k2: int|
            #![trigger self.received@[k1], self.received@[k2]]
            0 <= k1 < k2 < self.received@.len() ==> self.received@[k1] < self.received@[k2]
        &&& forall|k: int|
            0 <= k < self.received@.len() ==> 0 <= #[trigger] self.received@[k] < self.cursor
    }

    /// Subscribes at the current head: only later frames are delivered.
    pub fn subscribe(chan: &FrameChannel) -> (r: FrameSubscriber)
        requires
            chan.wf(),
        ensures
            r.wf(*chan),
            r.cursor == chan.published(),
            r.lost == 0,
            r.received@.len() == 0,
    {
        let mut cursor: u64 = chan.first_kept;
        let extra: usize = chan.buffer.len();
        FrameSubscriber {
            cursor: cursor + extra as u64,
            lost: 0,
            received: Ghost(Seq::empty()),
        }
    }

    /// Receives the next frame, skipping (and counting) whatever the
    /// channel has already evicted. Returns nothing when caught up.
    /// Every delivered frame is the published frame at the delivered index,
    /// and indices only ever move forward.
    pub fn recv(&mut self, chan: &FrameChannel) -> (r: Option<Vec<u8>>)
        requires
            chan.wf(),
            old(self).wf(*chan),
        ensures
            final(self).wf(*chan),
            (r is Some) <==> old(self).cursor < chan.published(),
            r is None ==> *final(self) == *old(self),
            r matches Some(frame) ==> {
                let i = if old(self).cursor < chan.first_kept {
                    chan.first_kept as int
                } else {
                    old(self).cursor as int
                };
                &&& frame@ == chan.history@[i]
                &&& final(self).cursor == i + 1
                &&& final(self).lost == old(self).lost + (i - old(self).cursor)
                &&& final(self).received@ == old(self).received@.push(i)
            },
    {
        let published: u64 = chan.first_kept + chan.buffer.len() as u64;
        if self.cursor >= published {
            return None;
        }
        if self.cursor < chan.first_kept {
            let skipped: u64 = chan.first_kept - self.cursor;
            self.lost = self.lost + skipped;
            self.cursor = chan.first_kept;
        }
        let offset: usize = (self.cursor - chan.first_kept) as usize;
        let frame = crate::codec::copy_byte_range(
            &chan.buffer[offset],
            0,
            chan.buffer[offset].len(),
        );
        proof {
            assert(frame@ =~= chan.buffer@[offset as int]@);
            self.received@ = self.received@.push(self.cursor as int);
        }
        self.cursor = self.cursor + 1;
        Some(frame)
    }
}

/// Order preservation: the frames one subscriber has received correspond to
/// strictly increasing positions of the publication history — they arrived
/// in exactly the order they were published, with omissions only.
pub proof fn lemma_subscriber_order(sub: FrameSubscriber, chan: FrameChannel, k1: int, k2: int)
    requires
        chan.wf(),
        sub.wf(chan),
        0 <= k1 < k2 < sub.received@.len(),
    ensures
        sub.received@[k1] < sub.received@[k2],
        0 <= sub.received@[k1] < chan.published(),
        0 <= sub.received@[k2] < chan.published(),
{
}

} // verus!
