//! The bounded live audio queue: when full, the newest frame replaces the oldest.
use std::collections::VecDeque;
use std::time::Instant;
use vstd::prelude::*;

verus! {

/// `std::time::Instant`, carried through unopened.
#[verifier::external_type_specification]
#[verifier::external_body]
pub struct ExInstant(Instant);

/// One chunk of PCM bytes produced for a session.
pub struct AudioFrame {
    pub session_id: u64,
    pub data: Vec<u8>,
    pub enqueued_at: Instant,
}

/// A FIFO of audio frames that never holds more than `capacity` frames.
pub struct AudioFrameQueue {
    frames: VecDeque<AudioFrame>,
    capacity: usize,
}

impl View for AudioFrameQueue {
    type V = Seq<AudioFrame>;

    closed spec fn view(&self) -> Seq<AudioFrame> {
        self.frames@
    }
}

impl AudioFrameQueue {
    #[verifier::type_invariant]
    spec fn bounded(self) -> bool {
        &&& 1 <= self.capacity
        &&& self.frames@.len() <= self.capacity
    }

    /// The most frames the queue holds at once.
    pub closed spec fn spec_capacity(self) -> nat {
        self.capacity as nat
    }

    /// The queue is never empty of room: a capacity below one is raised to one.
    pub fn new(capacity: usize) -> (q: Self)
        ensures
            q@ == Seq::<AudioFrame>::empty(),
            q.spec_capacity() == if capacity == 0 { 1 } else { capacity as nat },
    {
        let capacity = if capacity == 0 { 1 } else { capacity };
        AudioFrameQueue { frames: VecDeque::with_capacity(capacity), capacity }
    }

    pub fn capacity(&self) -> (c: usize)
        ensures
            c as nat == self.spec_capacity(),
            c >= 1,
    {
        proof {
            use_type_invariant(self);
        }
        self.capacity
    }

    pub fn len(&self) -> (n: usize)
        ensures
            n as nat == self@.len(),
            n as nat <= self.spec_capacity(),
    {
        proof {
            use_type_invariant(self);
        }
        self.frames.len()
    }

    /// Appends `frame`; when the queue is full the oldest frame is dropped first.
    /// Returns whether a frame was dropped.
    pub fn send_latest(&mut self, frame: AudioFrame) -> (replaced_oldest: bool)
        ensures
            replaced_oldest == (old(self)@.len() == old(self).spec_capacity()),
            final(self).spec_capacity() == old(self).spec_capacity(),
            final(self)@ == if replaced_oldest {
                old(self)@.drop_first().push(frame)
            } else {
                old(self)@.push(frame)
            },
            final(self)@.len() <= final(self).spec_capacity(),
    {
        proof {
            use_type_invariant(&*self);
        }
        let mut frames = VecDeque::new();
        std::mem::swap(&mut frames, &mut self.frames);
        let replaced_oldest = frames.len() == self.capacity;
        if replaced_oldest {
            let _ = frames.pop_front();
        }
        frames.push_back(frame);
        self.frames = frames;
        replaced_oldest
    }

    /// Takes the oldest frame, if any.
    pub fn try_recv(&mut self) -> (frame: Option<AudioFrame>)
        ensures
            final(self).spec_capacity() == old(self).spec_capacity(),
            match frame {
                Some(f) => old(self)@.len() > 0 && f == old(self)@[0] && final(self)@
                    == old(self)@.drop_first(),
                None => old(self)@.len() == 0 && final(self)@ == old(self)@,
            },
    {
        proof {
            use_type_invariant(&*self);
        }
        let mut frames = VecDeque::new();
        std::mem::swap(&mut frames, &mut self.frames);
        let frame = frames.pop_front();
        self.frames = frames;
        frame
    }

    /// Discards every queued frame and returns how many there were.
    pub fn drain(&mut self) -> (drained: usize)
        ensures
            drained as nat == old(self)@.len(),
            final(self)@ == Seq::<AudioFrame>::empty(),
            final(self).spec_capacity() == old(self).spec_capacity(),
    {
        proof {
            use_type_invariant(&*self);
        }
        let drained = self.frames.len();
        self.frames = VecDeque::new();
        drained
    }
}

} // verus!
