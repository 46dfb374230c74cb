//! Single-sender session bookkeeping: at most one session streams at a time.
use vstd::prelude::*;

verus! {

/// The abstract state of the registry: the active session id (0 when none is
/// active) and the last id handed out.
pub struct SessionsView {
    pub active: u64,
    pub issued: u64,
}

impl SessionsView {
    /// Every active id is one that was handed out.
    pub open spec fn wf(self) -> bool {
        self.active <= self.issued
    }

    /// Handing out the next id; ids count up from 1.
    pub open spec fn allocate(self) -> (SessionsView, u64)
        recommends
            self.issued < u64::MAX,
    {
        (SessionsView { active: self.active, issued: (self.issued + 1) as u64 }, (self.issued + 1) as u64)
    }

    /// Claiming the single slot succeeds only when no session holds it.
    pub open spec fn claim(self, id: u64) -> SessionsView {
        if self.active == 0 {
            SessionsView { active: id, issued: self.issued }
        } else {
            self
        }
    }

    /// Releasing frees the slot only when `id` holds it.
    pub open spec fn release(self, id: u64) -> SessionsView {
        if self.active == id {
            SessionsView { active: 0, issued: self.issued }
        } else {
            self
        }
    }
}

/// Which WebSocket session, if any, owns the virtual microphone.
pub struct SessionRegistry {
    active: u64,
    next: u64,
}

impl View for SessionRegistry {
    type V = SessionsView;

    closed spec fn view(&self) -> SessionsView {
        SessionsView { active: self.active, issued: self.next }
    }
}

impl SessionRegistry {
    /// A registry with no active session that has handed out no id.
    pub fn new() -> (r: Self)
        ensures
            r@ == (SessionsView { active: 0, issued: 0 }),
    {
        SessionRegistry { active: 0, next: 0 }
    }

    /// Whether another id can still be handed out.
    pub fn can_allocate(&self) -> (b: bool)
        ensures
            b == (self@.issued < u64::MAX),
    {
        self.next < u64::MAX
    }

    /// Hands out a fresh session id, larger than every id handed out before.
    pub fn allocate_id(&mut self) -> (id: u64)
        requires
            old(self)@.issued < u64::MAX,
        ensures
            (final(self)@, id) == old(self)@.allocate(),
    {
        self.next = self.next + 1;
        self.next
    }

    /// Takes the single streaming slot for `session_id` if it is free.
    pub fn try_claim(&mut self, session_id: u64) -> (claimed: bool)
        ensures
            claimed == (old(self)@.active == 0),
            final(self)@ == old(self)@.claim(session_id),
    {
        if self.active == 0 {
            self.active = session_id;
            true
        } else {
            false
        }
    }

    /// Frees the slot if `session_id` holds it; otherwise nothing changes.
    pub fn release(&mut self, session_id: u64)
        ensures
            final(self)@ == old(self)@.release(session_id),
    {
        if self.active == session_id {
            self.active = 0;
        }
    }

    /// Whether `session_id` currently holds the slot.
    pub fn is_active(&self, session_id: u64) -> (b: bool)
        ensures
            b == (self@.active == session_id),
    {
        self.active == session_id
    }
}

impl Default for SessionRegistry {
    fn default() -> (r: Self)
        ensures
            r@ == (SessionsView { active: 0, issued: 0 }),
    {
        SessionRegistry::new()
    }
}

/// While one session streams, no other session can claim the slot.
pub proof fn lemma_single_active_session(s: SessionsView, other: u64)
    requires
        s.active != 0,
    ensures
        s.claim(other) == s,
{
}

/// Every id handed out is new: it differs from the active id and from every
/// id handed out earlier.
pub proof fn lemma_allocated_ids_are_fresh(s: SessionsView, earlier: u64)
    requires
        s.wf(),
        s.issued < u64::MAX,
        earlier <= s.issued,
    ensures
        s.allocate().1 != earlier,
        s.allocate().1 != s.active,
        s.allocate().0.wf(),
{
}

/// One acquisition — take a fresh id, then try the slot — gives an id of at
/// least 1 above every id handed out before; it holds the slot, alone, exactly
/// when the slot was free, and a refused attempt leaves the holder in place.
/// (Ids are counted in a `u64`: this holds until the counter is exhausted.)
pub proof fn lemma_acquire_outcome(s: SessionsView, earlier: u64)
    requires
        s.wf(),
        s.issued < u64::MAX,
        earlier <= s.issued,
    ensures
        ({
            let (s1, id) = s.allocate();
            let s2 = s1.claim(id);
            &&& id >= 1
            &&& id > earlier
            &&& s2.wf()
            &&& (s2.active == id <==> s.active == 0)
            &&& (s.active != 0 ==> s2.active == s.active)
        }),
{
}

/// Two overlapping acquisitions never both hold the slot: both take their
/// ids, then both try the slot, and at most the first succeeds; the second
/// gets the slot only after a release.
pub proof fn lemma_overlapping_acquisitions_exclusive(s: SessionsView)
    requires
        s.wf(),
        s.issued + 1 < u64::MAX,
    ensures
        ({
            let (s1, a) = s.allocate();
            let (s2, b) = s1.allocate();
            let s3 = s2.claim(a);
            let s4 = s3.claim(b);
            &&& a != b
            &&& s4.active == s3.active
            &&& s4.active != b
            &&& (s.active == 0 ==> s4.active == a)
            &&& (s3.active == a ==> s3.release(a).claim(b).active == b)
        }),
{
}

/// A stale release — a finished session releasing again after a newer session
/// took the slot — leaves the newer session active.
pub proof fn lemma_stale_release_keeps_newer_session(s: SessionsView, first: u64)
    requires
        s.wf(),
        s.active == first,
        first != 0,
        s.issued < u64::MAX,
    ensures
        ({
            let (s2, second) = s.release(first).allocate();
            let s3 = s2.claim(second);
            &&& s3.active == second
            &&& s3.release(first).active == second
        }),
{
}

} // verus!

verus! {

/// Once the streaming session releases the slot, the next session can claim it.
pub proof fn lemma_release_lets_next_session_in(s: SessionsView, current: u64, next: u64)
    requires
        s.active == current,
    ensures
        s.release(current).claim(next).active == next,
{
}

} // verus!
