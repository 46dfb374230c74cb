//! Per-session stream counters and the hub that serves the active session's
//! counters, so that a report never mixes a finished session with a new one.
use std::time::Duration;
use vstd::prelude::*;

verus! {

/// What `Duration::as_micros` returns for `d`.
pub uninterp spec fn duration_micros(d: Duration) -> u128;

/// `Duration::as_micros`: the whole microseconds in `d`.
#[verifier::external_body]
fn as_micros(d: Duration) -> (m: u128)
    ensures
        m == duration_micros(d),
{
    d.as_micros()
}

/// The counters of one stream. Counters wrap around on overflow.
#[derive(Clone, Copy, Debug, PartialEq, Eq, Structural)]
pub struct MetricCounts {
    pub packets_received: u64,
    pub packets_lost: u64,
    pub packets_reordered: u64,
    pub decoded_frames: u64,
    pub dropped_frames: u64,
    pub jitter_micros: u64,
    pub queue_micros: u64,
}

/// Something that happened to a stream and is counted.
#[derive(Clone, Copy, Debug, PartialEq, Eq, Structural)]
pub enum MetricEvent {
    /// An RTP packet was accepted.
    Received,
    /// This many packets were found missing.
    Lost(u16),
    /// A packet arrived out of order or twice.
    Reordered,
    /// A frame was decoded and queued; `dropped` when it pushed out an older one.
    Decoded { dropped: bool },
    /// The current interarrival jitter estimate, in microseconds.
    Jitter(u64),
}

impl MetricCounts {
    pub open spec fn zero() -> MetricCounts {
        MetricCounts {
            packets_received: 0,
            packets_lost: 0,
            packets_reordered: 0,
            decoded_frames: 0,
            dropped_frames: 0,
            jitter_micros: 0,
            queue_micros: 0,
        }
    }

    /// The counters after `event`.
    pub open spec fn applied(self, event: MetricEvent) -> MetricCounts {
        match event {
            MetricEvent::Received => MetricCounts {
                packets_received: self.packets_received.wrapping_add(1),
                ..self
            },
            MetricEvent::Lost(n) => MetricCounts {
                packets_lost: self.packets_lost.wrapping_add(n as u64),
                ..self
            },
            MetricEvent::Reordered => MetricCounts {
                packets_reordered: self.packets_reordered.wrapping_add(1),
                ..self
            },
            MetricEvent::Decoded { dropped } => MetricCounts {
                decoded_frames: self.decoded_frames.wrapping_add(1),
                dropped_frames: if dropped {
                    self.dropped_frames.wrapping_add(1)
                } else {
                    self.dropped_frames
                },
                ..self
            },
            MetricEvent::Jitter(micros) => MetricCounts { jitter_micros: micros, ..self },
        }
    }

    /// The queue delay that is stored for `delay`: its microseconds, capped at `u64::MAX`.
    pub open spec fn queue_delay_micros(delay: Duration) -> u64 {
        if duration_micros(delay) > u64::MAX as u128 {
            u64::MAX
        } else {
            duration_micros(delay) as u64
        }
    }

    /// All counters at zero.
    pub fn new() -> (c: MetricCounts)
        ensures
            c == MetricCounts::zero(),
    {
        MetricCounts {
            packets_received: 0,
            packets_lost: 0,
            packets_reordered: 0,
            decoded_frames: 0,
            dropped_frames: 0,
            jitter_micros: 0,
            queue_micros: 0,
        }
    }

    /// Received plus lost packets, saturating at `u64::MAX`.
    pub fn packets_total(&self) -> (t: u64)
        ensures
            t == self.packets_received.saturating_add(self.packets_lost),
    {
        self.packets_received.saturating_add(self.packets_lost)
    }

    /// Counts `event`.
    pub fn apply(&mut self, event: MetricEvent)
        ensures
            *final(self) == old(self).applied(event),
    {
        match event {
            MetricEvent::Received => {
                self.packets_received = self.packets_received.wrapping_add(1);
            },
            MetricEvent::Lost(n) => {
                self.packets_lost = self.packets_lost.wrapping_add(n as u64);
            },
            MetricEvent::Reordered => {
                self.packets_reordered = self.packets_reordered.wrapping_add(1);
            },
            MetricEvent::Decoded { dropped } => {
                self.decoded_frames = self.decoded_frames.wrapping_add(1);
                if dropped {
                    self.dropped_frames = self.dropped_frames.wrapping_add(1);
                }
            },
            MetricEvent::Jitter(micros) => {
                self.jitter_micros = micros;
            },
        }
    }
}

/// The counters of one session's stream.
#[derive(Clone, Copy, Debug)]
pub struct StreamMetrics {
    session_id: u64,
    counts: MetricCounts,
}

impl View for StreamMetrics {
    /// The session the counters belong to, and the counters.
    type V = (u64, MetricCounts);

    closed spec fn view(&self) -> (u64, MetricCounts) {
        (self.session_id, self.counts)
    }
}

impl StreamMetrics {
    /// Fresh counters for `session_id`.
    pub fn new(session_id: u64) -> (m: StreamMetrics)
        ensures
            m@ == (session_id, MetricCounts::zero()),
    {
        StreamMetrics { session_id, counts: MetricCounts::new() }
    }

    pub fn session_id(&self) -> (id: u64)
        ensures
            id == self@.0,
    {
        self.session_id
    }

    /// Counts `event`.
    pub fn record(&mut self, event: MetricEvent)
        ensures
            final(self)@ == (old(self)@.0, old(self)@.1.applied(event)),
    {
        self.counts.apply(event);
    }

    /// Stores how long the latest frame waited in the queue.
    pub fn record_queue_delay(&mut self, delay: Duration)
        ensures
            final(self)@ == (
                old(self)@.0,
                MetricCounts { queue_micros: MetricCounts::queue_delay_micros(delay), ..old(self)@.1 },
            ),
    {
        let micros = as_micros(delay);
        let stored: u64 = if micros > u64::MAX as u128 {
            u64::MAX
        } else {
            micros as u64
        };
        self.counts.queue_micros = stored;
    }

    /// The current counters.
    pub fn snapshot(&self) -> (c: MetricCounts)
        ensures
            c == self@.1,
    {
        self.counts
    }
}

/// Holds the counters of the session currently streaming, if any.
pub struct MetricsHub {
    current: Option<StreamMetrics>,
}

impl View for MetricsHub {
    type V = Option<(u64, MetricCounts)>;

    closed spec fn view(&self) -> Option<(u64, MetricCounts)> {
        match self.current {
            Some(m) => Some(m@),
            None => None,
        }
    }
}

impl MetricsHub {
    /// What a report shows: the installed counters, or zeros.
    pub open spec fn reported(hub: Option<(u64, MetricCounts)>) -> MetricCounts {
        match hub {
            Some(m) => m.1,
            None => MetricCounts::zero(),
        }
    }

    /// The hub after `clear(metrics)`.
    pub open spec fn cleared(hub: Option<(u64, MetricCounts)>, session_id: u64) -> Option<(u64, MetricCounts)> {
        match hub {
            Some(m) => if m.0 == session_id {
                None
            } else {
                hub
            },
            None => None,
        }
    }

    /// The hub after `session_id` records `event`.
    pub open spec fn recorded(hub: Option<(u64, MetricCounts)>, session_id: u64, event: MetricEvent) -> Option<(u64, MetricCounts)> {
        match hub {
            Some(m) => if m.0 == session_id {
                Some((m.0, m.1.applied(event)))
            } else {
                hub
            },
            None => None,
        }
    }

    /// An empty hub.
    pub fn new() -> (h: MetricsHub)
        ensures
            h@ == None::<(u64, MetricCounts)>,
    {
        MetricsHub { current: None }
    }

    /// Makes `metrics` the session whose counters are reported.
    pub fn install(&mut self, metrics: &StreamMetrics)
        ensures
            final(self)@ == Some(metrics@),
    {
        self.current = Some(*metrics);
    }

    /// Removes the installed counters, but only when they are those of `metrics`'s session.
    pub fn clear(&mut self, metrics: &StreamMetrics)
        ensures
            final(self)@ == MetricsHub::cleared(old(self)@, metrics@.0),
    {
        let matches = match &self.current {
            Some(m) => m.session_id == metrics.session_id,
            None => false,
        };
        if matches {
            self.current = None;
        }
    }

    /// Counts `event` for `session_id`, if that session's counters are installed.
    pub fn record(&mut self, session_id: u64, event: MetricEvent)
        ensures
            final(self)@ == MetricsHub::recorded(old(self)@, session_id, event),
    {
        match &mut self.current {
            Some(m) => {
                if m.session_id == session_id {
                    m.record(event);
                }
            },
            None => {},
        }
    }

    /// Stores the queue delay in the installed counters, if any.
    pub fn record_queue_delay(&mut self, delay: Duration)
        ensures
            final(self)@ == match old(self)@ {
                Some(m) => Some(
                    (m.0, MetricCounts { queue_micros: MetricCounts::queue_delay_micros(delay), ..m.1 }),
                ),
                None => None,
            },
    {
        match &mut self.current {
            Some(m) => m.record_queue_delay(delay),
            None => {},
        }
    }

    /// The installed session's counters, or all zeros when none is installed.
    pub fn snapshot(&self) -> (c: MetricCounts)
        ensures
            c == MetricsHub::reported(self@),
    {
        match &self.current {
            Some(m) => m.snapshot(),
            None => MetricCounts::new(),
        }
    }
}

impl Default for MetricsHub {
    fn default() -> (h: MetricsHub)
        ensures
            h@ == None::<(u64, MetricCounts)>,
    {
        MetricsHub::new()
    }
}

/// A finished session clearing the hub after a new session installed its
/// counters leaves the new session's counters in place.
pub proof fn lemma_stale_clear_keeps_new_session(new_metrics: (u64, MetricCounts), old_session: u64)
    requires
        new_metrics.0 != old_session,
    ensures
        MetricsHub::cleared(Some(new_metrics), old_session) == Some(new_metrics),
{
}

/// Events of another session never change what the hub reports.
pub proof fn lemma_other_session_events_do_not_mix(
    hub: Option<(u64, MetricCounts)>,
    session_id: u64,
    event: MetricEvent,
)
    requires
        hub matches Some(m) ==> m.0 != session_id,
    ensures
        MetricsHub::recorded(hub, session_id, event) == hub,
        MetricsHub::reported(MetricsHub::recorded(hub, session_id, event)) == MetricsHub::reported(hub),
{
}

/// Installing a session's counters and clearing them again reports zeros.
pub proof fn lemma_install_then_clear_reports_zero(metrics: (u64, MetricCounts))
    ensures
        MetricsHub::reported(MetricsHub::cleared(Some(metrics), metrics.0)) == MetricCounts::zero(),
{
}


/// The counters after each of `events` in turn, starting from `c`.
pub open spec fn applied_all(c: MetricCounts, events: Seq<MetricEvent>) -> MetricCounts
    decreases events.len(),
{
    if events.len() == 0 {
        c
    } else {
        applied_all(c, events.drop_last()).applied(events.last())
    }
}

/// How many of `events` satisfy `p`.
pub open spec fn count_where(events: Seq<MetricEvent>, p: spec_fn(MetricEvent) -> bool) -> nat
    decreases events.len(),
{
    if events.len() == 0 {
        0
    } else {
        count_where(events.drop_last(), p) + if p(events.last()) { 1nat } else { 0nat }
    }
}

/// The packets reported lost by `events`, in all.
pub open spec fn lost_total(events: Seq<MetricEvent>) -> nat
    decreases events.len(),
{
    if events.len() == 0 {
        0
    } else {
        lost_total(events.drop_last()) + match events.last() {
            MetricEvent::Lost(n) => n as nat,
            _ => 0nat,
        }
    }
}

/// 2^64: the counters count modulo this.
pub open spec fn counter_modulus() -> int {
    0x1_0000_0000_0000_0000
}

proof fn lemma_wrapping_count(x: u64, total: int, k: u64)
    requires
        total >= 0,
        x == total % counter_modulus(),
    ensures
        x.wrapping_add(k) == (total + k) % counter_modulus(),
{
    let m = counter_modulus();
    let q = total / m;
    vstd::arithmetic::div_mod::lemma_fundamental_div_mod(total, m);
    if x + k <= u64::MAX {
        vstd::arithmetic::div_mod::lemma_fundamental_div_mod_converse(total + k, m, q, x + k);
    } else {
        assert(total + k == (q + 1) * m + (x + k - m)) by (nonlinear_arith)
            requires
                total == m * q + x,
        ;
        vstd::arithmetic::div_mod::lemma_fundamental_div_mod_converse(total + k, m, q + 1, x + k - m);
    }
}

/// From zero, each counter counts its events (modulo 2^64): every received,
/// reordered and decoded packet or frame once, every decoded frame that pushed
/// an older one out once more as dropped, and every lost packet reported.
pub proof fn lemma_counters_count_events(events: Seq<MetricEvent>)
    ensures
        ({
            let c = applied_all(MetricCounts::zero(), events);
            &&& c.packets_received == count_where(events, |e: MetricEvent| e == MetricEvent::Received) as int
                % counter_modulus()
            &&& c.packets_reordered == count_where(events, |e: MetricEvent| e == MetricEvent::Reordered) as int
                % counter_modulus()
            &&& c.decoded_frames == count_where(events, |e: MetricEvent| e is Decoded) as int % counter_modulus()
            &&& c.dropped_frames == count_where(
                events,
                |e: MetricEvent| e == MetricEvent::Decoded { dropped: true },
            ) as int % counter_modulus()
            &&& c.packets_lost == lost_total(events) as int % counter_modulus()
        }),
    decreases events.len(),
{
    if events.len() > 0 {
        let rest = events.drop_last();
        lemma_counters_count_events(rest);
        let c = applied_all(MetricCounts::zero(), rest);
        let received = |e: MetricEvent| e == MetricEvent::Received;
        let reordered = |e: MetricEvent| e == MetricEvent::Reordered;
        let decoded = |e: MetricEvent| e is Decoded;
        let dropped = |e: MetricEvent| e == MetricEvent::Decoded { dropped: true };
        lemma_wrapping_count(c.packets_received, count_where(rest, received) as int, 1);
        lemma_wrapping_count(c.packets_reordered, count_where(rest, reordered) as int, 1);
        lemma_wrapping_count(c.decoded_frames, count_where(rest, decoded) as int, 1);
        lemma_wrapping_count(c.dropped_frames, count_where(rest, dropped) as int, 1);
        match events.last() {
            MetricEvent::Lost(n) => {
                lemma_wrapping_count(c.packets_lost, lost_total(rest) as int, n as u64);
            },
            _ => {},
        }
    }
}

/// Counting one decoded frame adds one to the decoded frames whether or not
/// it pushed an older frame out, and adds to the dropped frames only when it did.
pub proof fn lemma_decoded_frame_counts_once(c: MetricCounts, dropped: bool)
    ensures
        c.applied(MetricEvent::Decoded { dropped }).decoded_frames == (c.decoded_frames + 1)
            % counter_modulus(),
        c.applied(MetricEvent::Decoded { dropped }).dropped_frames == if dropped {
            (c.dropped_frames + 1) % counter_modulus()
        } else {
            c.dropped_frames as int
        },
{
    lemma_wrapping_count(c.decoded_frames, c.decoded_frames as int, 1);
    lemma_wrapping_count(c.dropped_frames, c.dropped_frames as int, 1);
}

} // verus!
