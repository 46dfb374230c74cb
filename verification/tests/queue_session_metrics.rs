use remotemic::metrics::{MetricEvent, MetricsHub, StreamMetrics};
use remotemic::queue::{AudioFrame, AudioFrameQueue};
use remotemic::session::SessionRegistry;
use std::time::{Duration, Instant};

fn frame(session_id: u64, byte: u8) -> AudioFrame {
    AudioFrame { session_id, data: vec![byte], enqueued_at: Instant::now() }
}

#[test]
fn full_audio_queue_replaces_oldest_frame() {
    let mut queue = AudioFrameQueue::new(1);
    queue.send_latest(frame(1, 1));
    let replaced = queue.send_latest(frame(1, 2));

    assert_eq!((replaced, queue.try_recv().unwrap().data), (true, vec![2]));
}

#[test]
fn queue_keeps_order_and_bound() {
    let mut queue = AudioFrameQueue::new(8);
    for i in 0..10u8 {
        let replaced = queue.send_latest(frame(1, i));
        assert_eq!(replaced, i >= 8);
        assert!(queue.len() <= 8);
    }
    assert_eq!(queue.try_recv().unwrap().data, vec![2]);
    assert_eq!(queue.drain(), 7);
    assert!(queue.try_recv().is_none());
    assert_eq!(AudioFrameQueue::new(0).capacity(), 1);
}

#[test]
fn stale_release_cannot_clear_a_new_session() {
    let mut sessions = SessionRegistry::default();
    let first = sessions.allocate_id();
    assert!(sessions.try_claim(first));
    sessions.release(first);
    let second = sessions.allocate_id();
    assert!(sessions.try_claim(second));
    sessions.release(first);
    assert!(sessions.is_active(second));
}

#[test]
fn only_one_session_streams_at_a_time() {
    let mut sessions = SessionRegistry::new();
    let first = sessions.allocate_id();
    let second = sessions.allocate_id();
    assert_eq!((first, second), (1, 2));
    assert!(sessions.try_claim(first));
    assert!(!sessions.try_claim(second));
    assert!(sessions.is_active(first));
    sessions.release(first);
    assert!(sessions.try_claim(second));
    assert!(sessions.can_allocate());
}

#[test]
fn metrics_hub_snapshot_tracks_installed_session() {
    let mut hub = MetricsHub::default();
    let metrics = StreamMetrics::new(3);
    hub.install(&metrics);
    for _ in 0..7 {
        hub.record(3, MetricEvent::Received);
    }
    assert_eq!(hub.snapshot().packets_received, 7);

    hub.clear(&metrics);
    assert_eq!(hub.snapshot().packets_received, 0);
}

#[test]
fn metrics_of_an_ended_session_do_not_mix_with_a_new_one() {
    let mut hub = MetricsHub::new();
    let old = StreamMetrics::new(1);
    let new = StreamMetrics::new(2);
    hub.install(&old);
    hub.install(&new);
    hub.record(1, MetricEvent::Lost(5));
    hub.clear(&old);
    hub.record(2, MetricEvent::Lost(3));
    hub.record(2, MetricEvent::Decoded { dropped: true });
    hub.record(2, MetricEvent::Reordered);
    hub.record(2, MetricEvent::Jitter(1500));
    hub.record_queue_delay(Duration::from_micros(2500));
    let counts = hub.snapshot();
    assert_eq!(counts.packets_lost, 3);
    assert_eq!(counts.decoded_frames, 1);
    assert_eq!(counts.dropped_frames, 1);
    assert_eq!(counts.packets_reordered, 1);
    assert_eq!(counts.jitter_micros, 1500);
    assert_eq!(counts.queue_micros, 2500);
}

#[test]
fn metrics_reports_packet_totals() {
    let mut metrics = StreamMetrics::new(1);
    for _ in 0..90 {
        metrics.record(MetricEvent::Received);
    }
    metrics.record(MetricEvent::Lost(10));
    let counts = metrics.snapshot();
    assert_eq!(counts.packets_total(), 100);
    assert_eq!(counts.packets_lost, 10);
}

#[test]
fn queue_delay_saturates() {
    let mut metrics = StreamMetrics::new(1);
    metrics.record_queue_delay(Duration::MAX);
    assert_eq!(metrics.snapshot().queue_micros, u64::MAX);
    metrics.record_queue_delay(Duration::from_millis(4));
    assert_eq!(metrics.snapshot().queue_micros, 4000);
}
