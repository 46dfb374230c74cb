use remotemic::audio::AudioConfig;
use remotemic::server::{constant_time_eq, render_page, sample_rate_label};

#[test]
fn constant_time_eq_matches_only_identical_tokens() {
    assert!(constant_time_eq(b"deadbeef", b"deadbeef"));
    assert!(!constant_time_eq(b"deadbeef", b"deadbeee"));
    assert!(!constant_time_eq(b"short", b"longer-token"));
}

#[test]
fn high_quality_page_uses_configured_opus_bitrate() {
    let html = render_page("test-token", AudioConfig::high());
    assert!(html.contains("const OPUS_BITRATE = 192000;"));
}

#[test]
fn page_requests_ten_millisecond_opus_packets() {
    let html = render_page("test-token", AudioConfig::high());
    assert!(html.contains("a=ptime:10"));
}

#[test]
fn page_includes_ca_certificate_download_button() {
    let html = render_page("test-token", AudioConfig::standard());
    assert!(html.contains(
        r#"id="cert-download"
        class="cert-download"
        href="/remotemic-ca.crt"
        download="remotemic-ca.crt""#
    ));
}

#[test]
fn page_registers_capture_for_cleanup_before_audio_setup() {
    let html = render_page("test-token", AudioConfig::standard());
    let registration = html.find("session = activeSession;").unwrap();
    let audio_setup = html.find("await audioContext.resume();").unwrap();

    assert!(registration < audio_setup);
    assert!(html.contains("activeSession.stream?.getTracks().forEach((track) => track.stop())"));
}

#[test]
fn page_releases_wake_lock_obtained_after_disconnect() {
    let html = render_page("test-token", AudioConfig::standard());

    assert!(html.contains("!isCurrentSession(activeSession) ||"));
    assert!(html.contains("await lock.release().catch(() => {});"));
    assert!(html.contains("if (!isCurrentSession(activeSession)) return;"));
}

#[test]
fn page_requests_mono_without_requiring_device_support() {
    let html = render_page("test-token", AudioConfig::standard());

    assert!(html.contains("channelCount: { ideal: 1 }"));
}

#[test]
fn page_stops_session_when_microphone_track_ends() {
    let html = render_page("test-token", AudioConfig::standard());

    assert!(html.contains("stop(\"Microphone access ended\", true)"));
}

#[test]
fn page_times_out_or_rejects_socket_closed_before_opening() {
    let html = render_page("test-token", AudioConfig::standard());

    assert!(html.contains("Signaling connection timed out"));
    assert!(html.contains("Signaling connection closed before opening"));
}

#[test]
fn page_fills_in_token_and_quality_summary() {
    let html = render_page("abc123", AudioConfig::high());
    assert!(html.contains("const TOKEN = \"abc123\";"));
    assert!(html.contains("48 kHz · 32-bit float · mono · Opus 192 kb/s"));
    assert!(!html.contains("__REMOTEMIC_"));
}

#[test]
fn page_quality_summary_for_low_preset() {
    let html = render_page("t", AudioConfig::low());
    assert!(html.contains("16 kHz · 16-bit PCM · mono · Opus 48 kb/s"));
    assert!(html.contains("const OPUS_BITRATE = 48000;"));
}

#[test]
fn sample_rate_label_whole_and_fractional_khz() {
    assert_eq!(sample_rate_label(48_000), "48 kHz");
    assert_eq!(sample_rate_label(44_100), "44.1 kHz");
    assert_eq!(sample_rate_label(22_050), format!("{:.1} kHz", 22_050f64 / 1000.0));
    assert_eq!(sample_rate_label(44_150), format!("{:.1} kHz", 44_150f64 / 1000.0));
    assert_eq!(sample_rate_label(250), format!("{:.1} kHz", 250f64 / 1000.0));
    assert_eq!(sample_rate_label(750), format!("{:.1} kHz", 750f64 / 1000.0));
    assert_eq!(sample_rate_label(9_999), "10.0 kHz");
}

#[test]
fn sample_rate_label_matches_float_formatting_everywhere_sampled() {
    let mut rate: u32 = 1;
    while rate < 200_000 {
        assert_eq!(
            sample_rate_label(rate),
            if rate % 1000 == 0 {
                format!("{} kHz", rate / 1000)
            } else {
                format!("{:.1} kHz", rate as f64 / 1000.0)
            },
            "rate {rate}"
        );
        rate += 7;
    }
    for rate in [50u32, 150, 1_050, 4_294_967_295, 4_294_967_250, 123_450] {
        assert_eq!(
            sample_rate_label(rate),
            format!("{:.1} kHz", rate as f64 / 1000.0),
            "rate {rate}"
        );
    }
}

#[test]
fn standard_page_shows_the_standard_preset() {
    let html = render_page("test-token", AudioConfig::standard());
    assert!(html.contains("44.1 kHz · 16-bit PCM · mono · Opus 96 kb/s"));
}
