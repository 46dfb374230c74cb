use remotemic::audio::AudioConfig;
use remotemic::cli::{
    access_url_messages, listen_port_candidate, parse_port_arg, parse_quality_arg, DYNAMIC_PORT_MIN,
};
use remotemic::preflight::{check_pactl_outcome, PactlProbe};
use remotemic::writer::WriterAction::{DrainQueue, Exit, OpenPipe, Receive, WriteFrame};
use remotemic::writer::WriterState::{Streaming, Waiting};
use remotemic::writer::{writer_step, WriterEvent};

fn args(list: &[&str]) -> Vec<String> {
    list.iter().map(|s| s.to_string()).collect()
}

#[test]
fn port_option_is_parsed() {
    assert_eq!(parse_port_arg(&args(&["remotemic"])), Ok(None));
    assert_eq!(parse_port_arg(&args(&["remotemic", "-p", "9000"])), Ok(Some(9000)));
    assert_eq!(parse_port_arg(&args(&["remotemic", "--port", "+65535", "-p", "1"])), Ok(Some(65535)));
    assert_eq!(
        parse_port_arg(&args(&["remotemic", "-p"])),
        Err("Missing value after -p/--port".to_string())
    );
    assert_eq!(
        parse_port_arg(&args(&["remotemic", "--port", "65536"])),
        Err("Invalid port \"65536\": expected a number 0-65535".to_string())
    );
}

#[test]
fn access_messages_name_the_port() {
    assert_eq!(
        access_url_messages(9000),
        vec![
            "Open http://localhost:9000".to_string(),
            "NOTE: Microphone access requires HTTPS on non-localhost origins. If the mic does not work, run: npx localtunnel --port 9000".to_string(),
        ]
    );
}

#[test]
fn listen_port_is_requested_or_dynamic() {
    assert_eq!(listen_port_candidate(Some(9000)), 9000);
    for _ in 0..100 {
        assert!(listen_port_candidate(None) >= DYNAMIC_PORT_MIN);
    }
}

#[test]
fn writer_skips_inactive_frames_and_reopens_after_failure() {
    assert_eq!(writer_step(Waiting, WriterEvent::Frame { active: false }), (Waiting, Receive));
    assert_eq!(writer_step(Waiting, WriterEvent::Frame { active: true }), (Waiting, OpenPipe));
    assert_eq!(writer_step(Waiting, WriterEvent::PipeOpenFailed), (Waiting, DrainQueue));
    assert_eq!(writer_step(Waiting, WriterEvent::PipeOpened), (Streaming, WriteFrame));
    assert_eq!(writer_step(Streaming, WriterEvent::WriteSucceeded), (Streaming, Receive));
    assert_eq!(writer_step(Streaming, WriterEvent::Frame { active: true }), (Streaming, WriteFrame));
    assert_eq!(writer_step(Streaming, WriterEvent::WriteFailed), (Waiting, Receive));
    assert_eq!(writer_step(Streaming, WriterEvent::ChannelClosed), (Streaming, Exit));
}

#[test]
fn pactl_probe_outcomes() {
    assert_eq!(check_pactl_outcome(PactlProbe::Exited { success: true, status: "exit status: 0".into() }), Ok(()));
    assert_eq!(
        check_pactl_outcome(PactlProbe::Exited { success: false, status: "exit status: 1".into() }),
        Err("pactl is present but not working (exit status exit status: 1)".to_string())
    );
    assert_eq!(check_pactl_outcome(PactlProbe::TimedOut), Err("pactl --version timed out".to_string()));
    assert!(check_pactl_outcome(PactlProbe::NotFound).unwrap_err().starts_with("pactl not found."));
    assert_eq!(
        check_pactl_outcome(PactlProbe::CouldNotRun { error: "denied".into() }),
        Err("pactl could not be executed: denied".to_string())
    );
}

#[test]
fn quality_option_selects_a_preset() {
    assert_eq!(parse_quality_arg(&args(&["remotemic"])), Ok(AudioConfig::standard()));
    assert_eq!(parse_quality_arg(&args(&["remotemic", "--quality", "high"])), Ok(AudioConfig::high()));
    assert_eq!(parse_quality_arg(&args(&["remotemic", "-p", "9000", "-q", "low"])), Ok(AudioConfig::low()));
    assert_eq!(
        parse_quality_arg(&args(&["remotemic", "--port", "9000", "--quality", "standard"])),
        Ok(AudioConfig::standard())
    );
    assert_eq!(
        parse_quality_arg(&args(&["remotemic", "-q"])),
        Err("Missing value after -q/--quality".to_string())
    );
    assert_eq!(
        parse_quality_arg(&args(&["remotemic", "-q", "best"])),
        Err("Invalid quality \"best\": expected low, standard or high".to_string())
    );
}
