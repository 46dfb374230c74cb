use remotemic::audio::{
    check_private_directory, instance_lock_error, is_pipe_source_for, load_module_args,
    load_outcome, lock_file_path, message_with_trimmed, parse_module_index, pipe_dir,
    pipe_file_path, stale_module_indices, unload_module_args, AudioConfig, DirectoryProblem,
    LoadOutcome, MicState, SampleFormat,
};
use remotemic::audio::opus_decode_rate;

#[test]
fn stale_module_match_requires_exact_source_name() {
    let pipe = "/tmp/mic";
    let exact = "17\tmodule-pipe-source\tsource_name=RemoteMic file=/tmp/mic\t0";
    let prefixed = "18\tmodule-pipe-source\tsource_name=RemoteMicBackup file=/tmp/mic\t0";

    assert!(is_pipe_source_for(exact, "RemoteMic", pipe));
    assert!(!is_pipe_source_for(prefixed, "RemoteMic", pipe));
}

#[test]
fn stale_module_match_requires_exact_pipe_path() {
    let other = "18\tmodule-pipe-source\tsource_name=RemoteMic file=/tmp/other\t0";

    assert!(!is_pipe_source_for(other, "RemoteMic", "/tmp/mic"));
}

#[test]
fn stale_module_match_requires_the_pipe_source_module() {
    let other_module = "19\tmodule-null-sink\tsource_name=RemoteMic file=/tmp/mic\t0";
    assert!(!is_pipe_source_for(other_module, "RemoteMic", "/tmp/mic"));
    assert!(!is_pipe_source_for("", "RemoteMic", "/tmp/mic"));
    // The source name must come after the module name.
    assert!(!is_pipe_source_for(
        "source_name=RemoteMic\tmodule-pipe-source\tfile=/tmp/mic",
        "RemoteMic",
        "/tmp/mic"
    ));
}

#[test]
fn stale_modules_are_listed_by_index() {
    let listing = "3\tmodule-alsa-card\tdevice_id=0\n\
                   17\tmodule-pipe-source\tsource_name=RemoteMic file=/tmp/mic\t0\r\n\
                   18\tmodule-pipe-source\tsource_name=RemoteMicBackup file=/tmp/mic\t0\n\
                   21\tmodule-pipe-source\tsource_name=RemoteMic file=/tmp/mic\n";
    assert_eq!(stale_module_indices(listing, "RemoteMic", "/tmp/mic"), vec!["17", "21"]);
    assert!(stale_module_indices("", "RemoteMic", "/tmp/mic").is_empty());
}

#[test]
fn sample_format_names() {
    assert_eq!(SampleFormat::S16Le.pulse_name(), "s16le");
    assert_eq!(SampleFormat::Float32Le.pulse_name(), "float32le");
    assert_eq!(SampleFormat::S16Le.display_name(), "16-bit PCM");
    assert_eq!(SampleFormat::Float32Le.display_name(), "32-bit float");
}

#[test]
fn quality_presets() {
    assert_eq!(AudioConfig::low().sample_rate, 16_000);
    assert_eq!(AudioConfig::low().opus_bitrate, 48_000);
    assert_eq!(AudioConfig::standard().sample_rate, 44_100);
    assert_eq!(AudioConfig::standard().sample_format, SampleFormat::S16Le);
    assert_eq!(AudioConfig::high().sample_format, SampleFormat::Float32Le);
    assert_eq!(AudioConfig::high().opus_bitrate, 192_000);
}

#[test]
fn load_module_arguments() {
    assert_eq!(
        load_module_args("RemoteMic", "/run/user/1000/remotemic/remotemic.pipe", AudioConfig::high()),
        vec![
            "load-module",
            "module-pipe-source",
            "source_name=RemoteMic",
            "file=/run/user/1000/remotemic/remotemic.pipe",
            "format=float32le",
            "rate=48000",
            "channels=1",
        ]
    );
    assert_eq!(unload_module_args(536870912), vec!["unload-module", "536870912"]);
}

#[test]
fn module_index_is_parsed_from_trimmed_output() {
    assert_eq!(parse_module_index("42\n"), Some(42));
    assert_eq!(parse_module_index("  +7 \t"), Some(7));
    assert_eq!(parse_module_index("4294967295"), Some(u32::MAX));
    assert_eq!(parse_module_index("4294967296"), None);
    assert_eq!(parse_module_index("-1"), None);
    assert_eq!(parse_module_index(""), None);
    assert_eq!(parse_module_index("+"), None);
    assert_eq!(parse_module_index("Failure: Module initialization failed"), None);
}

#[test]
fn virtual_source_state_follows_pactl_runs() {
    let unloaded = MicState::Unloaded;
    assert!(unloaded.needs_load());
    assert_eq!(unloaded.loaded_index(), None);
    assert_eq!(unloaded.after_load(LoadOutcome::Failed), MicState::Unloaded);
    assert_eq!(unloaded.after_load(LoadOutcome::UnexpectedOutput), MicState::Unloaded);
    let loaded = unloaded.after_load(load_outcome(true, "42\n"));
    assert_eq!(loaded, MicState::Loaded { module_index: 42 });
    assert!(!loaded.needs_load());
    assert_eq!(loaded.loaded_index(), Some(42));
    assert_eq!(loaded.after_unload(false), loaded);
    assert_eq!(loaded.after_unload(true), MicState::Unloaded);
}

#[test]
fn load_outcomes() {
    assert_eq!(load_outcome(false, "12"), LoadOutcome::Failed);
    assert_eq!(load_outcome(true, "12\n"), LoadOutcome::Loaded(12));
    assert_eq!(load_outcome(true, "twelve"), LoadOutcome::UnexpectedOutput);
}

#[test]
fn private_directory_checks_in_order() {
    assert_eq!(check_private_directory(true, 1000, 0o40700, 1000), Ok(()));
    assert_eq!(
        check_private_directory(true, 1000, 0o40755, 1000),
        Err(DirectoryProblem::WrongPermissions { permissions: 0o755 })
    );
    assert_eq!(
        check_private_directory(true, 1000, 0o40700, 1001),
        Err(DirectoryProblem::WrongOwner { owner: 1000, expected: 1001 })
    );
    assert_eq!(
        check_private_directory(false, 0, 0o777, 1000),
        Err(DirectoryProblem::NotADirectory)
    );
}

#[test]
fn pipe_directory_prefers_runtime_dir() {
    assert_eq!(
        pipe_dir(Some(b"/run/user/1000"), b"/tmp", 1000),
        b"/run/user/1000/remotemic".to_vec()
    );
    assert_eq!(
        pipe_dir(Some(b"/run/user/1000/"), b"/tmp", 1000),
        b"/run/user/1000/remotemic".to_vec()
    );
    assert_eq!(pipe_dir(Some(b""), b"/tmp", 1000), b"/tmp/remotemic-1000".to_vec());
    assert_eq!(pipe_dir(None, b"/var/tmp/", 0), b"/var/tmp/remotemic-0".to_vec());
    assert_eq!(pipe_file_path(b"/tmp/remotemic-5"), b"/tmp/remotemic-5/remotemic.pipe".to_vec());
    assert_eq!(lock_file_path(b"/tmp/remotemic-5"), b"/tmp/remotemic-5/remotemic.lock".to_vec());
}

#[test]
fn failure_messages() {
    assert_eq!(
        message_with_trimmed("Failed to load module-pipe-source: ", "  Module initialization failed\n"),
        "Failed to load module-pipe-source: Module initialization failed"
    );
    assert_eq!(
        instance_lock_error(true, "/tmp/x/remotemic.lock", "busy"),
        "RemoteMic is already running for this user"
    );
    assert_eq!(
        instance_lock_error(false, "/tmp/x/remotemic.lock", "Permission denied (os error 13)"),
        "Could not acquire instance lock /tmp/x/remotemic.lock: Permission denied (os error 13)"
    );
}

#[test]
fn opus_is_decoded_at_a_rate_it_supports() {
    assert_eq!(opus_decode_rate(AudioConfig::low().sample_rate), 16_000);
    assert_eq!(opus_decode_rate(AudioConfig::standard().sample_rate), 48_000);
    assert_eq!(opus_decode_rate(AudioConfig::high().sample_rate), 48_000);
    assert_eq!(opus_decode_rate(24_000), 24_000);
}
