//! Audio presets and the decisions around the PulseAudio virtual source.
use crate::text::{
    ascii_of, chars_equal, chars_of, concat_str, decimal_bytes, decimal_chars, join_path, parse_decimal,
    push_bytes, push_str, split_whitespace, split_words, string_of, trim_chars,
};
use vstd::prelude::*;

verus! {

/// The PCM sample format written to the virtual source's pipe.
#[derive(Clone, Copy, Debug, PartialEq, Eq, Structural)]
pub enum SampleFormat {
    S16Le,
    Float32Le,
}

impl SampleFormat {
    /// The name PulseAudio's `format=` argument uses.
    pub fn pulse_name(self) -> (name: &'static str)
        ensures
            name@ == match self {
                SampleFormat::S16Le => "s16le"@,
                SampleFormat::Float32Le => "float32le"@,
            },
    {
        match self {
            SampleFormat::S16Le => "s16le",
            SampleFormat::Float32Le => "float32le",
        }
    }

    /// The name shown to people.
    pub fn display_name(self) -> (name: &'static str)
        ensures
            name@ == match self {
                SampleFormat::S16Le => "16-bit PCM"@,
                SampleFormat::Float32Le => "32-bit float"@,
            },
    {
        match self {
            SampleFormat::S16Le => "16-bit PCM",
            SampleFormat::Float32Le => "32-bit float",
        }
    }
}

/// A quality preset: the rate and format of the PCM written to the pipe,
/// and the Opus bitrate requested from the browser.
#[derive(Clone, Copy, Debug, PartialEq, Eq, Structural)]
pub struct AudioConfig {
    pub sample_rate: u32,
    pub sample_format: SampleFormat,
    pub opus_bitrate: u32,
}

/// Speech over slow networks: 16 kHz, 16-bit, Opus at 48 kb/s.
pub open spec fn low_preset() -> AudioConfig {
    AudioConfig { sample_rate: 16_000, sample_format: SampleFormat::S16Le, opus_bitrate: 48_000 }
}

/// The default: 44.1 kHz, 16-bit, Opus at 96 kb/s.
pub open spec fn standard_preset() -> AudioConfig {
    AudioConfig { sample_rate: 44_100, sample_format: SampleFormat::S16Le, opus_bitrate: 96_000 }
}

/// Video and music: 48 kHz, 32-bit float, Opus at 192 kb/s.
pub open spec fn high_preset() -> AudioConfig {
    AudioConfig { sample_rate: 48_000, sample_format: SampleFormat::Float32Le, opus_bitrate: 192_000 }
}

impl AudioConfig {
    /// Speech over slow networks: 16 kHz, 16-bit, Opus at 48 kb/s.
    pub fn low() -> (c: AudioConfig)
        ensures
            c == low_preset(),
    {
        AudioConfig { sample_rate: 16_000, sample_format: SampleFormat::S16Le, opus_bitrate: 48_000 }
    }

    /// The default: 44.1 kHz, 16-bit, Opus at 96 kb/s.
    pub fn standard() -> (c: AudioConfig)
        ensures
            c == standard_preset(),
    {
        AudioConfig { sample_rate: 44_100, sample_format: SampleFormat::S16Le, opus_bitrate: 96_000 }
    }

    /// Video and music: 48 kHz, 32-bit float, Opus at 192 kb/s.
    pub fn high() -> (c: AudioConfig)
        ensures
            c == high_preset(),
    {
        AudioConfig { sample_rate: 48_000, sample_format: SampleFormat::Float32Le, opus_bitrate: 192_000 }
    }
}

/// Whether Opus can decode straight to `rate` Hz: 8, 12, 16, 24 or 48 kHz.
pub open spec fn is_opus_rate(rate: u32) -> bool {
    rate == 8_000 || rate == 12_000 || rate == 16_000 || rate == 24_000 || rate == 48_000
}

/// The rate to decode Opus at for PCM of `sample_rate` Hz: that rate itself
/// when Opus supports it, else 48 kHz, which is then resampled to `sample_rate`.
pub fn opus_decode_rate(sample_rate: u32) -> (r: u32)
    ensures
        r == if is_opus_rate(sample_rate) { sample_rate } else { 48_000 },
        is_opus_rate(r),
{
    if sample_rate == 8_000 || sample_rate == 12_000 || sample_rate == 16_000 || sample_rate == 24_000
        || sample_rate == 48_000 {
        sample_rate
    } else {
        48_000
    }
}

} // verus!

verus! {

/// The character sequences of a list of strings.
pub open spec fn string_views(v: Seq<String>) -> Seq<Seq<char>> {
    Seq::new(v.len(), |i: int| v[i]@)
}

/// Whether the words of a `pactl list short modules` line describe a
/// `module-pipe-source` with exactly this source name and pipe path: the second
/// word names the module, a later word is `source_name=<source_name>`, and some
/// word is `file=<pipe_path>`.
pub open spec fn pipe_source_words(t: Seq<Seq<char>>, source_name: Seq<char>, pipe_path: Seq<char>) -> bool {
    &&& t.len() >= 2
    &&& t[1] == "module-pipe-source"@
    &&& exists|i: int| 2 <= i < t.len() && t[i] == "source_name="@ + source_name
    &&& exists|i: int| 0 <= i < t.len() && t[i] == "file="@ + pipe_path
}

/// Whether `line` describes our pipe source.
pub open spec fn is_pipe_source_line(line: Seq<char>, source_name: Seq<char>, pipe_path: Seq<char>) -> bool {
    pipe_source_words(crate::text::words(line), source_name, pipe_path)
}

/// Whether some word at index `from` or later equals `w`.
fn contains_word_from(t: &Vec<Vec<char>>, from: usize, w: &Vec<char>) -> (b: bool)
    ensures
        b == exists|i: int| from <= i < t@.len() && t@[i]@ == w@,
{
    let mut i: usize = from;
    while i < t.len()
        invariant
            from <= i,
            forall|j: int| from <= j < i && j < t@.len() ==> t@[j]@ != w@,
        decreases t.len() - i,
    {
        if chars_equal(&t[i], w) {
            assert(from <= i < t@.len() && t@[i as int]@ == w@);
            return true;
        }
        i += 1;
    }
    false
}

fn matches_pipe_source(t: &Vec<Vec<char>>, source_name: &str, pipe_path: &str) -> (b: bool)
    ensures
        b == pipe_source_words(crate::text::views(t@), source_name@, pipe_path@),
{
    let ghost tv = crate::text::views(t@);
    if t.len() < 2 {
        return false;
    }
    let module = chars_of("module-pipe-source");
    if !chars_equal(&t[1], &module) {
        return false;
    }
    let mut source_marker = chars_of("source_name=");
    push_str(&mut source_marker, source_name);
    let mut file_marker = chars_of("file=");
    push_str(&mut file_marker, pipe_path);
    assert(forall|i: int| #![trigger tv[i]] #![trigger t@[i]] 0 <= i < tv.len() ==> tv[i] == t@[i]@);
    let has_source = contains_word_from(t, 2, &source_marker);
    let has_file = contains_word_from(t, 0, &file_marker);
    assert(has_source == exists|i: int| 2 <= i < tv.len() && tv[i] == "source_name="@ + source_name@);
    assert(has_file == exists|i: int| 0 <= i < tv.len() && tv[i] == "file="@ + pipe_path@);
    has_source && has_file
}

/// Whether a line of `pactl list short modules` is a `module-pipe-source`
/// for exactly `source_name` and `pipe_path`.
pub fn is_pipe_source_for(line: &str, source_name: &str, pipe_path: &str) -> (b: bool)
    ensures
        b == is_pipe_source_line(line@, source_name@, pipe_path@),
{
    let t = split_whitespace(line);
    matches_pipe_source(&t, source_name, pipe_path)
}

/// The pieces of `s` between line feeds, the last one included even when empty.
/// (`str::lines` also drops a trailing `\r` and a final empty line; neither can
/// hold a module, so both give the same modules.)
pub open spec fn line_segments(s: Seq<char>) -> Seq<Seq<char>> {
    crate::text::pieces(s, '\n')
}

/// The module indices (first words) of the lines that are our pipe source.
pub open spec fn stale_indices(lines: Seq<Seq<char>>, source_name: Seq<char>, pipe_path: Seq<char>) -> Seq<Seq<char>>
    decreases lines.len(),
{
    if lines.len() == 0 {
        Seq::empty()
    } else {
        let earlier = stale_indices(lines.drop_last(), source_name, pipe_path);
        if is_pipe_source_line(lines.last(), source_name, pipe_path) {
            earlier.push(crate::text::words(lines.last())[0])
        } else {
            earlier
        }
    }
}

fn index_if_stale(line: &Vec<char>, source_name: &str, pipe_path: &str) -> (r: Option<String>)
    ensures
        is_pipe_source_line(line@, source_name@, pipe_path@) ==> r is Some && r->0@ == crate::text::words(
            line@,
        )[0],
        !is_pipe_source_line(line@, source_name@, pipe_path@) ==> r is None,
{
    let t = split_words(line);
    if matches_pipe_source(&t, source_name, pipe_path) {
        Some(string_of(&t[0]))
    } else {
        None
    }
}

/// The module indices of the lines of a `pactl list short modules` listing
/// that are a `module-pipe-source` for exactly `source_name` and `pipe_path`.
pub fn stale_module_indices(listing: &str, source_name: &str, pipe_path: &str) -> (r: Vec<String>)
    ensures
        string_views(r@) == stale_indices(line_segments(listing@), source_name@, pipe_path@),
{
    let chars = chars_of(listing);
    let ghost src = source_name@;
    let ghost path = pipe_path@;
    let mut found: Vec<String> = Vec::new();
    let mut current: Vec<char> = Vec::new();
    let mut i: usize = 0;
    while i < chars.len()
        invariant
            i <= chars@.len(),
            chars@ == listing@,
            src == source_name@,
            path == pipe_path@,
            crate::text::piece_scan(chars@.take(i as int), '\n').1 == current@,
            string_views(found@) == stale_indices(crate::text::piece_scan(chars@.take(i as int), '\n').0, src, path),
        decreases chars.len() - i,
    {
        let c = chars[i];
        assert(chars@.take((i + 1) as int).drop_last() =~= chars@.take(i as int));
        let ghost done_before = crate::text::piece_scan(chars@.take(i as int), '\n').0;
        if c == '\n' {
            let ghost before = string_views(found@);
            match index_if_stale(&current, source_name, pipe_path) {
                Some(index) => {
                    found.push(index);
                },
                None => {},
            }
            assert(done_before.push(current@).drop_last() =~= done_before);
            assert(string_views(found@) =~= stale_indices(done_before.push(current@), src, path));
            current = Vec::new();
        } else {
            current.push(c);
        }
        i += 1;
    }
    assert(chars@.take(chars@.len() as int) =~= chars@);
    let ghost done = crate::text::piece_scan(chars@, '\n').0;
    match index_if_stale(&current, source_name, pipe_path) {
        Some(index) => {
            found.push(index);
        },
        None => {},
    }
    assert(done.push(current@).drop_last() =~= done);
    assert(string_views(found@) =~= stale_indices(done.push(current@), src, path));
    found
}

} // verus!

verus! {

/// The name PulseAudio's `format=` argument uses for `f`.
pub open spec fn pulse_name_of(f: SampleFormat) -> Seq<char> {
    match f {
        SampleFormat::S16Le => "s16le"@,
        SampleFormat::Float32Le => "float32le"@,
    }
}

/// The name shown to people for `f`.
pub open spec fn display_name_of(f: SampleFormat) -> Seq<char> {
    match f {
        SampleFormat::S16Le => "16-bit PCM"@,
        SampleFormat::Float32Le => "32-bit float"@,
    }
}

/// The arguments of `pactl` that load the pipe source.
pub fn load_module_args(source_name: &str, pipe_path: &str, config: AudioConfig) -> (args: Vec<String>)
    ensures
        string_views(args@) == seq![
            "load-module"@,
            "module-pipe-source"@,
            "source_name="@ + source_name@,
            "file="@ + pipe_path@,
            "format="@ + pulse_name_of(config.sample_format),
            "rate="@ + crate::text::decimal(config.sample_rate as nat),
            "channels=1"@,
        ],
{
    let mut args: Vec<String> = Vec::new();
    args.push(String::from_str("load-module"));
    args.push(String::from_str("module-pipe-source"));
    args.push(concat_str("source_name=", &chars_of(source_name)));
    args.push(concat_str("file=", &chars_of(pipe_path)));
    args.push(concat_str("format=", &chars_of(config.sample_format.pulse_name())));
    args.push(concat_str("rate=", &decimal_chars(config.sample_rate as u64)));
    args.push(String::from_str("channels=1"));
    assert(string_views(args@) =~= seq![
        "load-module"@,
        "module-pipe-source"@,
        "source_name="@ + source_name@,
        "file="@ + pipe_path@,
        "format="@ + pulse_name_of(config.sample_format),
        "rate="@ + crate::text::decimal(config.sample_rate as nat),
        "channels=1"@,
    ]);
    args
}

/// The arguments of `pactl` that unload module `module_index`.
pub fn unload_module_args(module_index: u32) -> (args: Vec<String>)
    ensures
        string_views(args@) == seq!["unload-module"@, crate::text::decimal(module_index as nat)],
{
    let mut args: Vec<String> = Vec::new();
    args.push(String::from_str("unload-module"));
    args.push(string_of(&decimal_chars(module_index as u64)));
    assert(string_views(args@) =~= seq!["unload-module"@, crate::text::decimal(module_index as nat)]);
    args
}

/// The module index `pactl load-module` printed: its output, trimmed, as a `u32`.
pub fn parse_module_index(stdout: &str) -> (index: Option<u32>)
    ensures
        index == match crate::text::parse_unsigned(crate::text::trim(stdout@), u32::MAX as nat) {
            Some(v) => Some(v as u32),
            None => None::<u32>,
        },
{
    let trimmed = trim_chars(&chars_of(stdout));
    match parse_decimal(&trimmed, u32::MAX as u64) {
        Some(v) => Some(v as u32),
        None => None,
    }
}

/// Whether the virtual source is loaded, and under which module index.
#[derive(Clone, Copy, Debug, PartialEq, Eq, Structural)]
pub enum MicState {
    Unloaded,
    Loaded { module_index: u32 },
}

impl MicState {
    /// Whether loading has work to do: only when nothing is loaded yet.
    pub fn needs_load(self) -> (b: bool)
        ensures
            b == (self == MicState::Unloaded),
    {
        match self {
            MicState::Unloaded => true,
            MicState::Loaded { .. } => false,
        }
    }

    /// The module that unloading must remove, if one is loaded.
    pub fn loaded_index(self) -> (i: Option<u32>)
        ensures
            i == match self {
                MicState::Loaded { module_index } => Some(module_index),
                MicState::Unloaded => None::<u32>,
            },
    {
        match self {
            MicState::Loaded { module_index } => Some(module_index),
            MicState::Unloaded => None,
        }
    }

    /// The state after a `pactl load-module` run: loaded only when it printed
    /// a module index, unchanged otherwise.
    pub fn after_load(self, outcome: LoadOutcome) -> (s: MicState)
        ensures
            s == match outcome {
                LoadOutcome::Loaded(i) => MicState::Loaded { module_index: i },
                _ => self,
            },
    {
        match outcome {
            LoadOutcome::Loaded(i) => MicState::Loaded { module_index: i },
            _ => self,
        }
    }

    /// The state after a `pactl unload-module` run: unloaded only when it succeeded.
    pub fn after_unload(self, success: bool) -> (s: MicState)
        ensures
            s == if success { MicState::Unloaded } else { self },
    {
        if success {
            MicState::Unloaded
        } else {
            self
        }
    }
}

/// What a `pactl load-module` run amounts to.
#[derive(Clone, Copy, Debug, PartialEq, Eq, Structural)]
pub enum LoadOutcome {
    /// `pactl` reported failure.
    Failed,
    /// `pactl` succeeded but did not print a module index.
    UnexpectedOutput,
    /// The source is loaded as this module.
    Loaded(u32),
}

/// Judges a `pactl load-module` run from its exit status and output.
pub fn load_outcome(success: bool, stdout: &str) -> (o: LoadOutcome)
    ensures
        o == if !success {
            LoadOutcome::Failed
        } else {
            match crate::text::parse_unsigned(crate::text::trim(stdout@), u32::MAX as nat) {
                Some(v) => LoadOutcome::Loaded(v as u32),
                None => LoadOutcome::UnexpectedOutput,
            }
        },
{
    if !success {
        return LoadOutcome::Failed;
    }
    match parse_module_index(stdout) {
        Some(index) => LoadOutcome::Loaded(index),
        None => LoadOutcome::UnexpectedOutput,
    }
}

/// Why a directory is not a private directory of the expected user.
#[derive(Clone, Copy, Debug, PartialEq, Eq, Structural)]
pub enum DirectoryProblem {
    NotADirectory,
    WrongOwner { owner: u32, expected: u32 },
    WrongPermissions { permissions: u32 },
}

/// Checks what `symlink_metadata` reported of a directory: it must be a
/// directory (not a link to one), owned by `expected_uid`, with permission bits
/// exactly `0o700`. The first failing check is reported.
pub fn check_private_directory(is_dir: bool, owner: u32, mode: u32, expected_uid: u32) -> (r: Result<(), DirectoryProblem>)
    ensures
        r == if !is_dir {
            Err(DirectoryProblem::NotADirectory)
        } else if owner != expected_uid {
            Err(DirectoryProblem::WrongOwner { owner, expected: expected_uid })
        } else if mode & 0o777 != 0o700 {
            Err(DirectoryProblem::WrongPermissions { permissions: mode & 0o777 })
        } else {
            Ok(())
        },
{
    if !is_dir {
        return Err(DirectoryProblem::NotADirectory);
    }
    if owner != expected_uid {
        return Err(DirectoryProblem::WrongOwner { owner, expected: expected_uid });
    }
    let permissions = mode & 0o777;
    if permissions != 0o700 {
        return Err(DirectoryProblem::WrongPermissions { permissions });
    }
    Ok(())
}

/// The per-user directory of the pipe and the lock: `<runtime_dir>/remotemic`
/// when the runtime directory is set and not empty, else `<temp_dir>/remotemic-<uid>`.
pub fn pipe_dir(runtime_dir: Option<&[u8]>, temp_dir: &[u8], uid: u32) -> (dir: Vec<u8>)
    ensures
        dir@ == match runtime_dir {
            Some(r) if r@.len() > 0 => crate::text::path_join(r@, crate::text::ascii_bytes("remotemic"@)),
            _ => crate::text::path_join(
                temp_dir@,
                crate::text::ascii_bytes("remotemic-"@) + crate::text::ascii_bytes(crate::text::decimal(uid as nat)),
            ),
        },
{
    match runtime_dir {
        Some(r) => {
            if r.len() > 0 {
                return join_path(r, ascii_of("remotemic").as_slice());
            }
        },
        None => {},
    }
    let mut name = ascii_of("remotemic-");
    let digits = decimal_bytes(uid as u64);
    push_bytes(&mut name, digits.as_slice());
    join_path(temp_dir, name.as_slice())
}

/// The pipe inside the per-user directory.
pub fn pipe_file_path(dir: &[u8]) -> (p: Vec<u8>)
    ensures
        p@ == crate::text::path_join(dir@, crate::text::ascii_bytes("remotemic.pipe"@)),
{
    join_path(dir, ascii_of("remotemic.pipe").as_slice())
}

/// The instance lock inside the per-user directory.
pub fn lock_file_path(dir: &[u8]) -> (p: Vec<u8>)
    ensures
        p@ == crate::text::path_join(dir@, crate::text::ascii_bytes("remotemic.lock"@)),
{
    join_path(dir, ascii_of("remotemic.lock").as_slice())
}

} // verus!

verus! {

/// `context` followed by `detail` without its surrounding white space, as the
/// messages about failed `pactl` runs are written.
pub fn message_with_trimmed(context: &str, detail: &str) -> (m: String)
    ensures
        m@ == context@ + crate::text::trim(detail@),
{
    let mut v = chars_of(context);
    let trimmed = trim_chars(&chars_of(detail));
    crate::text::push_all(&mut v, &trimmed);
    string_of(&v)
}

/// Why the per-user instance lock could not be taken: another instance holds
/// it, or opening or locking the file failed.
pub fn instance_lock_error(already_held: bool, path: &str, error: &str) -> (m: String)
    ensures
        m@ == if already_held {
            "RemoteMic is already running for this user"@
        } else {
            "Could not acquire instance lock "@ + path@ + ": "@ + error@
        },
{
    if already_held {
        String::from_str("RemoteMic is already running for this user")
    } else {
        let mut v = chars_of("Could not acquire instance lock ");
        push_str(&mut v, path);
        push_str(&mut v, ": ");
        push_str(&mut v, error);
        string_of(&v)
    }
}


} // verus!
