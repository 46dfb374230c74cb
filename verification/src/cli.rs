//! Command-line handling: the port option, the startup messages and the
//! choice of a listening port.
use crate::audio::{self, AudioConfig};
use crate::text::{chars_of, decimal_chars, parse_decimal, push_all, push_str, string_of};
use vstd::prelude::*;

verus! {

/// Whether an argument selects the port.
pub open spec fn is_port_flag(a: Seq<char>) -> bool {
    a == "-p"@ || a == "--port"@
}

/// The index of the first port flag among `args`.
pub open spec fn port_flag_index(args: Seq<Seq<char>>) -> Option<nat>
    decreases args.len(),
{
    if args.len() == 0 {
        None
    } else if is_port_flag(args[0]) {
        Some(0)
    } else {
        match port_flag_index(args.drop_first()) {
            Some(i) => Some(i + 1),
            None => None,
        }
    }
}

/// What the command line asks of the port: nothing, a port, or an error message.
pub open spec fn port_arg(args: Seq<Seq<char>>) -> Result<Option<nat>, Seq<char>> {
    match port_flag_index(args) {
        None => Ok(None),
        Some(i) => if i + 1 >= args.len() {
            Err("Missing value after -p/--port"@)
        } else {
            match crate::text::parse_unsigned(args[(i + 1) as int], 65535) {
                Some(port) => Ok(Some(port)),
                None => Err("Invalid port \""@ + args[(i + 1) as int] + "\": expected a number 0-65535"@),
            }
        },
    }
}

/// Reads the `-p`/`--port` option from the full argument list (program name first).
pub fn parse_port_arg(args: &Vec<String>) -> (r: Result<Option<u16>, String>)
    ensures
        match (r, port_arg(crate::audio::string_views(args@))) {
            (Ok(Some(p)), Ok(Some(q))) => p as nat == q,
            (Ok(None), Ok(None)) => true,
            (Err(m), Err(n)) => m@ == n,
            _ => false,
        },
{
    let ghost views = crate::audio::string_views(args@);
    let mut i: usize = 0;
    assert(views.skip(0) =~= views);
    while i < args.len()
        invariant
            views == crate::audio::string_views(args@),
            i <= args@.len(),
            port_flag_index(views) == match port_flag_index(views.skip(i as int)) {
                Some(k) => Some((k + i) as nat),
                None => None,
            },
        decreases args.len() - i,
    {
        let a = chars_of(args[i].as_str());
        let ghost rest = views.skip(i as int);
        assert(rest[0] == a@);
        if crate::text::chars_equal(&a, &chars_of("-p")) || crate::text::chars_equal(&a, &chars_of("--port")) {
            assert(port_flag_index(rest) == Some(0nat));
            if i + 1 >= args.len() {
                return Err(String::from_str("Missing value after -p/--port"));
            }
            let value = chars_of(args[i + 1].as_str());
            assert(value@ == views[i + 1]);
            return match parse_decimal(&value, 65535) {
                Some(port) => Ok(Some(port as u16)),
                None => {
                    let mut msg = chars_of("Invalid port \"");
                    push_all(&mut msg, &value);
                    push_str(&mut msg, "\": expected a number 0-65535");
                    Err(string_of(&msg))
                },
            };
        }
        assert(rest.drop_first() =~= views.skip(i + 1));
        i += 1;
    }
    assert(views.skip(i as int) =~= Seq::<Seq<char>>::empty());
    Ok(None)
}

/// Whether an argument selects the audio quality.
pub open spec fn is_quality_flag(a: Seq<char>) -> bool {
    a == "-q"@ || a == "--quality"@
}

/// The index of the first quality flag among `args`.
pub open spec fn quality_flag_index(args: Seq<Seq<char>>) -> Option<nat>
    decreases args.len(),
{
    if args.len() == 0 {
        None
    } else if is_quality_flag(args[0]) {
        Some(0)
    } else {
        match quality_flag_index(args.drop_first()) {
            Some(i) => Some(i + 1),
            None => None,
        }
    }
}

/// The preset a quality name selects.
pub open spec fn preset_named(name: Seq<char>) -> Option<AudioConfig> {
    if name == "low"@ {
        Some(audio::low_preset())
    } else if name == "standard"@ {
        Some(audio::standard_preset())
    } else if name == "high"@ {
        Some(audio::high_preset())
    } else {
        None
    }
}

/// What the command line asks of the quality: the standard preset when it
/// names none, the named preset, or an error message.
pub open spec fn quality_arg(args: Seq<Seq<char>>) -> Result<AudioConfig, Seq<char>> {
    match quality_flag_index(args) {
        None => Ok(audio::standard_preset()),
        Some(i) => if i + 1 >= args.len() {
            Err("Missing value after -q/--quality"@)
        } else {
            match preset_named(args[(i + 1) as int]) {
                Some(c) => Ok(c),
                None => Err("Invalid quality \""@ + args[(i + 1) as int] + "\": expected low, standard or high"@),
            }
        },
    }
}

fn preset_named_exec(name: &Vec<char>) -> (c: Option<AudioConfig>)
    ensures
        c == preset_named(name@),
{
    proof {
        reveal_strlit("low");
        reveal_strlit("standard");
        reveal_strlit("high");
    }
    if crate::text::chars_equal(name, &chars_of("low")) {
        Some(AudioConfig::low())
    } else if crate::text::chars_equal(name, &chars_of("standard")) {
        Some(AudioConfig::standard())
    } else if crate::text::chars_equal(name, &chars_of("high")) {
        Some(AudioConfig::high())
    } else {
        None
    }
}

/// Reads the `-q`/`--quality` option (`low`, `standard` or `high`) from the
/// full argument list (program name first).
pub fn parse_quality_arg(args: &Vec<String>) -> (r: Result<AudioConfig, String>)
    ensures
        match (r, quality_arg(crate::audio::string_views(args@))) {
            (Ok(c), Ok(d)) => c == d,
            (Err(m), Err(n)) => m@ == n,
            _ => false,
        },
{
    let ghost views = crate::audio::string_views(args@);
    let mut i: usize = 0;
    assert(views.skip(0) =~= views);
    while i < args.len()
        invariant
            views == crate::audio::string_views(args@),
            i <= args@.len(),
            quality_flag_index(views) == match quality_flag_index(views.skip(i as int)) {
                Some(k) => Some((k + i) as nat),
                None => None,
            },
        decreases args.len() - i,
    {
        let a = chars_of(args[i].as_str());
        let ghost rest = views.skip(i as int);
        assert(rest[0] == a@);
        if crate::text::chars_equal(&a, &chars_of("-q")) || crate::text::chars_equal(&a, &chars_of("--quality")) {
            assert(quality_flag_index(rest) == Some(0nat));
            if i + 1 >= args.len() {
                return Err(String::from_str("Missing value after -q/--quality"));
            }
            let value = chars_of(args[i + 1].as_str());
            assert(value@ == views[i + 1]);
            return match preset_named_exec(&value) {
                Some(c) => Ok(c),
                None => {
                    let mut msg = chars_of("Invalid quality \"");
                    push_all(&mut msg, &value);
                    push_str(&mut msg, "\": expected low, standard or high");
                    Err(string_of(&msg))
                },
            };
        }
        assert(rest.drop_first() =~= views.skip(i + 1));
        i += 1;
    }
    assert(views.skip(i as int) =~= Seq::<Seq<char>>::empty());
    Ok(AudioConfig::standard())
}

/// The two startup lines that tell where to open the page.
pub fn access_url_messages(port: u16) -> (lines: Vec<String>)
    ensures
        crate::audio::string_views(lines@) == seq![
            "Open http://localhost:"@ + crate::text::decimal(port as nat),
            "NOTE: Microphone access requires HTTPS on non-localhost origins. If the mic does not work, run: npx localtunnel --port "@
                + crate::text::decimal(port as nat),
        ],
{
    let digits = decimal_chars(port as u64);
    let mut first = chars_of("Open http://localhost:");
    push_all(&mut first, &digits);
    let mut second = chars_of(
        "NOTE: Microphone access requires HTTPS on non-localhost origins. If the mic does not work, run: npx localtunnel --port ",
    );
    push_all(&mut second, &digits);
    let mut lines: Vec<String> = Vec::new();
    lines.push(string_of(&first));
    lines.push(string_of(&second));
    assert(crate::audio::string_views(lines@) =~= seq![first@, second@]);
    lines
}

/// The lowest port of the dynamic range that random ports are drawn from.
pub const DYNAMIC_PORT_MIN: u16 = 49152;

/// `rand::random_range(49152..=65535)`: a random port of the dynamic range.
#[verifier::external_body]
fn random_dynamic_port() -> (p: u16)
    ensures
        DYNAMIC_PORT_MIN <= p,
{
    rand::random_range(DYNAMIC_PORT_MIN..=65535)
}

/// The port to try binding next: the requested one, or else a random port
/// of the dynamic range.
pub fn listen_port_candidate(requested: Option<u16>) -> (p: u16)
    ensures
        match requested {
            Some(r) => p == r,
            None => DYNAMIC_PORT_MIN <= p,
        },
{
    match requested {
        Some(r) => r,
        None => random_dynamic_port(),
    }
}


proof fn lemma_port_flag_index_at(args: Seq<Seq<char>>, i: int)
    requires
        0 <= i < args.len(),
        is_port_flag(args[i]),
        forall|j: int| 0 <= j < i ==> !is_port_flag(#[trigger] args[j]),
    ensures
        port_flag_index(args) == Some(i as nat),
    decreases i,
{
    if i > 0 {
        let rest = args.drop_first();
        assert(forall|j: int| 0 <= j < i - 1 ==> rest[j] == args[j + 1]);
        assert(!is_port_flag(args[0]));
        lemma_port_flag_index_at(rest, i - 1);
    }
}

proof fn lemma_no_port_flag_index(args: Seq<Seq<char>>)
    requires
        forall|j: int| 0 <= j < args.len() ==> !is_port_flag(#[trigger] args[j]),
    ensures
        port_flag_index(args) is None,
    decreases args.len(),
{
    if args.len() > 0 {
        let rest = args.drop_first();
        assert(forall|j: int| 0 <= j < rest.len() ==> rest[j] == args[j + 1]);
        assert(!is_port_flag(args[0]));
        lemma_no_port_flag_index(rest);
    }
}

/// The port comes from the argument right after the first `-p`/`--port`,
/// wherever that flag stands and whatever comes before it: a number up to
/// 65535 there is the port, anything else is refused by name, and a flag at
/// the end is missing its value.
pub proof fn lemma_port_follows_first_flag(args: Seq<Seq<char>>, i: int)
    requires
        0 <= i < args.len(),
        is_port_flag(args[i]),
        forall|j: int| 0 <= j < i ==> !is_port_flag(#[trigger] args[j]),
    ensures
        i + 1 == args.len() ==> port_arg(args) == Err::<Option<nat>, Seq<char>>("Missing value after -p/--port"@),
        i + 1 < args.len() ==> port_arg(args) == match crate::text::parse_unsigned(args[i + 1], 65535) {
            Some(port) => Ok::<Option<nat>, Seq<char>>(Some(port)),
            None => Err("Invalid port \""@ + args[i + 1] + "\": expected a number 0-65535"@),
        },
{
    lemma_port_flag_index_at(args, i);
}

/// Without a `-p`/`--port` flag, no port is asked for.
pub proof fn lemma_no_port_flag_no_port(args: Seq<Seq<char>>)
    requires
        forall|j: int| 0 <= j < args.len() ==> !is_port_flag(#[trigger] args[j]),
    ensures
        port_arg(args) == Ok::<Option<nat>, Seq<char>>(None),
{
    lemma_no_port_flag_index(args);
}

proof fn lemma_port_flag_index_in_bounds(args: Seq<Seq<char>>)
    ensures
        port_flag_index(args) matches Some(k) ==> k < args.len(),
    decreases args.len(),
{
    if args.len() > 0 {
        lemma_port_flag_index_in_bounds(args.drop_first());
    }
}

/// An argument that is not a port flag, put in front, changes nothing about the port.
pub proof fn lemma_port_ignores_other_arguments(a: Seq<char>, args: Seq<Seq<char>>)
    requires
        !is_port_flag(a),
    ensures
        port_arg(seq![a] + args) == port_arg(args),
{
    let all = seq![a] + args;
    assert(all.drop_first() =~= args);
    assert(all[0] == a);
    lemma_port_flag_index_in_bounds(args);
    match port_flag_index(args) {
        Some(k) => {
            assert(all[k + 1 as int] == args[k as int]);
            if k + 1 < args.len() {
                assert(all[k + 2 as int] == args[k + 1 as int]);
            }
        },
        None => {},
    }
}

proof fn lemma_quality_flag_index_at(args: Seq<Seq<char>>, i: int)
    requires
        0 <= i < args.len(),
        is_quality_flag(args[i]),
        forall|j: int| 0 <= j < i ==> !is_quality_flag(#[trigger] args[j]),
    ensures
        quality_flag_index(args) == Some(i as nat),
    decreases i,
{
    if i > 0 {
        let rest = args.drop_first();
        assert(forall|j: int| 0 <= j < i - 1 ==> rest[j] == args[j + 1]);
        assert(!is_quality_flag(args[0]));
        lemma_quality_flag_index_at(rest, i - 1);
    }
}

proof fn lemma_no_quality_flag_index(args: Seq<Seq<char>>)
    requires
        forall|j: int| 0 <= j < args.len() ==> !is_quality_flag(#[trigger] args[j]),
    ensures
        quality_flag_index(args) is None,
    decreases args.len(),
{
    if args.len() > 0 {
        let rest = args.drop_first();
        assert(forall|j: int| 0 <= j < rest.len() ==> rest[j] == args[j + 1]);
        assert(!is_quality_flag(args[0]));
        lemma_no_quality_flag_index(rest);
    }
}

/// The quality comes from the argument right after the first
/// `-q`/`--quality`, wherever that flag stands: `low`, `standard` or `high`
/// selects that preset, anything else is refused by name, and a flag at the
/// end is missing its value. Without the flag the standard preset is used.
pub proof fn lemma_quality_follows_first_flag(args: Seq<Seq<char>>, i: int)
    requires
        0 <= i < args.len(),
        is_quality_flag(args[i]),
        forall|j: int| 0 <= j < i ==> !is_quality_flag(#[trigger] args[j]),
    ensures
        i + 1 == args.len() ==> quality_arg(args) == Err::<AudioConfig, Seq<char>>("Missing value after -q/--quality"@),
        i + 1 < args.len() && args[i + 1] == "low"@ ==> quality_arg(args) == Ok::<AudioConfig, Seq<char>>(audio::low_preset()),
        i + 1 < args.len() && args[i + 1] == "standard"@ ==> quality_arg(args) == Ok::<AudioConfig, Seq<char>>(audio::standard_preset()),
        i + 1 < args.len() && args[i + 1] == "high"@ ==> quality_arg(args) == Ok::<AudioConfig, Seq<char>>(audio::high_preset()),
        i + 1 < args.len() && args[i + 1] != "low"@ && args[i + 1] != "standard"@ && args[i + 1] != "high"@
            ==> quality_arg(args) == Err::<AudioConfig, Seq<char>>(
            "Invalid quality \""@ + args[i + 1] + "\": expected low, standard or high"@,
        ),
{
    reveal_strlit("low");
    reveal_strlit("standard");
    reveal_strlit("high");
    assert("standard"@.len() != "low"@.len());
    assert("high"@.len() != "low"@.len());
    assert("high"@.len() != "standard"@.len());
    lemma_quality_flag_index_at(args, i);
}

/// Without a `-q`/`--quality` flag, the standard preset is used.
pub proof fn lemma_no_quality_flag_standard(args: Seq<Seq<char>>)
    requires
        forall|j: int| 0 <= j < args.len() ==> !is_quality_flag(#[trigger] args[j]),
    ensures
        quality_arg(args) == Ok::<AudioConfig, Seq<char>>(audio::standard_preset()),
{
    lemma_no_quality_flag_index(args);
}

} // verus!
