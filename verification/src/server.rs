//! Server-side decisions: the rendered page, the token check, the session
//! token, peer-connection states and the ICE listening addresses.
use crate::audio::AudioConfig;
use crate::text::{
    chars_of, decimal_chars, digit, hex_padded_chars, push_all, push_str, replace_chars, skip_chars,
    split_on, starts_with, string_of,
};
use vstd::prelude::*;

verus! {

/// The whole page template.
pub open spec fn page_template() -> Seq<char> {
    crate::page::PAGE_PART_1@ + crate::page::PAGE_PART_2@ + crate::page::PAGE_PART_3@ + crate::page::PAGE_PART_4@ + crate::page::PAGE_PART_5@ + crate::page::PAGE_PART_6@ + crate::page::PAGE_PART_7@ + crate::page::PAGE_PART_8@ + crate::page::PAGE_PART_9@ + crate::page::PAGE_PART_10@
}

fn page_template_chars() -> (v: Vec<char>)
    ensures
        v@ == page_template(),
{
    let mut v: Vec<char> = Vec::new();
    push_str(&mut v, crate::page::PAGE_PART_1);
    push_str(&mut v, crate::page::PAGE_PART_2);
    push_str(&mut v, crate::page::PAGE_PART_3);
    push_str(&mut v, crate::page::PAGE_PART_4);
    push_str(&mut v, crate::page::PAGE_PART_5);
    push_str(&mut v, crate::page::PAGE_PART_6);
    push_str(&mut v, crate::page::PAGE_PART_7);
    push_str(&mut v, crate::page::PAGE_PART_8);
    push_str(&mut v, crate::page::PAGE_PART_9);
    push_str(&mut v, crate::page::PAGE_PART_10);
    v
}

/// 2 to the power `k`.
pub open spec fn pow2(k: nat) -> nat
    decreases k,
{
    if k == 0 {
        1
    } else {
        2 * pow2((k - 1) as nat)
    }
}

/// The exponent `k >= from` that puts `x * 2^k` into `[2^52 * 1000, 2^53 * 1000)`:
/// where the 53-bit significand of the binary64 value nearest `x / 1000` ends.
pub open spec fn significand_shift(x: nat, from: nat) -> nat
    decreases 64 - from,
{
    if from >= 64 || x * pow2(from) >= pow2(52) * 1000 {
        from
    } else {
        significand_shift(x, from + 1)
    }
}

/// Whether the binary64 value nearest `x / 1000` (round half to even) lies above it.
pub open spec fn quotient_rounds_up(x: nat) -> bool {
    let scaled = x * pow2(significand_shift(x, 0));
    let r = scaled % 1000;
    2 * r > 1000 || (2 * r == 1000 && (scaled / 1000) % 2 == 1)
}

/// `x / 1000` rendered with one decimal, as Rust's `{:.1}` renders the binary64
/// quotient `x as f64 / 1000.0`, in tenths. Away from a midpoint the tenth is the
/// nearest one; at a midpoint that binary64 represents exactly (`x` a multiple of
/// 125) the even tenth is taken; at any other midpoint the binary64 value lies
/// above or below the midpoint and decides.
pub open spec fn khz_tenths(x: nat) -> nat {
    let base = x / 100;
    let rem = x % 100;
    if rem < 50 {
        base
    } else if rem > 50 {
        base + 1
    } else if x % 125 == 0 {
        if base % 2 == 0 {
            base
        } else {
            base + 1
        }
    } else if quotient_rounds_up(x) {
        base + 1
    } else {
        base
    }
}

/// The sample rate in kHz: whole kHz without decimals, otherwise with one decimal.
pub open spec fn sample_rate_text(rate: nat) -> Seq<char> {
    if rate % 1000 == 0 {
        crate::text::decimal(rate / 1000) + " kHz"@
    } else {
        let t = khz_tenths(rate);
        crate::text::decimal(t / 10) + "."@ + seq![crate::text::digit_char(t % 10)] + " kHz"@
    }
}


fn quotient_rounds_up_exec(x: u32) -> (b: bool)
    requires
        x > 0,
    ensures
        b == quotient_rounds_up(x as nat),
{
    let limit: u64 = 4503599627370496000;
    assert(pow2(52) * 1000 == 4503599627370496000) by {
        reveal_with_fuel(pow2, 53);
    }
    let mut v: u64 = x as u64;
    let mut k: u64 = 0;
    assert(pow2(0) == 1);
    assert(v == x * pow2(0));
    while k < 64 && v < limit
        invariant
            x > 0,
            k <= 64,
            v == x * pow2(k as nat),
            limit == pow2(52) * 1000,
            limit == 4503599627370496000u64,
            significand_shift(x as nat, 0) == significand_shift(x as nat, k as nat),
        decreases 64 - k,
    {
        assert(pow2((k + 1) as nat) == 2 * pow2(k as nat));
        assert(x * (2 * pow2(k as nat)) == 2 * (x * pow2(k as nat))) by (nonlinear_arith);
        v = v * 2;
        k = k + 1;
    }
    assert(significand_shift(x as nat, k as nat) == k);
    let r = v % 1000;
    let m = v / 1000;
    2 * r > 1000 || (2 * r == 1000 && m % 2 == 1)
}

/// `x / 1000` in tenths, rounded as `{:.1}` rounds the binary64 quotient.
fn khz_tenths_exec(x: u32) -> (t: u32)
    ensures
        t == khz_tenths(x as nat),
{
    let base = x / 100;
    let rem = x % 100;
    if rem < 50 {
        base
    } else if rem > 50 {
        base + 1
    } else if x % 125 == 0 {
        if base % 2 == 0 {
            base
        } else {
            base + 1
        }
    } else if quotient_rounds_up_exec(x) {
        base + 1
    } else {
        base
    }
}

/// The sample rate in kHz, as shown on the page: "48 kHz", "44.1 kHz".
pub fn sample_rate_label(sample_rate: u32) -> (label: String)
    ensures
        label@ == sample_rate_text(sample_rate as nat),
{
    let mut v: Vec<char> = Vec::new();
    if sample_rate % 1000 == 0 {
        v = decimal_chars((sample_rate / 1000) as u64);
    } else {
        let t = khz_tenths_exec(sample_rate);
        v = decimal_chars((t / 10) as u64);
        push_str(&mut v, ".");
        v.push(digit((t % 10) as u64));
    }
    push_str(&mut v, " kHz");
    string_of(&v)
}


/// The quality summary shown on the page, e.g. "48 kHz · 32-bit float · mono · Opus 192 kb/s".
pub open spec fn quality_text(c: AudioConfig) -> Seq<char> {
    sample_rate_text(c.sample_rate as nat) + " · "@ + crate::audio::display_name_of(c.sample_format)
        + " · mono · Opus "@ + crate::text::decimal((c.opus_bitrate / 1000) as nat) + " kb/s"@
}

/// The page with its placeholders filled in, in order: the token, the quality
/// summary, then the Opus bitrate.
pub open spec fn rendered_page(token: Seq<char>, c: AudioConfig) -> Seq<char> {
    crate::text::replace_all(
        crate::text::replace_all(
            crate::text::replace_all(page_template(), "__REMOTEMIC_TOKEN__"@, token),
            "__REMOTEMIC_QUALITY__"@,
            quality_text(c),
        ),
        "__REMOTEMIC_OPUS_BITRATE__"@,
        crate::text::decimal(c.opus_bitrate as nat),
    )
}

fn quality_chars(c: AudioConfig) -> (v: Vec<char>)
    ensures
        v@ == quality_text(c),
{
    let label = sample_rate_label(c.sample_rate);
    let mut v = chars_of(label.as_str());
    push_str(&mut v, " · ");
    push_str(&mut v, c.sample_format.display_name());
    push_str(&mut v, " · mono · Opus ");
    let kbps = decimal_chars((c.opus_bitrate / 1000) as u64);
    push_all(&mut v, &kbps);
    push_str(&mut v, " kb/s");
    v
}

/// The page for a session token and quality preset.
pub fn render_page(token: &str, audio_config: AudioConfig) -> (html: String)
    ensures
        html@ == rendered_page(token@, audio_config),
{
    proof {
        reveal_strlit("__REMOTEMIC_TOKEN__");
        reveal_strlit("__REMOTEMIC_QUALITY__");
        reveal_strlit("__REMOTEMIC_OPUS_BITRATE__");
    }
    let template = page_template_chars();
    let with_token = replace_chars(&template, &chars_of("__REMOTEMIC_TOKEN__"), &chars_of(token));
    let with_quality = replace_chars(
        &with_token,
        &chars_of("__REMOTEMIC_QUALITY__"),
        &quality_chars(audio_config),
    );
    let bitrate = decimal_chars(audio_config.opus_bitrate as u64);
    let html = replace_chars(&with_quality, &chars_of("__REMOTEMIC_OPUS_BITRATE__"), &bitrate);
    string_of(&html)
}


/// Compares two byte strings in time that depends only on their lengths:
/// every byte pair is inspected, and the differences are combined.
pub fn constant_time_eq(left: &[u8], right: &[u8]) -> (equal: bool)
    ensures
        equal == (left@ == right@),
{
    if left.len() != right.len() {
        return false;
    }
    let mut diff: u8 = 0;
    let mut i: usize = 0;
    while i < left.len()
        invariant
            left@.len() == right@.len(),
            i <= left@.len(),
            (diff == 0) == (forall|j: int| 0 <= j < i ==> left@[j] == right@[j]),
        decreases left.len() - i,
    {
        let a = left[i];
        let b = right[i];
        let next = diff | (a ^ b);
        assert((next == 0) == (diff == 0 && a == b)) by (bit_vector)
            requires
                next == diff | (a ^ b),
        ;
        diff = next;
        i += 1;
    }
    if diff == 0 {
        assert(left@ =~= right@);
    }
    diff == 0
}

/// The value of the first `&`-separated piece that starts with `token=`.
pub open spec fn first_token(ps: Seq<Seq<char>>) -> Option<Seq<char>>
    decreases ps.len(),
{
    if ps.len() == 0 {
        None
    } else if ps[0].len() >= 6 && ps[0].take(6) == "token="@ {
        Some(ps[0].skip(6))
    } else {
        first_token(ps.drop_first())
    }
}

/// The token a WebSocket query string carries.
pub open spec fn query_token(query: Seq<char>) -> Option<Seq<char>> {
    first_token(crate::text::pieces(query, '&'))
}

/// The token of a query string: the value of the first `&`-separated piece
/// that starts with `token=`.
pub fn query_token_of(query: &str) -> (token: Option<String>)
    ensures
        match token {
            Some(t) => query_token(query@) == Some(t@),
            None => query_token(query@) is None,
        },
{
    proof {
        reveal_strlit("token=");
    }
    let ps = split_on(&chars_of(query), '&');
    let ghost all = crate::text::views(ps@);
    let prefix = chars_of("token=");
    let mut i: usize = 0;
    assert(all.skip(0) =~= all);
    while i < ps.len()
        invariant
            all == crate::text::views(ps@),
            all == crate::text::pieces(query@, '&'),
            i <= ps@.len(),
            prefix@ == "token="@,
            prefix@.len() == 6,
            first_token(all) == first_token(all.skip(i as int)),
        decreases ps.len() - i,
    {
        let ghost rest = all.skip(i as int);
        assert(rest.len() > 0);
        assert(rest[0] == ps@[i as int]@);
        if starts_with(&ps[i], &prefix) {
            let value = skip_chars(&ps[i], 6);
            assert(first_token(rest) == Some(rest[0].skip(6)));
            return Some(string_of(&value));
        }
        assert(rest.drop_first() =~= all.skip(i + 1));
        i += 1;
    }
    assert(all.skip(i as int) =~= Seq::<Seq<char>>::empty());
    None
}

/// Whether a WebSocket upgrade request is allowed: its query string carries
/// exactly the session token.
pub fn is_authorized(query: Option<&str>, token: &str) -> (ok: bool)
    ensures
        ok == match query {
            Some(q) => query_token(q@) == Some(token@),
            None => false,
        },
{
    match query {
        None => false,
        Some(q) => match query_token_of(q) {
            None => false,
            Some(t) => {
                let given = t.as_str().as_bytes();
                let expected = token.as_bytes();
                let ok = constant_time_eq(given, expected);
                proof {
                    vstd::utf8::encode_utf8_decode_utf8(t@);
                    vstd::utf8::encode_utf8_decode_utf8(token@);
                }
                ok
            },
        },
    }
}

/// A random 64-bit number from `rand`'s thread-local generator.
#[verifier::external_body]
fn random_u64() -> u64 {
    rand::random::<u64>()
}

/// The session token for two 64-bit numbers: each as 16 lowercase hexadecimal digits.
pub fn session_token_from(high: u64, low: u64) -> (token: String)
    ensures
        token@ == crate::text::hex_padded(high as nat, 16) + crate::text::hex_padded(low as nat, 16),
{
    let mut v = hex_padded_chars(high, 16);
    let low_digits = hex_padded_chars(low, 16);
    push_all(&mut v, &low_digits);
    string_of(&v)
}

/// A fresh random session token of 32 lowercase hexadecimal digits.
pub fn new_session_token() -> (token: String)
    ensures
        exists|high: u64, low: u64| token@ == crate::text::hex_padded(high as nat, 16)
            + crate::text::hex_padded(low as nat, 16),
{
    let high = random_u64();
    let low = random_u64();
    session_token_from(high, low)
}


/// The state of a WebRTC peer connection, as the peer reports it.
#[derive(Clone, Copy, Debug, PartialEq, Eq, Structural)]
pub enum PeerState {
    Unspecified,
    New,
    Connecting,
    Connected,
    Disconnected,
    Failed,
    Closed,
}

/// What waiting for a connection makes of `state`: done, failed with a
/// message, or (`None`) keep waiting for the next state.
pub fn connection_wait_result(state: PeerState) -> (r: Option<Result<(), &'static str>>)
    ensures
        match state {
            PeerState::Connected => r == Some(Ok::<(), &'static str>(())),
            PeerState::Failed => r matches Some(Err(m)) && m@ == "WebRTC connection failed"@,
            PeerState::Closed => r matches Some(Err(m)) && m@ == "WebRTC connection closed"@,
            _ => r is None,
        },
{
    match state {
        PeerState::Connected => Some(Ok(())),
        PeerState::Failed => Some(Err("WebRTC connection failed")),
        PeerState::Closed => Some(Err("WebRTC connection closed")),
        _ => None,
    }
}

/// Whether entering `state` ends the session and frees the streaming slot.
pub fn releases_session(state: PeerState) -> (b: bool)
    ensures
        b == (state == PeerState::Failed || state == PeerState::Closed),
{
    match state {
        PeerState::Failed | PeerState::Closed => true,
        _ => false,
    }
}

/// How an established session reacts to a peer state change.
#[derive(Clone, Copy, Debug, PartialEq, Eq, Structural)]
pub enum SignalingReaction {
    /// Wait, for a bounded time, for the peer to connect again.
    AwaitReconnect,
    /// End the session.
    End,
    /// Carry on.
    Continue,
}

/// The reaction of an established session to the peer entering `state`.
pub fn signaling_reaction(state: PeerState) -> (r: SignalingReaction)
    ensures
        r == match state {
            PeerState::Disconnected => SignalingReaction::AwaitReconnect,
            PeerState::Failed | PeerState::Closed => SignalingReaction::End,
            _ => SignalingReaction::Continue,
        },
{
    match state {
        PeerState::Disconnected => SignalingReaction::AwaitReconnect,
        PeerState::Failed | PeerState::Closed => SignalingReaction::End,
        _ => SignalingReaction::Continue,
    }
}

} // verus!

verus! {

proof fn lemma_no_separator_one_piece(s: Seq<char>, sep: char)
    requires
        !s.contains(sep),
    ensures
        crate::text::piece_scan(s, sep) == (Seq::<Seq<char>>::empty(), s),
    decreases s.len(),
{
    if s.len() > 0 {
        assert(!s.drop_last().contains(sep)) by {
            if s.drop_last().contains(sep) {
                let k = choose|k: int| 0 <= k < s.drop_last().len() && s.drop_last()[k] == sep;
                assert(s[k] == sep);
            }
        }
        lemma_no_separator_one_piece(s.drop_last(), sep);
        assert(s.last() != sep) by {
            assert(s[s.len() - 1] == s.last());
        }
        assert(s.drop_last().push(s.last()) =~= s);
    }
}

/// The token the page embeds, sent back as the query `token=<token>`, is
/// accepted: a session token never holds `&`, and the query then carries
/// exactly it. (Any other token is refused, by `is_authorized`'s contract.)
pub proof fn lemma_page_token_authorizes(token: Seq<char>)
    requires
        !token.contains('&'),
    ensures
        query_token("token="@ + token) == Some(token),
{
    reveal_strlit("token=");
    let q = "token="@ + token;
    assert(!q.contains('&')) by {
        if q.contains('&') {
            let k = choose|k: int| 0 <= k < q.len() && q[k] == '&';
            if k >= 6 {
                assert(token[k - 6] == '&');
            }
        }
    }
    lemma_no_separator_one_piece(q, '&');
    let ps = crate::text::pieces(q, '&');
    assert(ps =~= seq![q]);
    assert(q.take(6) =~= "token="@);
    assert(q.skip(6) =~= token);
}

/// A session token (hexadecimal digits) never holds `&`.
pub proof fn lemma_session_token_has_no_ampersand(high: u64, low: u64)
    ensures
        !(crate::text::hex_padded(high as nat, 16) + crate::text::hex_padded(low as nat, 16)).contains('&'),
{
    lemma_hex_padded_is_hex(high as nat, 16);
    lemma_hex_padded_is_hex(low as nat, 16);
    let t = crate::text::hex_padded(high as nat, 16) + crate::text::hex_padded(low as nat, 16);
    assert forall|i: int| 0 <= i < t.len() implies t[i] != '&' by {
        if i < 16 {
            assert(t[i] == crate::text::hex_padded(high as nat, 16)[i]);
        } else {
            assert(t[i] == crate::text::hex_padded(low as nat, 16)[i - 16]);
        }
    }
}

proof fn lemma_hex_padded_is_hex(n: nat, width: nat)
    ensures
        crate::text::hex_padded(n, width).len() == width,
        forall|i: int| 0 <= i < width ==> ('0' <= #[trigger] crate::text::hex_padded(n, width)[i] <= '9')
            || ('a' <= crate::text::hex_padded(n, width)[i] <= 'f'),
    decreases width,
{
    if width > 0 {
        lemma_hex_padded_is_hex(n / 16, (width - 1) as nat);
        let d = n % 16;
        assert(('0' <= crate::text::hex_digit_char(d) <= '9') || ('a' <= crate::text::hex_digit_char(d) <= 'f'));
    }
}

} // verus!

verus! {

/// Every token `session_token_from` builds is accepted when the page sends it back.
pub proof fn lemma_session_token_authorizes(high: u64, low: u64)
    ensures
        ({
            let t = crate::text::hex_padded(high as nat, 16) + crate::text::hex_padded(low as nat, 16);
            query_token("token="@ + t) == Some(t)
        }),
{
    lemma_session_token_has_no_ampersand(high, low);
    lemma_page_token_authorizes(crate::text::hex_padded(high as nat, 16) + crate::text::hex_padded(low as nat, 16));
}

} // verus!
