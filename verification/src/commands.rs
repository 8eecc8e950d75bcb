use vstd::prelude::*;
use vstd::utf8::{decode_utf8, encode_utf8, valid_utf8};

use crate::config::{CliError, ConfigPathMode};
use crate::peer::{valid_uuid, PeerGrant, Permissions};
use crate::text::{
    all_digits, chars_of, decimal, decimal_chars, is_digit, is_white_space, lemma_decimal_digits,
    lemma_parse_decimal, parse_u64, parse_u64_chars, push_chars, sub_chars, trim, trim_chars,
};

verus! {

/// The subcommands of the command-line tool.
#[derive(Debug, Clone)]
pub enum Command {
    /// Guided onboarding flow (TUI).
    Onboard,
    /// Initialize a new TT-Sync instance.
    Init { path: String, layout: String, public_url: String, listen: String },
    /// Start the synchronization server.
    Serve,
    /// Windows-only hidden background server entrypoint.
    BackgroundServe,
    /// Manage device pairing.
    Pair { action: PairAction },
    /// Manage paired peers.
    Peers { action: PeersAction },
    /// Check system health and configuration.
    Doctor,
    /// Manage TLS certificates.
    Cert { action: CertAction },
}

/// What `pair` does.
#[derive(Debug, Clone)]
pub enum PairAction {
    /// Generate a one-time pairing token.
    Open { expires: String, rw: bool, ro: bool, mirror: bool, json: bool },
}

/// What `peers` does.
#[derive(Debug, Clone)]
pub enum PeersAction {
    /// List all paired peers.
    List { json: bool },
    /// Revoke a paired peer by device ID or name.
    Revoke { peer: String },
}

/// What `cert` does.
#[derive(Debug, Clone, Copy, PartialEq, Eq, Structural)]
pub enum CertAction {
    /// Show TLS certificate information and SPKI fingerprint.
    Show,
    /// Rotate the leaf certificate (re-signs with same key; preserves SPKI pin).
    RotateLeaf,
}

impl Command {
    /// Onboarding runs the terminal interface, which ignores a config file
    /// given on the command line; every other subcommand honours it.
    pub fn config_path_mode(&self) -> (m: ConfigPathMode)
        ensures
            m == (if self is Onboard {
                ConfigPathMode::Tui
            } else {
                ConfigPathMode::Cli
            }),
    {
        match self {
            Command::Onboard => ConfigPathMode::Tui,
            _ => ConfigPathMode::Cli,
        }
    }
}

/// How many characters at the start of `s` are ASCII digits.
pub open spec fn digit_prefix_len(s: Seq<char>) -> nat
    decreases s.len(),
{
    if s.len() > 0 && is_digit(s[0]) {
        1 + digit_prefix_len(s.drop_first())
    } else {
        0
    }
}

/// The seconds that a duration unit stands for: `s`, `sec` or nothing for
/// seconds, `m` or `min` for minutes, `h`, `hr` or `hour` for hours.
pub open spec fn duration_unit_factor(u: Seq<char>) -> Option<u64> {
    if u == "s"@ || u == "sec"@ || u == ""@ {
        Some(1)
    } else if u == "m"@ || u == "min"@ {
        Some(60)
    } else if u == "h"@ || u == "hr"@ || u == "hour"@ {
        Some(3600)
    } else {
        None
    }
}

/// The number of a duration: the digits at the start of the trimmed text.
pub open spec fn duration_number(s: Seq<char>) -> Option<u64> {
    let t = trim(s);
    parse_u64(t.take(digit_prefix_len(t) as int))
}

/// The unit of a duration: what follows the digits, trimmed.
pub open spec fn duration_unit(s: Seq<char>) -> Seq<char> {
    let t = trim(s);
    trim(t.skip(digit_prefix_len(t) as int))
}

/// The number of seconds of a duration fits in a `u64`, where the text is one.
pub open spec fn duration_fits(s: Seq<char>) -> bool {
    match (duration_number(s), duration_unit_factor(duration_unit(s))) {
        (Some(n), Some(f)) => n * f <= u64::MAX,
        _ => true,
    }
}

proof fn lemma_digit_prefix_bound(s: Seq<char>)
    ensures
        digit_prefix_len(s) <= s.len(),
        forall|i: int| 0 <= i < digit_prefix_len(s) ==> is_digit(#[trigger] s[i]),
        digit_prefix_len(s) < s.len() ==> !is_digit(s[digit_prefix_len(s) as int]),
    decreases s.len(),
{
    if s.len() > 0 && is_digit(s[0]) {
        lemma_digit_prefix_bound(s.drop_first());
        assert forall|i: int| 0 <= i < digit_prefix_len(s) implies is_digit(#[trigger] s[i]) by {
            if i > 0 {
                assert(s[i] == s.drop_first()[i - 1]);
            }
        }
    }
}

fn digit_prefix(cs: &[char]) -> (k: usize)
    ensures
        k == digit_prefix_len(cs@),
{
    let mut i: usize = 0;
    assert(cs@.skip(0) =~= cs@);
    while i < cs.len() && '0' <= cs[i] && cs[i] <= '9'
        invariant
            i <= cs@.len(),
            digit_prefix_len(cs@) == i + digit_prefix_len(cs@.skip(i as int)),
        decreases cs@.len() - i,
    {
        assert(cs@.skip(i as int).drop_first() =~= cs@.skip(i + 1));
        i = i + 1;
    }
    i
}

fn unit_factor(u: &[char]) -> (r: Option<u64>)
    ensures
        r == duration_unit_factor(u@),
{
    let n = u.len();
    proof {
        reveal_strlit("s");
        reveal_strlit("sec");
        reveal_strlit("");
        reveal_strlit("m");
        reveal_strlit("min");
        reveal_strlit("h");
        reveal_strlit("hr");
        reveal_strlit("hour");
    }
    if n == 0 {
        assert(u@ =~= ""@);
        return Some(1);
    }
    if n == 1 {
        if u[0] == 's' {
            assert(u@ =~= "s"@);
            return Some(1);
        }
        if u[0] == 'm' {
            assert(u@ =~= "m"@);
            return Some(60);
        }
        if u[0] == 'h' {
            assert(u@ =~= "h"@);
            return Some(3600);
        }
        return None;
    }
    if n == 2 {
        if u[0] == 'h' && u[1] == 'r' {
            assert(u@ =~= "hr"@);
            return Some(3600);
        }
        return None;
    }
    if n == 3 {
        if u[0] == 's' && u[1] == 'e' && u[2] == 'c' {
            assert(u@ =~= "sec"@);
            return Some(1);
        }
        if u[0] == 'm' && u[1] == 'i' && u[2] == 'n' {
            assert(u@ =~= "min"@);
            return Some(60);
        }
        return None;
    }
    if n == 4 {
        if u[0] == 'h' && u[1] == 'o' && u[2] == 'u' && u[3] == 'r' {
            assert(u@ =~= "hour"@);
            return Some(3600);
        }
    }
    None
}

proof fn lemma_fits_by_division(n: int, f: int, m: int)
    requires
        0 <= n,
        0 < f,
        0 <= m,
    ensures
        (n <= m / f) <==> (n * f <= m),
{
    let q = m / f;
    assert(q * f <= m && m < q * f + f) by (nonlinear_arith)
        requires
            0 < f,
            0 <= m,
            q == m / f,
    ;
    if n <= q {
        assert(n * f <= q * f) by (nonlinear_arith)
            requires
                n <= q,
                0 < f,
        ;
    } else {
        assert(n * f >= q * f + f) by (nonlinear_arith)
            requires
                n >= q + 1,
                0 < f,
        ;
    }
}

/// Whether `parse_duration` can give the number of seconds of `s`: false only
/// for a duration whose seconds do not fit in a `u64`.
pub fn duration_in_range(s: &str) -> (b: bool)
    ensures
        b == duration_fits(s@),
{
    let cs = chars_of(s);
    let t = trim_chars(cs.as_slice());
    let k = digit_prefix(t.as_slice());
    proof {
        lemma_digit_prefix_bound(t@);
    }
    let num = sub_chars(t.as_slice(), 0, k);
    let rest = sub_chars(t.as_slice(), k, t.len());
    assert(num@ =~= t@.take(k as int));
    assert(rest@ =~= t@.skip(k as int));
    let unit = trim_chars(rest.as_slice());
    match (parse_u64_chars(num.as_slice()), unit_factor(unit.as_slice())) {
        (Some(n), Some(f)) => {
            proof {
                lemma_fits_by_division(n as int, f as int, u64::MAX as int);
            }
            n <= u64::MAX / f
        },
        _ => true,
    }
}

/// Reads a duration such as `5m`, `1h` or `30s` as a number of seconds: the
/// text is trimmed, its leading digits give the number and the rest, trimmed,
/// the unit.
pub fn parse_duration(s: &str) -> (r: Result<u64, CliError>)
    requires
        duration_fits(s@),
    ensures
        match duration_number(s@) {
            None => r matches Err(e) && e.is_config("invalid duration: "@ + trim(s@)),
            Some(n) => match duration_unit_factor(duration_unit(s@)) {
                None => r matches Err(e) && e.is_config(
                    "unknown duration unit: "@ + duration_unit(s@),
                ),
                Some(f) => r == Ok::<u64, CliError>((n * f) as u64),
            },
        },
{
    let cs = chars_of(s);
    let t = trim_chars(cs.as_slice());
    let k = digit_prefix(t.as_slice());
    proof {
        lemma_digit_prefix_bound(t@);
    }
    let num = sub_chars(t.as_slice(), 0, k);
    let rest = sub_chars(t.as_slice(), k, t.len());
    assert(num@ =~= t@.take(k as int));
    assert(rest@ =~= t@.skip(k as int));
    let n = match parse_u64_chars(num.as_slice()) {
        Some(n) => n,
        None => {
            let mut m = "invalid duration: ".to_string();
            push_chars(&mut m, t.as_slice());
            return Err(CliError::Config(m));
        },
    };
    let unit = trim_chars(rest.as_slice());
    let f = match unit_factor(unit.as_slice()) {
        Some(f) => f,
        None => {
            let mut m = "unknown duration unit: ".to_string();
            push_chars(&mut m, unit.as_slice());
            return Err(CliError::Config(m));
        },
    };
    Ok(n * f)
}

proof fn lemma_digits_prefix_len(d: Seq<char>, u: Seq<char>)
    requires
        all_digits(d),
        u.len() == 0 || !is_digit(u[0]),
    ensures
        digit_prefix_len(d + u) == d.len(),
    decreases d.len(),
{
    if d.len() == 0 {
        assert(d + u =~= u);
    } else {
        assert((d + u).drop_first() =~= d.drop_first() + u);
        assert(is_digit(d[0]));
        lemma_digits_prefix_len(d.drop_first(), u);
    }
}

proof fn lemma_trim_plain(s: Seq<char>)
    requires
        s.len() == 0 || (!is_white_space(s[0]) && !is_white_space(s.last())),
    ensures
        trim(s) == s,
{
}

/// A unit written after a number: nothing, or a text that starts with no
/// digit and neither starts nor ends with white space.
pub open spec fn plain_unit(u: Seq<char>) -> bool {
    u.len() == 0 || (!is_digit(u[0]) && !is_white_space(u[0]) && !is_white_space(u.last()))
}

/// A number in decimal followed by a unit reads as that number, with that
/// unit.
pub proof fn lemma_duration_parts(n: u64, u: Seq<char>)
    requires
        plain_unit(u),
    ensures
        duration_number(decimal(n as nat) + u) == Some(n),
        duration_unit(decimal(n as nat) + u) == u,
{
    let d = decimal(n as nat);
    let t = d + u;
    lemma_decimal_digits(n as nat);
    assert(is_digit(d[0]));
    assert(is_digit(t[0]));
    if u.len() == 0 {
        assert(t.last() == d.last());
        assert(is_digit(d[d.len() - 1]));
    } else {
        assert(t.last() == u.last());
    }
    lemma_trim_plain(t);
    lemma_digits_prefix_len(d, u);
    assert(t.take(d.len() as int) =~= d);
    assert(t.skip(d.len() as int) =~= u);
    lemma_parse_decimal(n);
    lemma_trim_plain(u);
}

/// Durations read as seconds, minutes or hours by their unit: for every
/// number `n`, `n`, `ns` and `nsec` are `n` seconds, `nm` and `nmin` are
/// `n` minutes, and `nh`, `nhr` and `nhour` are `n` hours; no other unit
/// is known.
pub proof fn lemma_duration_units(n: u64)
    ensures
        forall|u: Seq<char>|
            #![trigger duration_number(decimal(n as nat) + u)]
            u == "s"@ || u == "sec"@ || u == ""@ ==> duration_number(decimal(n as nat) + u) == Some(n)
                && duration_unit_factor(duration_unit(decimal(n as nat) + u)) == Some(1u64),
        forall|u: Seq<char>|
            #![trigger duration_number(decimal(n as nat) + u)]
            u == "m"@ || u == "min"@ ==> duration_number(decimal(n as nat) + u) == Some(n)
                && duration_unit_factor(duration_unit(decimal(n as nat) + u)) == Some(60u64),
        forall|u: Seq<char>|
            #![trigger duration_number(decimal(n as nat) + u)]
            u == "h"@ || u == "hr"@ || u == "hour"@ ==> duration_number(decimal(n as nat) + u) == Some(n)
                && duration_unit_factor(duration_unit(decimal(n as nat) + u)) == Some(3600u64),
        duration_fits(decimal(n as nat) + "s"@),
        forall|u: Seq<char>|
            !(u == "s"@ || u == "sec"@ || u == ""@ || u == "m"@ || u == "min"@ || u == "h"@ || u == "hr"@ || u
                == "hour"@) ==> #[trigger] duration_unit_factor(u) is None,
{
    reveal_strlit("s");
    reveal_strlit("sec");
    reveal_strlit("");
    reveal_strlit("m");
    reveal_strlit("min");
    reveal_strlit("h");
    reveal_strlit("hr");
    reveal_strlit("hour");
    lemma_duration_parts(n, "s"@);
    lemma_duration_parts(n, "sec"@);
    lemma_duration_parts(n, ""@);
    lemma_duration_parts(n, "m"@);
    lemma_duration_parts(n, "min"@);
    lemma_duration_parts(n, "h"@);
    lemma_duration_parts(n, "hr"@);
    lemma_duration_parts(n, "hour"@);
    assert("m"@[0] != "s"@[0]);
    assert("h"@[0] != "s"@[0] && "h"@[0] != "m"@[0]);
    assert("min"@[0] != "sec"@[0]);
    assert("hr"@.len() == 2 && "hour"@.len() == 4);
    assert(duration_unit_factor("m"@) == Some(60u64));
    assert(duration_unit_factor("min"@) == Some(60u64));
    assert(duration_unit_factor("h"@) == Some(3600u64));
    assert(duration_unit_factor("hr"@) == Some(3600u64));
    assert(duration_unit_factor("hour"@) == Some(3600u64));
    assert(duration_unit(decimal(n as nat) + "s"@) == "s"@);
    assert(n * 1 == n);
}

/// The permissions that `pair open` grants: reading always, writing unless
/// `--ro`, mirror deletions with `--mirror`. `--ro` with `--rw`, and `--ro`
/// with `--mirror`, are refused.
pub fn pair_open_permissions(ro: bool, rw: bool, mirror: bool) -> (r: Result<Permissions, CliError>)
    ensures
        ro && rw ==> (r matches Err(e) && e.is_config(
            "invalid permissions: do not use both --ro and --rw"@,
        )),
        ro && !rw && mirror ==> (r matches Err(e) && e.is_config(
            "invalid permissions: --mirror requires write access (do not use --ro)"@,
        )),
        !(ro && rw) && !(ro && mirror) ==> r == Ok::<Permissions, CliError>(
            Permissions { read: true, write: !ro, mirror_delete: mirror },
        ),
{
    if ro && rw {
        return Err(CliError::Config("invalid permissions: do not use both --ro and --rw".to_string()));
    }
    if ro && mirror {
        return Err(
            CliError::Config(
                "invalid permissions: --mirror requires write access (do not use --ro)".to_string(),
            ),
        );
    }
    Ok(Permissions { read: true, write: !ro, mirror_delete: mirror })
}

/// The three letters by which a peer's permissions are listed: `R`, `W`
/// and `D`, each replaced by `-` where the permission is not granted.
pub open spec fn permissions_letters(p: Permissions) -> Seq<char> {
    seq![
        if p.read { 'R' } else { '-' },
        if p.write { 'W' } else { '-' },
        if p.mirror_delete { 'D' } else { '-' },
    ]
}

pub fn permissions_label(p: Permissions) -> (s: String)
    ensures
        s@ == permissions_letters(p),
{
    let mut s = String::new();
    s.push(if p.read { 'R' } else { '-' });
    s.push(if p.write { 'W' } else { '-' });
    s.push(if p.mirror_delete { 'D' } else { '-' });
    assert(s@ =~= permissions_letters(p));
    s
}

/// `yes` or `no`.
pub fn yes_no(b: bool) -> (s: &'static str)
    ensures
        s@ == (if b { "yes"@ } else { "no"@ }),
{
    if b {
        "yes"
    } else {
        "no"
    }
}

/// Cutting the UTF-8 bytes of `id` after the twelfth falls between two
/// characters, where the id has more than thirteen bytes.
pub open spec fn truncatable(id: Seq<char>) -> bool {
    encode_utf8(id).len() > 13 ==> valid_utf8(encode_utf8(id).take(12))
}

/// How an id is shown in a table: ids of more than thirteen bytes keep their
/// first twelve bytes and end with `…`.
pub open spec fn truncated_id(id: Seq<char>) -> Seq<char> {
    if encode_utf8(id).len() > 13 {
        decode_utf8(encode_utf8(id).take(12)) + "…"@
    } else {
        id
    }
}

/// An ASCII text can be cut anywhere.
pub proof fn lemma_ascii_truncatable(id: Seq<char>)
    requires
        vstd::utf8::is_ascii_chars(id),
    ensures
        truncatable(id),
{
    vstd::utf8::is_ascii_chars_encode_utf8(id);
    if id.len() > 12 {
        let p = id.take(12);
        assert(vstd::utf8::is_ascii_chars(p));
        vstd::utf8::is_ascii_chars_encode_utf8(p);
        assert(encode_utf8(id).take(12) =~= encode_utf8(p));
        vstd::utf8::encode_utf8_valid_utf8(p);
    }
}

/// A device id is ASCII.
pub proof fn lemma_uuid_ascii(id: Seq<char>)
    requires
        valid_uuid(id),
    ensures
        vstd::utf8::is_ascii_chars(id),
{
    assert forall|i: int| 0 <= i < id.len() implies '\0' <= #[trigger] id[i] <= '\u{7f}' by {
        if !crate::peer::is_uuid_hyphen_position(i) {
            assert(crate::peer::is_hex_digit(id[i]));
        }
    }
}

/// Shortens a long id for display.
pub fn truncate_id(id: &str) -> (r: String)
    requires
        truncatable(id@),
    ensures
        r@ == truncated_id(id@),
{
    let bytes = id.as_bytes();
    if bytes.len() > 13 {
        let mut head: Vec<u8> = Vec::new();
        let mut i: usize = 0;
        while i < 12
            invariant
                i <= 12,
                bytes@.len() > 13,
                head@ == bytes@.take(i as int),
            decreases 12 - i,
        {
            head.push(bytes[i]);
            i = i + 1;
            assert(head@ =~= bytes@.take(i as int));
        }
        match String::from_utf8(head) {
            Ok(mut s) => {
                proof {
                    vstd::utf8::encode_utf8_decode_utf8(s@);
                }
                s.append("…");
                s
            },
            Err(_) => {
                id.to_string()
            },
        }
    } else {
        id.to_string()
    }
}

/// The peer matches the query: its id is the query or starts with it, or its
/// name is the query with ASCII letters compared without case.
pub open spec fn peer_matches(p: PeerGrant, q: Seq<char>) -> bool {
    ||| p.device_id@ == q
    ||| q.is_prefix_of(p.device_id@)
    ||| eq_ignore_ascii_case(p.device_name@, q)
}

/// The lower-case form of an ASCII upper-case letter; other characters are
/// kept.
pub open spec fn ascii_lower(c: char) -> char {
    if 'A' <= c <= 'Z' {
        ((c as u32) + 32) as char
    } else {
        c
    }
}

/// Two texts are equal once ASCII letters are put in lower case.
pub open spec fn eq_ignore_ascii_case(a: Seq<char>, b: Seq<char>) -> bool {
    a.len() == b.len() && forall|i: int| 0 <= i < a.len() ==> ascii_lower(#[trigger] a[i]) == ascii_lower(
        b[i],
    )
}

fn ascii_lower_exec(c: char) -> (r: char)
    ensures
        r == ascii_lower(c),
{
    if 'A' <= c && c <= 'Z' {
        let u: u32 = (c as u32) + 32;
        let b: u8 = u as u8;
        b as char
    } else {
        c
    }
}

pub fn eq_ignore_ascii_case_exec(a: &[char], b: &[char]) -> (r: bool)
    ensures
        r == eq_ignore_ascii_case(a@, b@),
{
    if a.len() != b.len() {
        return false;
    }
    let mut i: usize = 0;
    while i < a.len()
        invariant
            i <= a@.len(),
            a@.len() == b@.len(),
            forall|j: int| 0 <= j < i ==> ascii_lower(#[trigger] a@[j]) == ascii_lower(b@[j]),
        decreases a@.len() - i,
    {
        if ascii_lower_exec(a[i]) != ascii_lower_exec(b[i]) {
            return false;
        }
        i = i + 1;
    }
    true
}

fn is_prefix_exec(p: &[char], s: &[char]) -> (r: bool)
    ensures
        r == p@.is_prefix_of(s@),
{
    if p.len() > s.len() {
        return false;
    }
    let mut i: usize = 0;
    while i < p.len()
        invariant
            i <= p@.len(),
            p@.len() <= s@.len(),
            forall|j: int| 0 <= j < i ==> p@[j] == s@[j],
        decreases p@.len() - i,
    {
        if p[i] != s[i] {
            return false;
        }
        i = i + 1;
    }
    assert(p@ =~= s@.take(p@.len() as int));
    true
}

/// ASCII capitals go to lower case, by 32 code points; every other character
/// stays.
pub proof fn lemma_ascii_lower(c: char)
    ensures
        'A' <= c <= 'Z' ==> ascii_lower(c) as u32 == c as u32 + 32 && 'a' <= ascii_lower(c) <= 'z',
        !('A' <= c <= 'Z') ==> ascii_lower(c) == c,
{
}

/// A peer is named by a query that is its id, starts its id, or is its whole
/// name up to ASCII case: a name that only starts with the query, or that the
/// query only starts, does not match.
pub proof fn lemma_peer_matches(p: PeerGrant, q: Seq<char>)
    ensures
        peer_matches(p, q) <==> (p.device_id@ == q || (q.len() <= p.device_id@.len() && p.device_id@.take(
            q.len() as int,
        ) == q) || (p.device_name@.len() == q.len() && forall|i: int|
            0 <= i < q.len() ==> ascii_lower(#[trigger] p.device_name@[i]) == ascii_lower(q[i]))),
        !(q.len() <= p.device_id@.len() && p.device_id@.take(q.len() as int) == q) && p.device_name@.len()
            != q.len() ==> !peer_matches(p, q),
{
    assert(q.is_prefix_of(p.device_id@) <==> (q.len() <= p.device_id@.len() && p.device_id@.take(
        q.len() as int,
    ) =~= q));
}

/// Whether `p` matches the query `q`.
pub fn peer_matches_exec(p: &PeerGrant, q: &str) -> (r: bool)
    ensures
        r == peer_matches(*p, q@),
{
    let id = chars_of(p.device_id.as_str());
    let name = chars_of(p.device_name.as_str());
    let qc = chars_of(q);
    if is_prefix_exec(qc.as_slice(), id.as_slice()) {
        return true;
    }
    proof {
        if id@ == qc@ {
            assert(qc@.is_prefix_of(id@)) by {
                assert(id@.take(qc@.len() as int) =~= id@);
            }
        }
    }
    eq_ignore_ascii_case_exec(name.as_slice(), qc.as_slice())
}

/// The first peer that `peer_query` names, for `peers revoke`; an error when
/// none does.
pub fn find_peer_to_revoke(peers: &Vec<PeerGrant>, peer_query: &str) -> (r: Result<usize, CliError>)
    ensures
        match r {
            Ok(k) => k < peers@.len() && peer_matches(peers@[k as int], peer_query@) && forall|j: int|
                0 <= j < k ==> !peer_matches(#[trigger] peers@[j], peer_query@),
            Err(e) => e.is_config("no peer matches \""@ + peer_query@ + "\""@) && forall|j: int|
                0 <= j < peers@.len() ==> !peer_matches(#[trigger] peers@[j], peer_query@),
        },
{
    let mut i: usize = 0;
    while i < peers.len()
        invariant
            i <= peers@.len(),
            forall|j: int| 0 <= j < i ==> !peer_matches(#[trigger] peers@[j], peer_query@),
        decreases peers@.len() - i,
    {
        if peer_matches_exec(&peers[i], peer_query) {
            return Ok(i);
        }
        i = i + 1;
    }
    let mut m = "no peer matches \"".to_string();
    m.append(peer_query);
    m.append("\"");
    Err(CliError::Config(m))
}

/// Whether `chrono::DateTime::from_timestamp` has a time for these whole
/// seconds, without nanoseconds.
pub uninterp spec fn chrono_has_timestamp(secs: int) -> bool;

/// A year as `%Y` writes it: digits, with a sign in front of years that do
/// not fit in four digits.
pub open spec fn year_text(y: Seq<char>) -> bool {
    &&& y.len() >= 1
    &&& forall|i: int| 1 <= i < y.len() ==> is_digit(#[trigger] y[i])
    &&& (is_digit(y[0]) || ((y[0] == '+' || y[0] == '-') && y.len() >= 2))
}

/// A text of the form `%Y-%m-%d %H:%M`: a year, then month, day, hour and
/// minute of two digits each.
pub open spec fn minute_text_shape(t: Seq<char>) -> bool {
    let n = t.len() as int;
    &&& n >= 13
    &&& year_text(t.take(n - 12))
    &&& t[n - 12] == '-'
    &&& is_digit(t[n - 11]) && is_digit(t[n - 10])
    &&& t[n - 9] == '-'
    &&& is_digit(t[n - 8]) && is_digit(t[n - 7])
    &&& t[n - 6] == ' '
    &&& is_digit(t[n - 5]) && is_digit(t[n - 4])
    &&& t[n - 3] == ':'
    &&& is_digit(t[n - 2]) && is_digit(t[n - 1])
}

/// A timestamp in milliseconds as shown: a local time to the minute where
/// chrono has a time for its seconds, the raw milliseconds otherwise.
pub open spec fn shows_timestamp(ms: u64, t: Seq<char>) -> bool {
    if chrono_has_timestamp((ms / 1000) as int) {
        minute_text_shape(t)
    } else {
        t == decimal(ms as nat)
    }
}

/// Calls `chrono::DateTime::from_timestamp` for these whole seconds and formats
/// the time in the machine's time zone as `%Y-%m-%d %H:%M`; `None` exactly where
/// chrono has no such time. Which time the text shows depends on the time
/// zone, so only its form is claimed.
#[verifier::external_body]
fn local_minute_text(secs: i64) -> (r: Option<String>)
    ensures
        r is Some <==> chrono_has_timestamp(secs as int),
        r matches Some(t) ==> minute_text_shape(t@),
{
    chrono::DateTime::from_timestamp(secs, 0).map(
        |dt| dt.with_timezone(&chrono::Local).format("%Y-%m-%d %H:%M").to_string(),
    )
}

/// How a timestamp is shown: the local time where there is one, the raw
/// milliseconds otherwise.
pub fn timestamp_text(ms: u64, local: Option<String>) -> (r: String)
    ensures
        r@ == match local {
            Some(t) => t@,
            None => decimal(ms as nat),
        },
{
    match local {
        Some(t) => t,
        None => {
            let d = decimal_chars(ms);
            let mut s = String::new();
            push_chars(&mut s, d.as_slice());
            s
        },
    }
}

/// Shows a timestamp in milliseconds as local time to the minute; as the raw
/// milliseconds where chrono has no time for its seconds.
pub fn format_timestamp_ms(ms: u64) -> (r: String)
    ensures
        shows_timestamp(ms, r@),
{
    let q: u64 = ms / 1000;
    assert(q <= i64::MAX);
    let secs: i64 = q as i64;
    timestamp_text(ms, local_minute_text(secs))
}

/// The cells of a peer's row in `peers list`: shortened id, name,
/// permission letters, pairing time and last sync time (`never` if none).
pub fn peer_row(peer: &PeerGrant) -> (row: Vec<String>)
    ensures
        row@.len() == 5,
        row@[0]@ == truncated_id(peer.device_id@),
        row@[1]@ == peer.device_name@,
        row@[2]@ == permissions_letters(peer.permissions),
        shows_timestamp(peer.paired_at_ms, row@[3]@),
        match peer.last_sync_ms {
            Some(ms) => shows_timestamp(ms, row@[4]@),
            None => row@[4]@ == "never"@,
        },
{
    let id = peer.device_id.as_str();
    proof {
        lemma_uuid_ascii(id@);
        lemma_ascii_truncatable(id@);
    }
    let mut row: Vec<String> = Vec::new();
    row.push(truncate_id(id));
    row.push(peer.device_name.clone());
    row.push(permissions_label(peer.permissions));
    row.push(format_timestamp_ms(peer.paired_at_ms));
    match peer.last_sync_ms {
        Some(ms) => row.push(format_timestamp_ms(ms)),
        None => row.push("never".to_string()),
    }
    row
}

} // verus!
