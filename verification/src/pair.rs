use vstd::prelude::*;
use vstd::utf8::{decode_utf8, encode_utf8, is_ascii_chars, valid_utf8};

use crate::text::{
    chars_eq, chars_of, decimal, decimal_chars, find_first, find_first_exec, parse_u64,
    parse_u64_chars, push_chars, split_at_char, split_chars, string_from_chars, sub_chars, views,
};

verus! {

/// A byte that percent-encoding leaves as it is.
pub open spec fn is_unreserved(b: u8) -> bool {
    (65 <= b <= 90) || (97 <= b <= 122) || (48 <= b <= 57) || b == 45 || b == 95 || b == 46
        || b == 126
}

/// The upper-case hexadecimal digit for `d < 16`.
pub open spec fn hex_upper(d: u8) -> char {
    if d < 10 {
        (d + 48) as char
    } else {
        (d + 55) as char
    }
}

/// The encoding of one byte: itself when unreserved, else `%` and two upper-case
/// hexadecimal digits.
pub open spec fn encode_byte(b: u8) -> Seq<char> {
    if is_unreserved(b) {
        seq![b as char]
    } else {
        seq!['%', hex_upper(b / 16), hex_upper(b % 16)]
    }
}

/// Percent-encoding of a byte string.
pub open spec fn urlencode_bytes(bs: Seq<u8>) -> Seq<char>
    decreases bs.len(),
{
    if bs.len() == 0 {
        Seq::<char>::empty()
    } else {
        encode_byte(bs[0]) + urlencode_bytes(bs.drop_first())
    }
}

/// Percent-encoding of the UTF-8 form of a text.
pub open spec fn urlencode(s: Seq<char>) -> Seq<char> {
    urlencode_bytes(encode_utf8(s))
}

/// The value of a hexadecimal digit byte.
pub open spec fn hex_value(b: u8) -> Option<u8> {
    if 48 <= b <= 57 {
        Some((b - 48) as u8)
    } else if 97 <= b <= 102 {
        Some((b - 97 + 10) as u8)
    } else if 65 <= b <= 70 {
        Some((b - 65 + 10) as u8)
    } else {
        None
    }
}

/// Percent-decoding of a byte string: `%` and two hexadecimal digits give one
/// byte, every other byte stands for itself; a `%` without two hexadecimal
/// digits after it fails.
pub open spec fn percent_decode_bytes(s: Seq<u8>) -> Option<Seq<u8>>
    decreases s.len(),
{
    if s.len() == 0 {
        Some(Seq::<u8>::empty())
    } else if s[0] == 37 {
        if s.len() < 3 {
            None
        } else {
            match (hex_value(s[1]), hex_value(s[2])) {
                (Some(hi), Some(lo)) => match percent_decode_bytes(s.skip(3)) {
                    Some(rest) => Some(seq![(hi * 16 + lo) as u8] + rest),
                    None => None,
                },
                _ => None,
            }
        }
    } else {
        match percent_decode_bytes(s.drop_first()) {
            Some(rest) => Some(seq![s[0]] + rest),
            None => None,
        }
    }
}

/// The text that a percent-encoded query value stands for, when it decodes to
/// valid UTF-8.
pub open spec fn decode_value(v: Seq<char>) -> Option<Seq<char>> {
    match percent_decode_bytes(encode_utf8(v)) {
        Some(b) => if valid_utf8(b) {
            Some(decode_utf8(b))
        } else {
            None
        },
        None => None,
    }
}

pub open spec fn ascii_bytes(cs: Seq<char>) -> Seq<u8> {
    Seq::new(cs.len(), |i: int| cs[i] as u8)
}

proof fn lemma_urlencode_append(bs: Seq<u8>, b: u8)
    ensures
        urlencode_bytes(bs.push(b)) == urlencode_bytes(bs) + encode_byte(b),
    decreases bs.len(),
{
    if bs.len() == 0 {
        assert(bs.push(b).drop_first() =~= Seq::<u8>::empty());
        assert(bs.push(b)[0] == b);
        assert(urlencode_bytes(Seq::<u8>::empty()) == Seq::<char>::empty());
        assert(urlencode_bytes(bs) == Seq::<char>::empty());
        assert(urlencode_bytes(bs.push(b)) =~= encode_byte(b) + Seq::<char>::empty());
        assert(encode_byte(b) + Seq::<char>::empty() =~= encode_byte(b));
    } else {
        lemma_urlencode_append(bs.drop_first(), b);
        assert(bs.push(b).drop_first() =~= bs.drop_first().push(b));
        assert(urlencode_bytes(bs.push(b)) =~= urlencode_bytes(bs) + encode_byte(b));
    }
}

proof fn lemma_hex_upper(d: u8)
    requires
        d < 16,
    ensures
        hex_value(hex_upper(d) as u8) == Some(d),
        (hex_upper(d) as u8) as char == hex_upper(d),
        ('0' <= hex_upper(d) <= '9') || ('A' <= hex_upper(d) <= 'F'),
{
}

/// Every character that percent-encoding writes is ASCII, and none is `&`, `=`,
/// `?` or `#`.
pub open spec fn encoded_char(c: char) -> bool {
    &&& '\0' <= c <= '\u{7f}'
    &&& c != '&'
    &&& c != '='
    &&& c != '?'
}

proof fn lemma_urlencode_chars(bs: Seq<u8>)
    ensures
        forall|i: int| 0 <= i < urlencode_bytes(bs).len() ==> encoded_char(#[trigger] urlencode_bytes(bs)[i]),
    decreases bs.len(),
{
    if bs.len() > 0 {
        lemma_urlencode_chars(bs.drop_first());
        let e = encode_byte(bs[0]);
        let r = urlencode_bytes(bs.drop_first());
        if !is_unreserved(bs[0]) {
            lemma_hex_upper(bs[0] / 16);
            lemma_hex_upper(bs[0] % 16);
        }
        assert forall|i: int| 0 <= i < (e + r).len() implies encoded_char(#[trigger] (e + r)[i]) by {
            if i >= e.len() {
                assert((e + r)[i] == r[i - e.len()]);
            }
        }
    }
}

/// Decoding the percent-encoding of a byte string gives the bytes back.
proof fn lemma_decode_encode_bytes(bs: Seq<u8>)
    ensures
        percent_decode_bytes(ascii_bytes(urlencode_bytes(bs))) == Some(bs),
    decreases bs.len(),
{
    if bs.len() == 0 {
        assert(ascii_bytes(urlencode_bytes(bs)) =~= Seq::<u8>::empty());
    } else {
        lemma_decode_encode_bytes(bs.drop_first());
        let b = bs[0];
        let e = encode_byte(b);
        let r = urlencode_bytes(bs.drop_first());
        let s = ascii_bytes(e + r);
        if is_unreserved(b) {
            assert(s.drop_first() =~= ascii_bytes(r));
            assert(s[0] == b);
        } else {
            lemma_hex_upper(b / 16);
            lemma_hex_upper(b % 16);
            assert(s.skip(3) =~= ascii_bytes(r));
            assert(s[0] == 37);
            assert(((b / 16) * 16 + b % 16) as u8 == b);
        }
        assert(seq![b] + bs.drop_first() =~= bs);
    }
}

/// The encoded characters are ASCII, so their UTF-8 form is one byte each.
proof fn lemma_ascii_encode(cs: Seq<char>)
    requires
        is_ascii_chars(cs),
    ensures
        encode_utf8(cs) == ascii_bytes(cs),
{
    vstd::utf8::is_ascii_chars_encode_utf8(cs);
    assert(encode_utf8(cs) =~= ascii_bytes(cs));
}

/// Decoding the encoding of any text gives the text back.
pub proof fn lemma_decode_value_urlencode(s: Seq<char>)
    ensures
        decode_value(urlencode(s)) == Some(s),
{
    let bs = encode_utf8(s);
    lemma_urlencode_chars(bs);
    assert(is_ascii_chars(urlencode_bytes(bs))) by {
        assert forall|i: int| 0 <= i < urlencode_bytes(bs).len() implies '\0' <= #[trigger] urlencode_bytes(bs)[i] <= '\u{7f}' by {
            assert(encoded_char(urlencode_bytes(bs)[i]));
        }
    }
    lemma_ascii_encode(urlencode_bytes(bs));
    lemma_decode_encode_bytes(bs);
    vstd::utf8::encode_utf8_valid_utf8(s);
    vstd::utf8::encode_utf8_decode_utf8(s);
}

/// Minimal percent-encoding for URI query values.
fn urlencoded(value: &str) -> (r: String)
    ensures
        r@ == urlencode(value@),
{
    let bytes = value.as_bytes();
    let mut result = String::new();
    let mut i: usize = 0;
    while i < bytes.len()
        invariant
            i <= bytes@.len(),
            bytes@ == encode_utf8(value@),
            result@ == urlencode_bytes(bytes@.take(i as int)),
        decreases bytes@.len() - i,
    {
        let byte = bytes[i];
        proof {
            lemma_urlencode_append(bytes@.take(i as int), byte);
            assert(bytes@.take(i + 1) =~= bytes@.take(i as int).push(byte));
        }
        if (65 <= byte && byte <= 90) || (97 <= byte && byte <= 122) || (48 <= byte && byte <= 57)
            || byte == 45 || byte == 95 || byte == 46 || byte == 126 {
            result.push(byte as char);
            assert(result@ =~= urlencode_bytes(bytes@.take(i + 1)));
        } else {
            result.push('%');
            result.push(hex_upper_exec(byte / 16));
            result.push(hex_upper_exec(byte % 16));
            assert(result@ =~= urlencode_bytes(bytes@.take(i + 1)));
        }
        i = i + 1;
    }
    assert(bytes@.take(bytes@.len() as int) =~= bytes@);
    result
}

fn hex_upper_exec(d: u8) -> (c: char)
    requires
        d < 16,
    ensures
        c == hex_upper(d),
{
    if d < 10 {
        (d + 48) as char
    } else {
        (d + 55) as char
    }
}

fn from_hex(byte: u8) -> (r: Option<u8>)
    ensures
        r == hex_value(byte),
{
    if 48 <= byte && byte <= 57 {
        Some(byte - 48)
    } else if 97 <= byte && byte <= 102 {
        Some(byte - 97 + 10)
    } else if 65 <= byte && byte <= 70 {
        Some(byte - 65 + 10)
    } else {
        None
    }
}

#[verifier::external_type_specification]
#[verifier::external_body]
pub struct ExFromUtf8Error(std::string::FromUtf8Error);

/// `String::from_utf8` accepts exactly the valid UTF-8 byte strings and gives
/// back the text those bytes encode.
pub assume_specification[ std::string::String::from_utf8 ](vec: Vec<u8>) -> (r: Result<String, std::string::FromUtf8Error>)
    ensures
        r is Ok <==> valid_utf8(vec@),
        r matches Ok(s) ==> encode_utf8(s@) == vec@,
;

fn percent_decode(value: &str) -> (r: Result<String, PairUriError>)
    ensures
        r is Ok <==> decode_value(value@) is Some,
        r matches Ok(s) ==> decode_value(value@) == Some(s@),
        r matches Err(e) ==> e is InvalidPercentEncoding,
{
    let bytes = value.as_bytes();
    let mut out: Vec<u8> = Vec::new();
    let mut i: usize = 0;
    assert(bytes@.skip(0) =~= bytes@);
    assert(forall|rest: Seq<u8>| out@ + rest =~= rest);
    while i < bytes.len()
        invariant
            i <= bytes@.len(),
            bytes@ == encode_utf8(value@),
            percent_decode_bytes(bytes@) == match percent_decode_bytes(bytes@.skip(i as int)) {
                Some(rest) => Some(out@ + rest),
                None => None::<Seq<u8>>,
            },
        decreases bytes@.len() - i,
    {
        let b = bytes[i];
        let ghost t = bytes@.skip(i as int);
        assert(t[0] == b);
        if b == 37 {
            if bytes.len() - i < 3 {
                return Err(PairUriError::InvalidPercentEncoding);
            }
            let hi = from_hex(bytes[i + 1]);
            let lo = from_hex(bytes[i + 2]);
            assert(t[1] == bytes@[i + 1]);
            assert(t[2] == bytes@[i + 2]);
            match (hi, lo) {
                (Some(h), Some(l)) => {
                    assert(t.skip(3) =~= bytes@.skip(i + 3));
                    let ghost prev = out@;
                    out.push(h * 16 + l);
                    assert(forall|rest: Seq<u8>| prev + (seq![(h * 16 + l) as u8] + rest) =~= out@ + rest);
                    i = i + 3;
                },
                _ => {
                    return Err(PairUriError::InvalidPercentEncoding);
                },
            }
        } else {
            assert(t.drop_first() =~= bytes@.skip(i + 1));
            let ghost prev = out@;
            out.push(b);
            assert(forall|rest: Seq<u8>| prev + (seq![b] + rest) =~= out@ + rest);
            i = i + 1;
        }
    }
    assert(bytes@.skip(bytes@.len() as int) =~= Seq::<u8>::empty());
    assert(out@ + Seq::<u8>::empty() =~= out@);
    match String::from_utf8(out) {
        Ok(s) => {
            proof {
                vstd::utf8::encode_utf8_decode_utf8(s@);
            }
            Ok(s)
        },
        Err(_) => Err(PairUriError::InvalidPercentEncoding),
    }
}

#[derive(Debug)]
pub enum PairUriError {
    InvalidFormat,
    MissingField(&'static str),
    UnsupportedVersion,
    InvalidExp,
    InvalidPercentEncoding,
}

} // verus!

verus! {

/// A pair URI, as plain values.
pub struct PairFields {
    pub url: Seq<char>,
    pub token: Seq<char>,
    pub expires_at_ms: u64,
    pub spki_sha256: Seq<char>,
}

/// The part of a pair URI before its query.
pub open spec fn pair_base() -> Seq<char> {
    "tauritavern://tt-sync/pair"@
}

/// The canonical `tauritavern://` text of a pair URI.
pub open spec fn pair_uri_text(f: PairFields) -> Seq<char> {
    "tauritavern://tt-sync/pair?v=2&url="@ + urlencode(f.url) + "&token="@ + urlencode(f.token)
        + "&exp="@ + decimal(f.expires_at_ms as nat) + "&spki="@ + urlencode(f.spki_sha256)
}

/// The query fields that parsing has seen so far; a later field of the same
/// name replaces an earlier one.
pub struct PairQuery {
    pub v: Option<Seq<char>>,
    pub url: Option<Seq<char>>,
    pub token: Option<Seq<char>>,
    pub exp: Option<Seq<char>>,
    pub spki: Option<Seq<char>>,
}

/// Why a text is not a pair URI.
pub enum PairUriFailure {
    InvalidFormat,
    InvalidPercentEncoding,
    UnsupportedVersion,
    MissingExp,
    InvalidExp,
    MissingUrl,
    MissingToken,
    MissingSpki,
}

/// One `key=value` part of the query: the value is percent-decoded and stored
/// under its key; unknown keys are ignored.
pub open spec fn query_step(q: PairQuery, part: Seq<char>) -> Result<PairQuery, PairUriFailure> {
    match find_first(part, '=') {
        None => Err(PairUriFailure::InvalidFormat),
        Some(j) => {
            let key = part.take(j as int);
            match decode_value(part.skip(j + 1 as int)) {
                None => Err(PairUriFailure::InvalidPercentEncoding),
                Some(v) => Ok(
                    if key == "v"@ {
                        PairQuery { v: Some(v), ..q }
                    } else if key == "url"@ {
                        PairQuery { url: Some(v), ..q }
                    } else if key == "token"@ {
                        PairQuery { token: Some(v), ..q }
                    } else if key == "exp"@ {
                        PairQuery { exp: Some(v), ..q }
                    } else if key == "spki"@ {
                        PairQuery { spki: Some(v), ..q }
                    } else {
                        q
                    },
                ),
            }
        },
    }
}

pub open spec fn empty_query() -> PairQuery {
    PairQuery { v: None, url: None, token: None, exp: None, spki: None }
}

/// The query parts, read from the left; the first part that fails decides.
pub open spec fn scan_query(parts: Seq<Seq<char>>) -> Result<PairQuery, PairUriFailure>
    decreases parts.len(),
{
    if parts.len() == 0 {
        Ok(empty_query())
    } else {
        match scan_query(parts.drop_last()) {
            Err(e) => Err(e),
            Ok(q) => query_step(q, parts.last()),
        }
    }
}

/// What parsing a text as a pair URI gives.
pub open spec fn parse_pair_uri(s: Seq<char>) -> Result<PairFields, PairUriFailure> {
    match find_first(s, '?') {
        None => Err(PairUriFailure::InvalidFormat),
        Some(i) => if s.take(i as int) != pair_base() {
            Err(PairUriFailure::InvalidFormat)
        } else {
            match scan_query(split_at_char(s.skip(i + 1 as int), '&')) {
                Err(e) => Err(e),
                Ok(q) => if q.v != Some("2"@) {
                    Err(PairUriFailure::UnsupportedVersion)
                } else if q.exp is None {
                    Err(PairUriFailure::MissingExp)
                } else if parse_u64(q.exp->0) is None {
                    Err(PairUriFailure::InvalidExp)
                } else if q.url is None {
                    Err(PairUriFailure::MissingUrl)
                } else if q.token is None {
                    Err(PairUriFailure::MissingToken)
                } else if q.spki is None {
                    Err(PairUriFailure::MissingSpki)
                } else {
                    Ok(
                        PairFields {
                            url: q.url->0,
                            token: q.token->0,
                            expires_at_ms: parse_u64(q.exp->0)->0,
                            spki_sha256: q.spki->0,
                        },
                    )
                }
            }
        },
    }
}

impl PairUriError {
    /// The error reports the failure `f`.
    pub open spec fn reports(&self, f: PairUriFailure) -> bool {
        match (self, f) {
            (PairUriError::InvalidFormat, PairUriFailure::InvalidFormat) => true,
            (PairUriError::InvalidPercentEncoding, PairUriFailure::InvalidPercentEncoding) => true,
            (PairUriError::UnsupportedVersion, PairUriFailure::UnsupportedVersion) => true,
            (PairUriError::InvalidExp, PairUriFailure::InvalidExp) => true,
            (PairUriError::MissingField(n), PairUriFailure::MissingExp) => n@ == "exp"@,
            (PairUriError::MissingField(n), PairUriFailure::MissingUrl) => n@ == "url"@,
            (PairUriError::MissingField(n), PairUriFailure::MissingToken) => n@ == "token"@,
            (PairUriError::MissingField(n), PairUriFailure::MissingSpki) => n@ == "spki"@,
            _ => false,
        }
    }

    /// The message that the error shows.
    pub open spec fn text(&self) -> Seq<char> {
        match self {
            PairUriError::InvalidFormat => "pair URI has invalid format"@,
            PairUriError::MissingField(f) => "pair URI is missing field: "@ + f@,
            PairUriError::UnsupportedVersion => "pair URI has unsupported version"@,
            PairUriError::InvalidExp => "pair URI has invalid exp"@,
            PairUriError::InvalidPercentEncoding => "pair URI has invalid percent-encoding"@,
        }
    }

    pub fn message(&self) -> (s: String)
        ensures
            s@ == self.text(),
    {
        match self {
            PairUriError::InvalidFormat => "pair URI has invalid format".to_string(),
            PairUriError::MissingField(f) => {
                let mut m = "pair URI is missing field: ".to_string();
                m.append(f);
                m
            },
            PairUriError::UnsupportedVersion => "pair URI has unsupported version".to_string(),
            PairUriError::InvalidExp => "pair URI has invalid exp".to_string(),
            PairUriError::InvalidPercentEncoding => "pair URI has invalid percent-encoding".to_string(),
        }
    }
}

/// Structured pair URI for the v2 protocol:
/// `tauritavern://tt-sync/pair?v=2&url=<url>&token=<token>&exp=<exp>&spki=<spki>`.
#[derive(Debug, Clone)]
pub struct PairUri {
    pub url: String,
    pub token: String,
    pub expires_at_ms: u64,
    pub spki_sha256: String,
}

impl PairUri {
    /// The pair URI as plain values.
    pub open spec fn fields(&self) -> PairFields {
        PairFields {
            url: self.url@,
            token: self.token@,
            expires_at_ms: self.expires_at_ms,
            spki_sha256: self.spki_sha256@,
        }
    }

    /// Renders the canonical `tauritavern://` URI string.
    pub fn to_uri_string(&self) -> (s: String)
        ensures
            s@ == pair_uri_text(self.fields()),
    {
        let mut s = String::new();
        s.append("tauritavern://tt-sync/pair?v=2&url=");
        let e = urlencoded(self.url.as_str());
        s.append(e.as_str());
        s.append("&token=");
        let e = urlencoded(self.token.as_str());
        s.append(e.as_str());
        s.append("&exp=");
        let d = decimal_chars(self.expires_at_ms);
        push_chars(&mut s, d.as_slice());
        s.append("&spki=");
        let e = urlencoded(self.spki_sha256.as_str());
        s.append(e.as_str());
        assert(s@ =~= pair_uri_text(self.fields()));
        s
    }

    pub fn parse_uri_string(input: &str) -> (r: Result<Self, PairUriError>)
        ensures
            r is Ok <==> parse_pair_uri(input@) is Ok,
            r matches Ok(u) ==> parse_pair_uri(input@) == Ok::<PairFields, PairUriFailure>(u.fields()),
            r matches Err(e) ==> e.reports(parse_pair_uri(input@)->Err_0),
    {
        let cs = chars_of(input);
        let i = match find_first_exec(cs.as_slice(), '?') {
            Some(i) => i,
            None => return Err(PairUriError::InvalidFormat),
        };
        proof { crate::text::lemma_find_first(cs@, '?'); }
        assert(i < cs@.len());
        let base = sub_chars(cs.as_slice(), 0, i);
        let expected = chars_of("tauritavern://tt-sync/pair");
        assert(base@ =~= input@.take(i as int));
        if !chars_eq(base.as_slice(), expected.as_slice()) {
            return Err(PairUriError::InvalidFormat);
        }
        let query = sub_chars(cs.as_slice(), i + 1, cs.len());
        assert(query@ =~= input@.skip(i + 1));
        let parts = split_chars(&query, '&');
        let mut version: Option<String> = None;
        let mut url: Option<String> = None;
        let mut token: Option<String> = None;
        let mut exp: Option<String> = None;
        let mut spki: Option<String> = None;
        let mut k: usize = 0;
        while k < parts.len()
            invariant
                k <= parts@.len(),
                scan_query(views(parts@).take(k as int)) == Ok::<PairQuery, PairUriFailure>(
                    PairQuery {
                        v: opt_view(version),
                        url: opt_view(url),
                        token: opt_view(token),
                        exp: opt_view(exp),
                        spki: opt_view(spki),
                    },
                ),
                views(parts@) == split_at_char(input@.skip(i + 1), '&'),
                find_first(input@, '?') == Some(i as nat),
                input@.take(i as int) == pair_base(),
            decreases parts@.len() - k,
        {
            let part = &parts[k];
            let ghost pv = part@;
            assert(views(parts@)[k as int] == pv);
            assert(views(parts@).take(k + 1).drop_last() =~= views(parts@).take(k as int));
            assert(views(parts@).take(k + 1).last() == pv);
            let j = match find_first_exec(part.as_slice(), '=') {
                Some(j) => j,
                None => {
                    proof { lemma_scan_fails(views(parts@), (k + 1) as int); }
                    return Err(PairUriError::InvalidFormat);
                },
            };
            proof { crate::text::lemma_find_first(pv, '='); }
            let key = sub_chars(part.as_slice(), 0, j);
            let raw = string_from_chars(sub_chars(part.as_slice(), j + 1, part.len()).as_slice());
            assert(key@ =~= pv.take(j as int));
            assert(raw@ =~= pv.skip(j + 1));
            let value = match percent_decode(raw.as_str()) {
                Ok(v) => v,
                Err(e) => {
                    proof { lemma_scan_fails(views(parts@), (k + 1) as int); }
                    return Err(e);
                },
            };
            let kv = chars_of("v");
            let ku = chars_of("url");
            let kt = chars_of("token");
            let ke = chars_of("exp");
            let ks = chars_of("spki");
            if chars_eq(key.as_slice(), kv.as_slice()) {
                version = Some(value);
            } else if chars_eq(key.as_slice(), ku.as_slice()) {
                url = Some(value);
            } else if chars_eq(key.as_slice(), kt.as_slice()) {
                token = Some(value);
            } else if chars_eq(key.as_slice(), ke.as_slice()) {
                exp = Some(value);
            } else if chars_eq(key.as_slice(), ks.as_slice()) {
                spki = Some(value);
            }
            k = k + 1;
        }
        assert(views(parts@).take(parts@.len() as int) =~= views(parts@));
        let two = chars_of("2");
        let version_ok = match &version {
            Some(v) => {
                let vc = chars_of(v.as_str());
                chars_eq(vc.as_slice(), two.as_slice())
            },
            None => false,
        };
        if !version_ok {
            return Err(PairUriError::UnsupportedVersion);
        }
        let exp_text = match exp {
            Some(e) => e,
            None => return Err(PairUriError::MissingField("exp")),
        };
        let exp_chars = chars_of(exp_text.as_str());
        let expires_at_ms = match parse_u64_chars(exp_chars.as_slice()) {
            Some(v) => v,
            None => return Err(PairUriError::InvalidExp),
        };
        let url = match url {
            Some(u) => u,
            None => return Err(PairUriError::MissingField("url")),
        };
        let token = match token {
            Some(t) => t,
            None => return Err(PairUriError::MissingField("token")),
        };
        let spki_sha256 = match spki {
            Some(s) => s,
            None => return Err(PairUriError::MissingField("spki")),
        };
        Ok(PairUri { url, token, expires_at_ms, spki_sha256 })
    }
}

/// The text held by an optional string.
pub open spec fn opt_view(o: Option<String>) -> Option<Seq<char>> {
    match o {
        Some(s) => Some(s@),
        None => None,
    }
}

/// When the scan fails at part `k - 1`, it fails on the whole query too.
proof fn lemma_scan_fails(parts: Seq<Seq<char>>, k: int)
    requires
        0 < k <= parts.len(),
        scan_query(parts.take(k)) is Err,
    ensures
        scan_query(parts) == scan_query(parts.take(k)),
    decreases parts.len() - k,
{
    if k < parts.len() {
        assert(parts.take(k + 1).drop_last() =~= parts.take(k));
        lemma_scan_fails(parts, k + 1);
    } else {
        assert(parts.take(k) =~= parts);
    }
}

/// Request body for `POST /v2/pair/complete`.
#[derive(Debug, Clone)]
pub struct PairCompleteRequest {
    pub device_id: crate::peer::DeviceId,
    pub device_name: String,
    /// Ed25519 public key, base64url encoded.
    pub device_pubkey: String,
}

/// Response body for `POST /v2/pair/complete`.
#[derive(Debug, Clone)]
pub struct PairCompleteResponse {
    pub server_device_id: crate::peer::DeviceId,
    pub server_device_name: String,
    pub granted_permissions: crate::peer::Permissions,
}

} // verus!

verus! {

proof fn lemma_decode_plain_bytes(bs: Seq<u8>)
    requires
        forall|i: int| 0 <= i < bs.len() ==> #[trigger] bs[i] != 37,
    ensures
        percent_decode_bytes(bs) == Some(bs),
    decreases bs.len(),
{
    if bs.len() > 0 {
        assert(bs[0] != 37);
        let r = bs.drop_first();
        assert forall|i: int| 0 <= i < r.len() implies #[trigger] r[i] != 37 by {
            assert(r[i] == bs[i + 1]);
        }
        lemma_decode_plain_bytes(r);
        assert(seq![bs[0]] + r =~= bs);
    }
}

/// A value of ASCII characters without `%` decodes to itself.
proof fn lemma_decode_value_plain(x: Seq<char>)
    requires
        is_ascii_chars(x),
        !x.contains('%'),
    ensures
        decode_value(x) == Some(x),
{
    lemma_ascii_encode(x);
    let bs = ascii_bytes(x);
    assert forall|i: int| 0 <= i < bs.len() implies #[trigger] bs[i] != 37 by {
        if bs[i] == 37 {
            vstd::utf8::is_ascii_chars_nat_bound(x);
            let c = x[i];
            let v = c as u32;
            assert(v as u8 == 37u8);
            assert(v < 128);
            assert(v == 37) by (bit_vector)
                requires
                    v as u8 == 37u8,
                    v < 128,
            ;
            vstd::utf8::char_u32_cast(c, v);
            assert(c == '%');
            assert(x.contains('%'));
        }
    }
    lemma_decode_plain_bytes(bs);
    vstd::utf8::encode_utf8_valid_utf8(x);
    vstd::utf8::encode_utf8_decode_utf8(x);
}

proof fn lemma_no_char_in_encoded(s: Seq<char>, c: char)
    requires
        c == '&' || c == '=',
    ensures
        !urlencode(s).contains(c),
{
    lemma_urlencode_chars(encode_utf8(s));
    if urlencode(s).contains(c) {
        let k = choose|k: int| 0 <= k < urlencode(s).len() && urlencode(s)[k] == c;
        assert(encoded_char(urlencode(s)[k]));
    }
}

proof fn lemma_split_part(key: Seq<char>, val: Seq<char>)
    requires
        !key.contains('='),
    ensures
        find_first(key + seq!['='] + val, '=') == Some(key.len()),
        (key + seq!['='] + val).take(key.len() as int) == key,
        (key + seq!['='] + val).skip(key.len() + 1 as int) == val,
{
    crate::text::lemma_find_first_concat(key, '=', val);
    assert((key + seq!['='] + val).take(key.len() as int) =~= key);
    assert((key + seq!['='] + val).skip(key.len() + 1 as int) =~= val);
}

/// The five `key=value` parts of a rendered pair URI's query.
pub open spec fn pair_parts(f: PairFields) -> Seq<Seq<char>> {
    seq![
        seq!['v', '=', '2'],
        seq!['u', 'r', 'l', '='] + urlencode(f.url),
        seq!['t', 'o', 'k', 'e', 'n', '='] + urlencode(f.token),
        seq!['e', 'x', 'p', '='] + decimal(f.expires_at_ms as nat),
        seq!['s', 'p', 'k', 'i', '='] + urlencode(f.spki_sha256),
    ]
}

proof fn lemma_no_amp(a: Seq<char>, b: Seq<char>)
    requires
        !a.contains('&'),
        !b.contains('&'),
    ensures
        !(a + b).contains('&'),
{
    if (a + b).contains('&') {
        let k = choose|k: int| 0 <= k < (a + b).len() && (a + b)[k] == '&';
        if k < a.len() {
            assert(a[k] == '&');
        } else {
            assert(b[k - a.len()] == '&');
        }
    }
}

proof fn lemma_literal_lacks(s: Seq<char>, c: char)
    requires
        forall|i: int| 0 <= i < s.len() ==> s[i] != c,
    ensures
        !s.contains(c),
{
}

/// The query of a rendered pair URI starts after the base, and splits at `&`
/// into its five parts.
proof fn lemma_pair_text_parts(f: PairFields)
    ensures
        find_first(pair_uri_text(f), '?') == Some(pair_base().len()),
        pair_uri_text(f).take(pair_base().len() as int) == pair_base(),
        split_at_char(pair_uri_text(f).skip(pair_base().len() + 1 as int), '&') == pair_parts(f),
{
    reveal_strlit("tauritavern://tt-sync/pair?v=2&url=");
    reveal_strlit("tauritavern://tt-sync/pair");
    reveal_strlit("&token=");
    reveal_strlit("&exp=");
    reveal_strlit("&spki=");
    let p = pair_parts(f);
    let amp = seq!['&'];
    let q2 = p[0] + amp + p[1];
    let q3 = q2 + amp + p[2];
    let q4 = q3 + amp + p[3];
    let q5 = q4 + amp + p[4];
    let base = pair_base();
    let text = pair_uri_text(f);
    assert(text =~= base + seq!['?'] + q5);
    lemma_literal_lacks(base, '?');
    crate::text::lemma_find_first_concat(base, '?', q5);
    assert(text.take(base.len() as int) =~= base);
    assert(text.skip(base.len() + 1 as int) =~= q5);
    let d = decimal(f.expires_at_ms as nat);
    crate::text::lemma_decimal_digits(f.expires_at_ms as nat);
    assert(!d.contains('&')) by {
        if d.contains('&') {
            let k = choose|k: int| 0 <= k < d.len() && d[k] == '&';
            assert(crate::text::is_digit(d[k]));
        }
    }
    lemma_no_char_in_encoded(f.url, '&');
    lemma_no_char_in_encoded(f.token, '&');
    lemma_no_char_in_encoded(f.spki_sha256, '&');
    lemma_literal_lacks(p[0], '&');
    lemma_literal_lacks(seq!['u', 'r', 'l', '='], '&');
    lemma_literal_lacks(seq!['t', 'o', 'k', 'e', 'n', '='], '&');
    lemma_literal_lacks(seq!['e', 'x', 'p', '='], '&');
    lemma_literal_lacks(seq!['s', 'p', 'k', 'i', '='], '&');
    lemma_no_amp(seq!['u', 'r', 'l', '='], urlencode(f.url));
    lemma_no_amp(seq!['t', 'o', 'k', 'e', 'n', '='], urlencode(f.token));
    lemma_no_amp(seq!['e', 'x', 'p', '='], d);
    lemma_no_amp(seq!['s', 'p', 'k', 'i', '='], urlencode(f.spki_sha256));
    crate::text::lemma_split_no_sep(p[0], '&');
    crate::text::lemma_split_no_sep(p[1], '&');
    crate::text::lemma_split_no_sep(p[2], '&');
    crate::text::lemma_split_no_sep(p[3], '&');
    crate::text::lemma_split_no_sep(p[4], '&');
    crate::text::lemma_split_concat(p[0], p[1], '&');
    crate::text::lemma_split_concat(q2, p[2], '&');
    crate::text::lemma_split_concat(q3, p[3], '&');
    crate::text::lemma_split_concat(q4, p[4], '&');
    assert(split_at_char(q5, '&') =~= p);
}

/// The query that scanning the five parts of a rendered pair URI yields.
pub open spec fn pair_query(f: PairFields) -> PairQuery {
    PairQuery {
        v: Some(seq!['2']),
        url: Some(f.url),
        token: Some(f.token),
        exp: Some(decimal(f.expires_at_ms as nat)),
        spki: Some(f.spki_sha256),
    }
}

proof fn lemma_pair_scan(f: PairFields)
    ensures
        scan_query(pair_parts(f)) == Ok::<PairQuery, PairUriFailure>(pair_query(f)),
{
    reveal_strlit("v");
    reveal_strlit("url");
    reveal_strlit("token");
    reveal_strlit("exp");
    reveal_strlit("spki");
    let p = pair_parts(f);
    let d = decimal(f.expires_at_ms as nat);
    let two = seq!['2'];
    let kv = seq!['v'];
    let ku = seq!['u', 'r', 'l'];
    let kt = seq!['t', 'o', 'k', 'e', 'n'];
    let ke = seq!['e', 'x', 'p'];
    let ks = seq!['s', 'p', 'k', 'i'];
    let eq = seq!['='];
    assert(p[0] =~= kv + eq + two);
    assert(p[1] =~= ku + eq + urlencode(f.url));
    assert(p[2] =~= kt + eq + urlencode(f.token));
    assert(p[3] =~= ke + eq + d);
    assert(p[4] =~= ks + eq + urlencode(f.spki_sha256));
    lemma_literal_lacks(kv, '=');
    lemma_literal_lacks(ku, '=');
    lemma_literal_lacks(kt, '=');
    lemma_literal_lacks(ke, '=');
    lemma_literal_lacks(ks, '=');
    lemma_split_part(kv, two);
    lemma_split_part(ku, urlencode(f.url));
    lemma_split_part(kt, urlencode(f.token));
    lemma_split_part(ke, d);
    lemma_split_part(ks, urlencode(f.spki_sha256));
    lemma_decode_value_urlencode(f.url);
    lemma_decode_value_urlencode(f.token);
    lemma_decode_value_urlencode(f.spki_sha256);
    lemma_literal_lacks(two, '%');
    lemma_decode_value_plain(two);
    crate::text::lemma_decimal_digits(f.expires_at_ms as nat);
    assert(!d.contains('%')) by {
        if d.contains('%') {
            let k = choose|k: int| 0 <= k < d.len() && d[k] == '%';
            assert(crate::text::is_digit(d[k]));
        }
    }
    assert(is_ascii_chars(d)) by {
        assert forall|i: int| 0 <= i < d.len() implies '\0' <= #[trigger] d[i] <= '\u{7f}' by {
            assert(crate::text::is_digit(d[i]));
        }
    }
    lemma_decode_value_plain(d);
    assert(kv == "v"@);
    assert(ku == "url"@ && ku != "v"@);
    assert(kt == "token"@ && kt != "v"@ && kt != "url"@);
    assert(ke == "exp"@ && ke != "v"@ && ke != "url"@ && ke != "token"@);
    assert(ks == "spki"@ && ks != "v"@ && ks != "url"@ && ks != "token"@ && ks != "exp"@);
    let s1 = PairQuery { v: Some(two), ..empty_query() };
    let s2 = PairQuery { url: Some(f.url), ..s1 };
    let s3 = PairQuery { token: Some(f.token), ..s2 };
    let s4 = PairQuery { exp: Some(d), ..s3 };
    let s5 = PairQuery { spki: Some(f.spki_sha256), ..s4 };
    assert(p.take(0) =~= Seq::<Seq<char>>::empty());
    assert(scan_query(p.take(0)) == Ok::<PairQuery, PairUriFailure>(empty_query()));
    assert(p.take(1).drop_last() =~= p.take(0));
    assert(p.take(1).last() == p[0]);
    assert(query_step(empty_query(), p[0]) == Ok::<PairQuery, PairUriFailure>(s1));
    assert(scan_query(p.take(1)) == Ok::<PairQuery, PairUriFailure>(s1));
    assert(p.take(2).drop_last() =~= p.take(1));
    assert(p.take(2).last() == p[1]);
    assert(query_step(s1, p[1]) == Ok::<PairQuery, PairUriFailure>(s2));
    assert(scan_query(p.take(2)) == Ok::<PairQuery, PairUriFailure>(s2));
    assert(p.take(3).drop_last() =~= p.take(2));
    assert(p.take(3).last() == p[2]);
    assert(query_step(s2, p[2]) == Ok::<PairQuery, PairUriFailure>(s3));
    assert(scan_query(p.take(3)) == Ok::<PairQuery, PairUriFailure>(s3));
    assert(p.take(4).drop_last() =~= p.take(3));
    assert(p.take(4).last() == p[3]);
    assert(query_step(s3, p[3]) == Ok::<PairQuery, PairUriFailure>(s4));
    assert(scan_query(p.take(4)) == Ok::<PairQuery, PairUriFailure>(s4));
    assert(p.take(5).drop_last() =~= p.take(4));
    assert(p.take(5).last() == p[4]);
    assert(query_step(s4, p[4]) == Ok::<PairQuery, PairUriFailure>(s5));
    assert(p.take(5) =~= p);
    assert(s5 == pair_query(f));
}

/// Parsing the rendered text of a pair URI gives the pair URI back, for every
/// pair URI.
pub proof fn lemma_pair_uri_roundtrip(f: PairFields)
    ensures
        parse_pair_uri(pair_uri_text(f)) == Ok::<PairFields, PairUriFailure>(f),
{
    reveal_strlit("2");
    lemma_pair_text_parts(f);
    lemma_pair_scan(f);
    crate::text::lemma_parse_decimal(f.expires_at_ms);
    assert(seq!['2'] == "2"@);
}

} // verus!
