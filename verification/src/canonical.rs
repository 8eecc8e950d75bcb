use vstd::prelude::*;
use vstd::utf8::{decode_utf8, encode_utf8, valid_utf8};

use crate::peer::{valid_uuid, DeviceId, DeviceIdError};
use crate::text::{
    chars_eq, chars_of, contains_char, decimal, decimal_chars, parse_u64, parse_u64_chars,
    push_chars, split_at_char, split_chars, string_from_chars, views,
};

verus! {

pub const CANONICAL_REQUEST_PREFIX: &'static str = "TT-SYNC-V2";

/// The text of the canonical request prefix.
pub open spec fn canonical_prefix() -> Seq<char> {
    seq!['T', 'T', '-', 'S', 'Y', 'N', 'C', '-', 'V', '2']
}

/// A field of a canonical request may not hold a line break.
pub open spec fn field_ok(s: Seq<char>) -> bool {
    !s.contains('\n') && !s.contains('\r')
}

/// What a canonical request holds, as plain values.
pub struct CanonicalFields {
    pub device_id: Seq<char>,
    pub timestamp_ms: u64,
    pub nonce: Seq<char>,
    pub method: Seq<char>,
    pub path_and_query: Seq<char>,
    pub body_sha256_base64url: Seq<char>,
}

/// The canonical text of a request: the prefix and the six fields, one per line,
/// with no line break at the end.
pub open spec fn canonical_text(f: CanonicalFields) -> Seq<char> {
    canonical_prefix() + seq!['\n'] + f.device_id + seq!['\n'] + decimal(f.timestamp_ms as nat)
        + seq!['\n'] + f.nonce + seq!['\n'] + f.method + seq!['\n'] + f.path_and_query + seq![
        '\n',
    ] + f.body_sha256_base64url
}

/// The text that `parse_str` splits into lines: one trailing line feed is dropped.
pub open spec fn strip_one_newline(s: Seq<char>) -> Seq<char> {
    if s.len() > 0 && s.last() == '\n' {
        s.drop_last()
    } else {
        s
    }
}

/// The lines of a canonical request text.
pub open spec fn canonical_lines(s: Seq<char>) -> Seq<Seq<char>> {
    split_at_char(strip_one_newline(s), '\n')
}

/// The fields of the text `s` when it parses.
pub open spec fn parsed_fields(s: Seq<char>) -> CanonicalFields {
    let p = canonical_lines(s);
    CanonicalFields {
        device_id: p[1],
        timestamp_ms: parse_u64(p[2])->0,
        nonce: p[3],
        method: p[4],
        path_and_query: p[5],
        body_sha256_base64url: p[6],
    }
}

/// The text `s` parses as a canonical request.
pub open spec fn parses(s: Seq<char>) -> bool {
    let p = canonical_lines(s);
    &&& p.len() == 7
    &&& p[0] == canonical_prefix()
    &&& valid_uuid(p[1])
    &&& parse_u64(p[2]) is Some
    &&& field_ok(p[3])
    &&& field_ok(p[4])
    &&& field_ok(p[5])
    &&& field_ok(p[6])
}

#[derive(Debug, Clone, PartialEq, Eq)]
pub struct CanonicalRequest {
    pub device_id: DeviceId,
    pub timestamp_ms: u64,
    pub nonce: String,
    pub method: String,
    pub path_and_query: String,
    pub body_sha256_base64url: String,
}

impl CanonicalRequest {
    /// The request's fields as plain values.
    pub open spec fn fields(&self) -> CanonicalFields {
        CanonicalFields {
            device_id: self.device_id@,
            timestamp_ms: self.timestamp_ms,
            nonce: self.nonce@,
            method: self.method@,
            path_and_query: self.path_and_query@,
            body_sha256_base64url: self.body_sha256_base64url@,
        }
    }

    /// No text field holds a line break.
    pub open spec fn wf(&self) -> bool {
        &&& field_ok(self.nonce@)
        &&& field_ok(self.method@)
        &&& field_ok(self.path_and_query@)
        &&& field_ok(self.body_sha256_base64url@)
    }

    pub fn new(
        device_id: DeviceId,
        timestamp_ms: u64,
        nonce: String,
        method: String,
        path_and_query: String,
        body_sha256_base64url: String,
    ) -> (r: Result<Self, CanonicalRequestError>)
        ensures
            r is Ok <==> (field_ok(nonce@) && field_ok(method@) && field_ok(path_and_query@)
                && field_ok(body_sha256_base64url@)),
            r matches Ok(req) ==> req.wf() && req.fields() == (CanonicalFields {
                device_id: device_id@,
                timestamp_ms,
                nonce: nonce@,
                method: method@,
                path_and_query: path_and_query@,
                body_sha256_base64url: body_sha256_base64url@,
            }),
            r matches Err(e) ==> e.is_invalid_field_of(
                nonce@,
                method@,
                path_and_query@,
                body_sha256_base64url@,
            ),
    {
        validate_field("nonce", &nonce)?;
        validate_field("method", &method)?;
        validate_field("path_and_query", &path_and_query)?;
        validate_field("body_sha256_base64url", &body_sha256_base64url)?;
        Ok(Self { device_id, timestamp_ms, nonce, method, path_and_query, body_sha256_base64url })
    }

    /// The canonical text of the request.
    pub fn to_string(&self) -> (s: String)
        ensures
            s@ == canonical_text(self.fields()),
    {
        let prefix = chars_of(CANONICAL_REQUEST_PREFIX);
        proof {
            reveal_strlit("TT-SYNC-V2");
            assert(prefix@ =~= canonical_prefix());
        }
        let mut s = String::new();
        push_chars(&mut s, prefix.as_slice());
        s.push('\n');
        s.append(self.device_id.as_str());
        s.push('\n');
        let ts = decimal_chars(self.timestamp_ms);
        push_chars(&mut s, ts.as_slice());
        s.push('\n');
        s.append(self.nonce.as_str());
        s.push('\n');
        s.append(self.method.as_str());
        s.push('\n');
        s.append(self.path_and_query.as_str());
        s.push('\n');
        s.append(self.body_sha256_base64url.as_str());
        assert(s@ =~= canonical_text(self.fields()));
        s
    }

    /// The canonical text of the request, as UTF-8 bytes.
    pub fn to_bytes(&self) -> (b: Vec<u8>)
        ensures
            b@ == encode_utf8(canonical_text(self.fields())),
    {
        let s = self.to_string();
        let bytes = s.as_str().as_bytes();
        vstd::slice::slice_to_vec(bytes)
    }

    pub fn parse_bytes(input: &[u8]) -> (r: Result<Self, CanonicalRequestError>)
        ensures
            !valid_utf8(input@) ==> r matches Err(CanonicalRequestError::NonUtf8),
            valid_utf8(input@) ==> {
                let s = decode_utf8(input@);
                &&& (r is Ok <==> parses(s))
                &&& r matches Ok(req) ==> req.wf() && req.fields() == parsed_fields(s)
                &&& r matches Err(e) ==> e.is_parse_failure_of(s)
            },
    {
        let text = match core::str::from_utf8(input) {
            Ok(t) => t,
            Err(_) => return Err(CanonicalRequestError::NonUtf8),
        };
        proof {
            vstd::utf8::encode_utf8_decode_utf8(text@);
        }
        Self::parse_str(text)
    }

    pub fn parse_str(input: &str) -> (r: Result<Self, CanonicalRequestError>)
        ensures
            r is Ok <==> parses(input@),
            r matches Ok(req) ==> req.wf() && req.fields() == parsed_fields(input@),
            r matches Err(e) ==> e.is_parse_failure_of(input@),
    {
        let mut cs = chars_of(input);
        if cs.len() > 0 && cs[cs.len() - 1] == '\n' {
            cs.pop();
        }
        assert(cs@ =~= strip_one_newline(input@));
        let parts = split_chars(&cs, '\n');
        assert(views(parts@) == canonical_lines(input@));
        if parts.len() != 7 {
            return Err(CanonicalRequestError::InvalidFormat);
        }
        assert(views(parts@)[0] == parts@[0]@);
        assert(views(parts@)[1] == parts@[1]@);
        assert(views(parts@)[2] == parts@[2]@);
        assert(views(parts@)[3] == parts@[3]@);
        assert(views(parts@)[4] == parts@[4]@);
        assert(views(parts@)[5] == parts@[5]@);
        assert(views(parts@)[6] == parts@[6]@);
        let prefix = chars_of(CANONICAL_REQUEST_PREFIX);
        proof {
            reveal_strlit("TT-SYNC-V2");
            assert(prefix@ =~= canonical_prefix());
        }
        if !chars_eq(parts[0].as_slice(), prefix.as_slice()) {
            return Err(CanonicalRequestError::InvalidPrefix);
        }
        let device_id = match DeviceId::new(string_from_chars(parts[1].as_slice())) {
            Ok(id) => id,
            Err(e) => return Err(CanonicalRequestError::DeviceId(e)),
        };
        let timestamp_ms = match parse_u64_chars(parts[2].as_slice()) {
            Some(t) => t,
            None => return Err(CanonicalRequestError::InvalidTimestamp),
        };
        Self::new(
            device_id,
            timestamp_ms,
            string_from_chars(parts[3].as_slice()),
            string_from_chars(parts[4].as_slice()),
            string_from_chars(parts[5].as_slice()),
            string_from_chars(parts[6].as_slice()),
        )
    }
}

#[derive(Debug)]
pub enum CanonicalRequestError {
    NonUtf8,
    InvalidFormat,
    InvalidPrefix,
    DeviceId(DeviceIdError),
    InvalidTimestamp,
    InvalidField { field: &'static str },
}

impl CanonicalRequestError {
    /// The error names the first of the four text fields, in order, that holds a
    /// line break.
    pub open spec fn is_invalid_field_of(
        &self,
        nonce: Seq<char>,
        method: Seq<char>,
        path_and_query: Seq<char>,
        body: Seq<char>,
    ) -> bool {
        match self {
            CanonicalRequestError::InvalidField { field } => {
                if !field_ok(nonce) {
                    field@ == "nonce"@
                } else if !field_ok(method) {
                    field@ == "method"@
                } else if !field_ok(path_and_query) {
                    field@ == "path_and_query"@
                } else {
                    !field_ok(body) && field@ == "body_sha256_base64url"@
                }
            },
            _ => false,
        }
    }

    /// The error is the one reported for the text `s`, which does not parse: the
    /// checks run in the order line count, prefix, device id, timestamp, fields.
    pub open spec fn is_parse_failure_of(&self, s: Seq<char>) -> bool {
        let p = canonical_lines(s);
        if p.len() != 7 {
            self is InvalidFormat
        } else if p[0] != canonical_prefix() {
            self is InvalidPrefix
        } else if !valid_uuid(p[1]) {
            self is DeviceId
        } else if parse_u64(p[2]) is None {
            self is InvalidTimestamp
        } else {
            self.is_invalid_field_of(p[3], p[4], p[5], p[6])
        }
    }

    /// The message that the error shows.
    pub open spec fn text(&self) -> Seq<char> {
        match self {
            CanonicalRequestError::NonUtf8 => "canonical request is not UTF-8"@,
            CanonicalRequestError::InvalidFormat => "canonical request has invalid format"@,
            CanonicalRequestError::InvalidPrefix => "canonical request has invalid prefix"@,
            CanonicalRequestError::DeviceId(e) => "canonical request has invalid device id: "@ + e.text(),
            CanonicalRequestError::InvalidTimestamp => "canonical request has invalid timestamp"@,
            CanonicalRequestError::InvalidField { field } => "canonical request has invalid field "@ + field@,
        }
    }

    pub fn message(&self) -> (s: String)
        ensures
            s@ == self.text(),
    {
        match self {
            CanonicalRequestError::NonUtf8 => "canonical request is not UTF-8".to_string(),
            CanonicalRequestError::InvalidFormat => "canonical request has invalid format".to_string(),
            CanonicalRequestError::InvalidPrefix => "canonical request has invalid prefix".to_string(),
            CanonicalRequestError::DeviceId(e) => {
                let mut m = "canonical request has invalid device id: ".to_string();
                let inner = e.message();
                m.append(inner.as_str());
                m
            },
            CanonicalRequestError::InvalidTimestamp => "canonical request has invalid timestamp".to_string(),
            CanonicalRequestError::InvalidField { field } => {
                let mut m = "canonical request has invalid field ".to_string();
                m.append(field);
                m
            },
        }
    }
}

#[verifier::external_type_specification]
#[verifier::external_body]
pub struct ExUtf8Error(core::str::Utf8Error);

/// `core::str::from_utf8` accepts exactly the valid UTF-8 byte strings, and the
/// text it gives back has those bytes.
pub assume_specification[ core::str::from_utf8 ](v: &[u8]) -> (r: Result<&str, core::str::Utf8Error>)
    ensures
        r is Ok <==> valid_utf8(v@),
        r matches Ok(s) ==> encode_utf8(s@) == v@,
;

fn validate_field(field: &'static str, value: &String) -> (r: Result<(), CanonicalRequestError>)
    ensures
        r is Ok <==> field_ok(value@),
        r matches Err(e) ==> e == (CanonicalRequestError::InvalidField { field }),
{
    let cs = chars_of(value.as_str());
    if contains_char(cs.as_slice(), '\n') || contains_char(cs.as_slice(), '\r') {
        return Err(CanonicalRequestError::InvalidField { field });
    }
    Ok(())
}

} // verus!

verus! {

proof fn lemma_no_newline_in_decimal(n: nat)
    ensures
        !decimal(n).contains('\n'),
{
    crate::text::lemma_decimal_digits(n);
    if decimal(n).contains('\n') {
        let k = choose|k: int| 0 <= k < decimal(n).len() && decimal(n)[k] == '\n';
        assert(crate::text::is_digit(decimal(n)[k]));
    }
}

/// Parsing the canonical text of a request gives the request back, for every
/// request with a valid device id, line-break-free fields and a non-empty body
/// hash (an empty body hash leaves a trailing line feed, which parsing drops).
pub proof fn lemma_canonical_roundtrip(f: CanonicalFields)
    requires
        valid_uuid(f.device_id),
        field_ok(f.nonce),
        field_ok(f.method),
        field_ok(f.path_and_query),
        field_ok(f.body_sha256_base64url),
        f.body_sha256_base64url.len() > 0,
    ensures
        parses(canonical_text(f)),
        parsed_fields(canonical_text(f)) == f,
{
    let nl = seq!['\n'];
    let p = canonical_prefix();
    let dec = decimal(f.timestamp_ms as nat);
    lemma_no_newline_in_decimal(f.timestamp_ms as nat);
    crate::text::lemma_parse_decimal(f.timestamp_ms);
    assert(!p.contains('\n')) by {
        if p.contains('\n') {
            let k = choose|k: int| 0 <= k < p.len() && p[k] == '\n';
            assert(p[k] != '\n');
        }
    }
    assert(!f.device_id.contains('\n')) by {
        if f.device_id.contains('\n') {
            let k = choose|k: int| 0 <= k < f.device_id.len() && f.device_id[k] == '\n';
            if crate::peer::is_uuid_hyphen_position(k) {
            } else {
                assert(crate::peer::is_hex_digit(f.device_id[k]));
            }
        }
    }
    let t1 = p;
    let t2 = t1 + nl + f.device_id;
    let t3 = t2 + nl + dec;
    let t4 = t3 + nl + f.nonce;
    let t5 = t4 + nl + f.method;
    let t6 = t5 + nl + f.path_and_query;
    let t7 = t6 + nl + f.body_sha256_base64url;
    assert(t7 == canonical_text(f));
    crate::text::lemma_split_no_sep(t1, '\n');
    crate::text::lemma_split_no_sep(f.device_id, '\n');
    crate::text::lemma_split_no_sep(dec, '\n');
    crate::text::lemma_split_no_sep(f.nonce, '\n');
    crate::text::lemma_split_no_sep(f.method, '\n');
    crate::text::lemma_split_no_sep(f.path_and_query, '\n');
    crate::text::lemma_split_no_sep(f.body_sha256_base64url, '\n');
    crate::text::lemma_split_concat(t1, f.device_id, '\n');
    crate::text::lemma_split_concat(t2, dec, '\n');
    crate::text::lemma_split_concat(t3, f.nonce, '\n');
    crate::text::lemma_split_concat(t4, f.method, '\n');
    crate::text::lemma_split_concat(t5, f.path_and_query, '\n');
    crate::text::lemma_split_concat(t6, f.body_sha256_base64url, '\n');
    let parts = seq![p, f.device_id, dec, f.nonce, f.method, f.path_and_query, f.body_sha256_base64url];
    assert(split_at_char(t7, '\n') =~= parts);
    assert(t7.last() == f.body_sha256_base64url.last());
    assert(f.body_sha256_base64url.last() != '\n') by {
        assert(f.body_sha256_base64url[f.body_sha256_base64url.len() - 1] == f.body_sha256_base64url.last());
    }
    assert(strip_one_newline(t7) == t7);
}

} // verus!
