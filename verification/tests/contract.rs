use ttsync::canonical::{CanonicalRequest, CanonicalRequestError, CANONICAL_REQUEST_PREFIX};
use ttsync::pair::{PairUri, PairUriError};
use ttsync::path::{SyncPath, SyncPathError};
use ttsync::peer::DeviceId;

#[test]
fn roundtrip_render_and_parse() {
    let req = CanonicalRequest::new(
        DeviceId::new("550e8400-e29b-41d4-a716-446655440000".into()).unwrap(),
        1712345678901,
        "nonce".into(),
        "POST".into(),
        "/v2/session/open".into(),
        "47DEQpj8HBSa-_TImW-5JCeuQeRkm5NMpJWZG3hSuFU".into(),
    )
    .unwrap();

    let text = req.to_string();
    assert!(text.starts_with(CANONICAL_REQUEST_PREFIX));

    let parsed = CanonicalRequest::parse_str(&text).unwrap();
    assert_eq!(parsed, req);
}

#[test]
fn pair_uri_renders_correctly() {
    let uri = PairUri {
        url: "https://sync.example.com:8443".to_owned(),
        token: "abc123".to_owned(),
        expires_at_ms: 1712345678901,
        spki_sha256: "dGVzdA".to_owned(),
    };
    let rendered = uri.to_uri_string();
    assert!(rendered.starts_with("tauritavern://tt-sync/pair?v=2&"));
    assert!(rendered.contains("token=abc123"));
    assert!(rendered.contains("spki=dGVzdA"));
}

#[test]
fn pair_uri_parses_roundtrip() {
    let uri = PairUri {
        url: "https://sync.example.com:8443".to_owned(),
        token: "abc123".to_owned(),
        expires_at_ms: 1712345678901,
        spki_sha256: "dGVzdA".to_owned(),
    };
    let rendered = uri.to_uri_string();
    let parsed = PairUri::parse_uri_string(&rendered).unwrap();
    assert_eq!(parsed.url, uri.url);
    assert_eq!(parsed.token, uri.token);
    assert_eq!(parsed.expires_at_ms, uri.expires_at_ms);
    assert_eq!(parsed.spki_sha256, uri.spki_sha256);
}

#[test]
fn accepts_valid_paths() {
    assert!(SyncPath::new("default-user/characters/Alice.json").is_ok());
    assert!(SyncPath::new("extensions/third-party/ext/index.js").is_ok());
    assert!(SyncPath::new("settings.json").is_ok());
}

#[test]
fn rejects_invalid_paths() {
    assert!(SyncPath::new("").is_err());
    assert!(SyncPath::new("/absolute").is_err());
    assert!(SyncPath::new("back\\slash").is_err());
    assert!(SyncPath::new("foo/../bar").is_err());
    assert!(SyncPath::new("foo/./bar").is_err());
    assert!(SyncPath::new("foo//bar").is_err());
}

#[test]
fn path_errors_name_the_first_failed_check() {
    assert!(matches!(SyncPath::new(""), Err(SyncPathError::Empty)));
    assert!(matches!(SyncPath::new("/a\\b"), Err(SyncPathError::LeadingSlash)));
    assert!(matches!(SyncPath::new("a\\b/../c"), Err(SyncPathError::Backslash)));
    match SyncPath::new("a/./b/../c") {
        Err(SyncPathError::InvalidComponent(seg)) => assert_eq!(seg, "."),
        other => panic!("unexpected {:?}", other),
    }
    match SyncPath::new("a/b/") {
        Err(e) => assert_eq!(e.message(), "path contains invalid component: \"\""),
        Ok(_) => panic!("trailing slash accepted"),
    }
    assert_eq!(SyncPath::new("a/b").unwrap().as_str(), "a/b");
}

#[test]
fn device_ids_are_uuid_text() {
    assert!(DeviceId::new("550e8400-e29b-41d4-a716-446655440000".to_string()).is_ok());
    assert!(DeviceId::new("550E8400-E29B-41D4-A716-446655440000".to_string()).is_ok());
    assert!(DeviceId::new("550e8400e29b41d4a716446655440000".to_string()).is_err());
    assert!(DeviceId::new("550e8400-e29b-41d4-a716-44665544000g".to_string()).is_err());
    assert!(DeviceId::new(String::new()).is_err());
}

fn request(nonce: &str, body: &str) -> Result<CanonicalRequest, CanonicalRequestError> {
    CanonicalRequest::new(
        DeviceId::new("550e8400-e29b-41d4-a716-446655440000".into()).unwrap(),
        42,
        nonce.into(),
        "GET".into(),
        "/v2/status".into(),
        body.into(),
    )
}

#[test]
fn canonical_text_is_seven_lines() {
    let req = request("n1", "hash").unwrap();
    assert_eq!(
        req.to_string(),
        "TT-SYNC-V2\n550e8400-e29b-41d4-a716-446655440000\n42\nn1\nGET\n/v2/status\nhash"
    );
    assert_eq!(req.to_bytes(), req.to_string().into_bytes());
    let parsed = CanonicalRequest::parse_bytes(req.to_string().as_bytes()).unwrap();
    assert_eq!(parsed, req);
    let with_newline = format!("{}\n", req.to_string());
    assert_eq!(CanonicalRequest::parse_str(&with_newline).unwrap(), req);
}

#[test]
fn canonical_fields_may_not_hold_line_breaks() {
    match request("bad\nnonce", "hash") {
        Err(CanonicalRequestError::InvalidField { field }) => assert_eq!(field, "nonce"),
        other => panic!("unexpected {:?}", other),
    }
    match request("ok", "bad\rhash") {
        Err(CanonicalRequestError::InvalidField { field }) => assert_eq!(field, "body_sha256_base64url"),
        other => panic!("unexpected {:?}", other),
    }
}

#[test]
fn canonical_parse_errors() {
    assert!(matches!(CanonicalRequest::parse_bytes(&[0xff, 0xfe]), Err(CanonicalRequestError::NonUtf8)));
    assert!(matches!(CanonicalRequest::parse_str("TT-SYNC-V2\nx"), Err(CanonicalRequestError::InvalidFormat)));
    assert!(matches!(
        CanonicalRequest::parse_str("TT-SYNC-V1\n550e8400-e29b-41d4-a716-446655440000\n42\nn\nGET\n/\nh"),
        Err(CanonicalRequestError::InvalidPrefix)
    ));
    assert!(matches!(
        CanonicalRequest::parse_str("TT-SYNC-V2\nnot-a-uuid\n42\nn\nGET\n/\nh"),
        Err(CanonicalRequestError::DeviceId(_))
    ));
    assert!(matches!(
        CanonicalRequest::parse_str("TT-SYNC-V2\n550e8400-e29b-41d4-a716-446655440000\nabc\nn\nGET\n/\nh"),
        Err(CanonicalRequestError::InvalidTimestamp)
    ));
}

#[test]
fn pair_uri_encodes_reserved_bytes() {
    let uri = PairUri {
        url: "https://a b/ü".to_owned(),
        token: "t&=".to_owned(),
        expires_at_ms: 7,
        spki_sha256: "x~y".to_owned(),
    };
    assert_eq!(
        uri.to_uri_string(),
        "tauritavern://tt-sync/pair?v=2&url=https%3A%2F%2Fa%20b%2F%C3%BC&token=t%26%3D&exp=7&spki=x~y"
    );
    let back = PairUri::parse_uri_string(&uri.to_uri_string()).unwrap();
    assert_eq!(back.url, uri.url);
    assert_eq!(back.token, uri.token);
}

#[test]
fn pair_uri_parse_errors() {
    assert!(matches!(PairUri::parse_uri_string("no-query"), Err(PairUriError::InvalidFormat)));
    assert!(matches!(
        PairUri::parse_uri_string("tauritavern://other?v=2"),
        Err(PairUriError::InvalidFormat)
    ));
    assert!(matches!(
        PairUri::parse_uri_string("tauritavern://tt-sync/pair?v=2&novalue"),
        Err(PairUriError::InvalidFormat)
    ));
    assert!(matches!(
        PairUri::parse_uri_string("tauritavern://tt-sync/pair?v=3&url=u&token=t&exp=1&spki=s"),
        Err(PairUriError::UnsupportedVersion)
    ));
    assert!(matches!(
        PairUri::parse_uri_string("tauritavern://tt-sync/pair?v=2&url=u&token=t&spki=s"),
        Err(PairUriError::MissingField("exp"))
    ));
    assert!(matches!(
        PairUri::parse_uri_string("tauritavern://tt-sync/pair?v=2&url=u&token=t&exp=x&spki=s"),
        Err(PairUriError::InvalidExp)
    ));
    assert!(matches!(
        PairUri::parse_uri_string("tauritavern://tt-sync/pair?v=2&token=t&exp=1&spki=s"),
        Err(PairUriError::MissingField("url"))
    ));
    assert!(matches!(
        PairUri::parse_uri_string("tauritavern://tt-sync/pair?v=2&url=%zz&token=t&exp=1&spki=s"),
        Err(PairUriError::InvalidPercentEncoding)
    ));
    assert!(matches!(
        PairUri::parse_uri_string("tauritavern://tt-sync/pair?v=2&url=%FF&token=t&exp=1&spki=s"),
        Err(PairUriError::InvalidPercentEncoding)
    ));
}
