use vstd::prelude::*;

use crate::config::CliError;

verus! {

#[verifier::external_type_specification]
#[verifier::external_body]
pub struct ExKeyPair(rcgen::KeyPair);

#[verifier::external_type_specification]
#[verifier::external_body]
pub struct ExCertificateParams(rcgen::CertificateParams);

/// What `rcgen::KeyPair::from_pem` reports for this text: `None` where it
/// reads a key pair, the error as it displays otherwise.
pub uninterp spec fn rcgen_key_pem_error(pem: Seq<char>) -> Option<Seq<char>>;

/// A certificate in PEM form: it opens with the certificate's begin line and
/// closes with its end line, ended by a line feed or a carriage return and a
/// line feed.
pub open spec fn pem_certificate_shape(c: Seq<char>) -> bool {
    &&& "-----BEGIN CERTIFICATE-----"@.is_prefix_of(c)
    &&& ("-----END CERTIFICATE-----\n"@.is_suffix_of(c) || "-----END CERTIFICATE-----\r\n"@.is_suffix_of(c))
}

/// Whether `cert` is a certificate that `rcgen::CertificateParams::new(names)`
/// followed by `self_signed` with the key pair that `rcgen::KeyPair::from_pem`
/// reads from `key_pem`, written by `Certificate::pem`, can give. The same
/// names and key text always admit the same certificates; which of them comes
/// out rests on the signature, which may be randomized.
pub uninterp spec fn rcgen_self_signed_pem(names: Seq<Seq<char>>, key_pem: Seq<char>, cert: Seq<char>) -> bool;

/// The views of a list of texts.
pub open spec fn texts_of(v: Seq<String>) -> Seq<Seq<char>> {
    v.map_values(|s: String| s@)
}

/// A key pair together with the text it was read from; only
/// `key_pair_from_pem` makes one.
pub struct ParsedKey {
    pair: rcgen::KeyPair,
    source: String,
}

impl ParsedKey {
    /// The text the key pair was read from.
    pub closed spec fn source(&self) -> Seq<char> {
        self.source@
    }
}

/// Certificate parameters together with the names they were made for; only
/// `certificate_params` makes them.
pub struct LeafParams {
    params: rcgen::CertificateParams,
    names: Vec<String>,
}

impl LeafParams {
    /// The subject alternative names the parameters were made for.
    pub closed spec fn names(&self) -> Seq<Seq<char>> {
        texts_of(self.names@)
    }
}

/// Calls `rcgen::KeyPair::from_pem` and keeps the key pair with the text it
/// read: a key pair where the text parses, otherwise the error's text;
/// which of the two, and the text, are named by `rcgen_key_pem_error`.
#[verifier::external_body]
fn key_pair_from_pem(pem: &str) -> (r: Result<ParsedKey, String>)
    ensures
        match r {
            Ok(k) => rcgen_key_pem_error(pem@) is None && k.source() == pem@,
            Err(t) => rcgen_key_pem_error(pem@) == Some(t@),
        },
{
    match rcgen::KeyPair::from_pem(pem) {
        Ok(pair) => Ok(ParsedKey { pair, source: pem.to_string() }),
        Err(e) => Err(e.to_string()),
    }
}

/// Calls `rcgen::CertificateParams::new` for these subject alternative names
/// and keeps the parameters with the names. Nothing is claimed of when the
/// names are refused.
#[verifier::external_body]
fn certificate_params(subject_alt_names: Vec<String>) -> (r: Result<LeafParams, String>)
    ensures
        r matches Ok(p) ==> p.names() == texts_of(subject_alt_names@),
{
    match rcgen::CertificateParams::new(subject_alt_names.clone()) {
        Ok(params) => Ok(LeafParams { params, names: subject_alt_names }),
        Err(e) => Err(e.to_string()),
    }
}

/// Calls `rcgen::CertificateParams::self_signed` with the key pair and gives
/// the certificate as `Certificate::pem` writes it: the DER in base64 between
/// the `CERTIFICATE` begin and end lines, with line feeds, or carriage returns
/// and line feeds on Windows. It is one that `rcgen_self_signed_pem` admits
/// for the parameters' names and the key's text.
#[verifier::external_body]
fn self_signed_pem(params: &LeafParams, key: &ParsedKey) -> (r: Result<String, String>)
    ensures
        r matches Ok(c) ==> pem_certificate_shape(c@) && rcgen_self_signed_pem(params.names(), key.source(), c@),
{
    match params.params.self_signed(&key.pair) {
        Ok(cert) => Ok(cert.pem()),
        Err(e) => Err(e.to_string()),
    }
}

/// The names a leaf certificate is issued for.
pub fn leaf_certificate_names() -> (v: Vec<String>)
    ensures
        texts_of(v@) == seq!["tt-sync"@, "localhost"@],
{
    let mut v: Vec<String> = Vec::new();
    v.push("tt-sync".to_string());
    v.push("localhost".to_string());
    assert(texts_of(v@) =~= seq!["tt-sync"@, "localhost"@]);
    v
}

/// A new self-signed leaf certificate for `tt-sync` and `localhost`, signed
/// with the key pair that `key_pem` holds, so that the key, and with it the
/// pin of its public key, stays the same. A key that does not parse gives a
/// config error of `parse TLS key: ` and rcgen's error.
pub fn rotated_leaf_cert(key_pem: &str) -> (r: Result<String, CliError>)
    ensures
        rcgen_key_pem_error(key_pem@) matches Some(t) ==> (r matches Err(CliError::Config(m)) && m@
            == "parse TLS key: "@ + t),
        r matches Ok(c) ==> rcgen_key_pem_error(key_pem@) is None && pem_certificate_shape(c@)
            && rcgen_self_signed_pem(seq!["tt-sync"@, "localhost"@], key_pem@, c@),
        r matches Err(e) ==> e is Config,
{
    let key = match key_pair_from_pem(key_pem) {
        Ok(k) => k,
        Err(e) => {
            let mut m = "parse TLS key: ".to_string();
            m.append(e.as_str());
            return Err(CliError::Config(m));
        },
    };
    let params = match certificate_params(leaf_certificate_names()) {
        Ok(p) => p,
        Err(e) => {
            return Err(CliError::Config(e));
        },
    };
    match self_signed_pem(&params, &key) {
        Ok(c) => Ok(c),
        Err(e) => Err(CliError::Config(e)),
    }
}

} // verus!
