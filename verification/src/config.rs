use vstd::prelude::*;

use base64::Engine;

use crate::error::SyncError;
use crate::peer::valid_uuid;
use crate::text::{chars_eq, chars_of, push_chars};

verus! {

/// The language of the terminal interface.
#[derive(Debug, Clone, Copy, PartialEq, Eq, Structural)]
pub enum UiLanguage {
    ZhCn,
    En,
}

impl Default for UiLanguage {
    fn default() -> (l: Self)
        ensures
            l == UiLanguage::ZhCn,
    {
        UiLanguage::ZhCn
    }
}

/// The interface part of the configuration.
#[derive(Debug, Clone, Copy, PartialEq, Eq, Structural)]
pub struct UiConfig {
    pub language: UiLanguage,
}

impl Default for UiConfig {
    fn default() -> (c: Self)
        ensures
            c.language == UiLanguage::ZhCn,
    {
        UiConfig { language: UiLanguage::ZhCn }
    }
}

/// How the folder given by the user anchors the synchronized data.
#[derive(Debug, Clone, Copy, PartialEq, Eq, Structural)]
pub enum LayoutMode {
    TauriTavern,
    SillyTavern,
    SillyTavernDocker,
}

/// Persistent configuration written to `config.toml`.
#[derive(Debug, Clone)]
pub struct Config {
    /// User-provided folder path used as the layout anchor.
    pub workspace_path: String,
    pub layout: LayoutMode,
    /// Public base URL for pair URIs (e.g., https://my-vps:8443).
    pub public_url: String,
    pub listen: String,
    pub ui: UiConfig,
}

/// The address the server listens on when the config names none.
pub fn default_listen() -> (s: String)
    ensures
        s@ == "0.0.0.0:8443"@,
{
    "0.0.0.0:8443".to_string()
}

/// Device identity persisted in `identity.json`.
#[derive(Debug, Clone)]
pub struct Identity {
    pub device_id: String,
    pub device_name: String,
    /// Ed25519 private key, base64url-encoded without padding.
    pub private_key: String,
}

/// Whether a config file given on the command line is honoured.
#[derive(Debug, Clone, Copy, PartialEq, Eq, Structural)]
pub enum ConfigPathMode {
    Tui,
    Cli,
}

/// An error of the command-line tool.
#[derive(Debug, Clone)]
pub enum CliError {
    Config(String),
    Sync(SyncError),
    Io(String),
}

impl CliError {
    /// The text the error shows.
    pub open spec fn text(&self) -> Seq<char> {
        match self {
            CliError::Config(m) => m@,
            CliError::Sync(e) => e.text(),
            CliError::Io(m) => m@,
        }
    }

    /// The text the error shows.
    pub fn message(&self) -> (s: String)
        ensures
            s@ == self.text(),
    {
        match self {
            CliError::Config(m) => m.clone(),
            CliError::Sync(e) => e.message(),
            CliError::Io(m) => m.clone(),
        }
    }

    /// A configuration error with the given text.
    pub open spec fn is_config(&self, m: Seq<char>) -> bool {
        self matches CliError::Config(t) && t@ == m
    }
}

impl From<SyncError> for CliError {
    fn from(e: SyncError) -> (r: Self) {
        CliError::Sync(e)
    }
}

impl vstd::std_specs::convert::FromSpecImpl<SyncError> for CliError {
    open spec fn obeys_from_spec() -> bool {
        true
    }

    open spec fn from_spec(e: SyncError) -> CliError {
        CliError::Sync(e)
    }
}

/// The config file to use: the one given on the command line, but only for
/// command-line subcommands; the default one otherwise.
pub fn resolve_config_path(default_path: String, override_path: Option<&str>, mode: ConfigPathMode) -> (r:
    String)
    ensures
        r@ == (match (mode, override_path) {
            (ConfigPathMode::Cli, Some(p)) => p@,
            _ => default_path@,
        }),
{
    match (mode, override_path) {
        (ConfigPathMode::Cli, Some(p)) => p.to_string(),
        _ => default_path,
    }
}

/// `name` under the directory `dir`, as a `/`-separated path: nothing is put
/// before `name` when `dir` is empty, and no second separator when `dir` ends
/// with one.
pub open spec fn join_path(dir: Seq<char>, name: Seq<char>) -> Seq<char> {
    if dir.len() == 0 {
        name
    } else if dir.last() == '/' {
        dir + name
    } else {
        dir + seq!['/'] + name
    }
}

/// `name` under the directory `dir`.
pub fn join_path_exec(dir: &str, name: &str) -> (r: String)
    ensures
        r@ == join_path(dir@, name@),
{
    let d = chars_of(dir);
    let n = chars_of(name);
    let mut out = dir.to_string();
    if d.len() == 0 {
        let mut e = String::new();
        push_chars(&mut e, n.as_slice());
        return e;
    }
    if d[d.len() - 1] != '/' {
        out.push('/');
    }
    push_chars(&mut out, n.as_slice());
    out
}

/// The state directory: the one given on the command line, else the one in
/// `TT_SYNC_STATE_DIR`, else `tt-sync` under the user's local data directory
/// (the current directory where there is none).
pub fn resolve_state_dir(override_dir: Option<&str>, env_dir: Option<&str>, data_local_dir: Option<&str>) -> (r:
    String)
    ensures
        r@ == (match (override_dir, env_dir) {
            (Some(d), _) => d@,
            (None, Some(e)) => e@,
            (None, None) => join_path(
                match data_local_dir {
                    Some(d) => d@,
                    None => "."@,
                },
                "tt-sync"@,
            ),
        }),
{
    if let Some(d) = override_dir {
        return d.to_string();
    }
    if let Some(e) = env_dir {
        return e.to_string();
    }
    match data_local_dir {
        Some(d) => join_path_exec(d, "tt-sync"),
        None => join_path_exec(".", "tt-sync"),
    }
}

/// The default config file: `config.toml` beside the executable, whose
/// directory is given; an error when the executable has none.
pub fn config_path_beside(exe_dir: Option<&str>) -> (r: Result<String, CliError>)
    ensures
        match exe_dir {
            Some(d) => r matches Ok(p) && p@ == join_path(d@, "config.toml"@),
            None => r matches Err(e) && e.is_config("current_exe has no parent directory"@),
        },
{
    match exe_dir {
        Some(d) => Ok(join_path_exec(d, "config.toml")),
        None => Err(CliError::Config("current_exe has no parent directory".to_string())),
    }
}

/// The identity file of a state directory.
pub fn identity_path(state_dir: &str) -> (r: String)
    ensures
        r@ == join_path(state_dir@, "identity.json"@),
{
    join_path_exec(state_dir, "identity.json")
}

/// What `--layout` accepts, and the mode each word names.
pub open spec fn layout_named(s: Seq<char>) -> Option<LayoutMode> {
    if s == "tauritavern"@ {
        Some(LayoutMode::TauriTavern)
    } else if s == "sillytavern"@ {
        Some(LayoutMode::SillyTavern)
    } else if s == "sillytavern-docker"@ {
        Some(LayoutMode::SillyTavernDocker)
    } else {
        None
    }
}

fn str_eq(a: &str, b: &str) -> (r: bool)
    ensures
        r == (a@ == b@),
{
    let x = chars_of(a);
    let y = chars_of(b);
    chars_eq(x.as_slice(), y.as_slice())
}

/// Reads a layout mode as `--layout` writes it.
pub fn parse_layout(s: &str) -> (r: Result<LayoutMode, CliError>)
    ensures
        match layout_named(s@) {
            Some(m) => r == Ok::<LayoutMode, CliError>(m),
            None => r matches Err(e) && e.is_config("unknown layout: "@ + s@),
        },
{
    if str_eq(s, "tauritavern") {
        Ok(LayoutMode::TauriTavern)
    } else if str_eq(s, "sillytavern") {
        Ok(LayoutMode::SillyTavern)
    } else if str_eq(s, "sillytavern-docker") {
        Ok(LayoutMode::SillyTavernDocker)
    } else {
        let mut m = "unknown layout: ".to_string();
        m.append(s);
        Err(CliError::Config(m))
    }
}

/// What `URL_SAFE_NO_PAD.encode` of the `base64` crate gives for these bytes.
pub uninterp spec fn base64_url_nopad(bytes: Seq<u8>) -> Seq<char>;

/// What `URL_SAFE_NO_PAD.decode` of the `base64` crate gives for this text:
/// the bytes, or `None` where it reports an error.
pub uninterp spec fn base64_url_nopad_decoded(text: Seq<char>) -> Option<Seq<u8>>;

/// Calls `base64::engine::general_purpose::URL_SAFE_NO_PAD.encode`. The text is
/// named by `base64_url_nopad`; decoding it with the same engine gives the
/// bytes back, as the crate's encoder and decoder are made to do. Inputs too
/// long for the crate to size its output are left out.
#[verifier::external_body]
fn encode_base64_url_nopad(bytes: &[u8]) -> (r: String)
    requires
        bytes@.len() <= usize::MAX / 2,
    ensures
        r@ == base64_url_nopad(bytes@),
        base64_url_nopad_decoded(r@) == Some(bytes@),
{
    base64::engine::general_purpose::URL_SAFE_NO_PAD.encode(bytes)
}

/// Calls `base64::engine::general_purpose::URL_SAFE_NO_PAD.decode`. On success
/// the bytes are those named by `base64_url_nopad_decoded`; an error comes
/// exactly where that name gives `None`, and carries the crate's description,
/// whose words are not stated here.
#[verifier::external_body]
fn decode_base64_url_nopad(text: &str) -> (r: Result<Vec<u8>, String>)
    ensures
        match r {
            Ok(b) => base64_url_nopad_decoded(text@) == Some(b@),
            Err(_) => base64_url_nopad_decoded(text@) is None,
        },
{
    match base64::engine::general_purpose::URL_SAFE_NO_PAD.decode(text) {
        Ok(b) => Ok(b),
        Err(e) => Err(e.to_string()),
    }
}

/// The 32-byte secret that an identity's private key holds, if it holds one.
pub open spec fn private_key_secret(private_key: Seq<char>) -> Option<Seq<u8>> {
    match base64_url_nopad_decoded(private_key) {
        Some(b) => if b.len() == 32 {
            Some(b)
        } else {
            None
        },
        None => None,
    }
}

/// Decodes the private key of `identity` into its 32 secret bytes.
pub fn private_key_bytes(identity: &Identity) -> (r: Result<Vec<u8>, CliError>)
    ensures
        match base64_url_nopad_decoded(identity.private_key@) {
            None => r matches Err(CliError::Config(m)) && ("decode private key: "@).is_prefix_of(m@),
            Some(b) => if b.len() == 32 {
                r matches Ok(k) && k@ == b
            } else {
                r matches Err(e) && e.is_config("invalid private key length"@)
            },
        },
{
    let bytes = match decode_base64_url_nopad(identity.private_key.as_str()) {
        Ok(b) => b,
        Err(e) => {
            let mut m = "decode private key: ".to_string();
            let ghost prefix = m@;
            m.append(e.as_str());
            assert(prefix =~= m@.take(prefix.len() as int));
            return Err(CliError::Config(m));
        },
    };
    if bytes.len() != 32 {
        return Err(CliError::Config("invalid private key length".to_string()));
    }
    Ok(bytes)
}

#[verifier::external_type_specification]
#[verifier::external_body]
pub struct ExSigningKey(ed25519_dalek::SigningKey);

/// Calls `ed25519_dalek::SigningKey::from_bytes` on a 32-byte secret. Nothing
/// is claimed of the key it builds.
#[verifier::external_body]
fn signing_key_from_bytes(secret: &[u8]) -> (k: ed25519_dalek::SigningKey)
    requires
        secret@.len() == 32,
{
    let bytes: [u8; 32] = secret.try_into().unwrap();
    ed25519_dalek::SigningKey::from_bytes(&bytes)
}

/// The signing key of `identity`, built from its decoded secret.
pub fn signing_key(identity: &Identity) -> (r: Result<ed25519_dalek::SigningKey, CliError>)
    ensures
        r is Ok <==> private_key_secret(identity.private_key@) is Some,
        r matches Err(e) ==> (e matches CliError::Config(_)),
{
    let secret = private_key_bytes(identity)?;
    Ok(signing_key_from_bytes(secret.as_slice()))
}

/// The identity for a device with this secret and id: the device is named
/// `TT-Sync`, and its private key is the secret in base64url without padding.
/// The secret of an Ed25519 signing key made from these bytes is the bytes
/// themselves, so they are encoded as they come.
pub fn identity_from_secret(secret: &[u8], device_id: String) -> (r: Identity)
    requires
        secret@.len() == 32,
    ensures
        r.device_id@ == device_id@,
        r.device_name@ == "TT-Sync"@,
        r.private_key@ == base64_url_nopad(secret@),
        private_key_secret(r.private_key@) == Some(secret@),
{
    let private_key = encode_base64_url_nopad(secret);
    Identity { device_id, device_name: "TT-Sync".to_string(), private_key }
}

/// Calls `rand::random` for 32 bytes. They come from the thread's random
/// generator, so nothing is claimed of them but their number.
#[verifier::external_body]
fn random_secret() -> (r: Vec<u8>)
    ensures
        r@.len() == 32,
{
    let secret: [u8; 32] = rand::random();
    secret.to_vec()
}

/// Calls `uuid::Uuid::new_v4` and formats the id as its `Display` does: the
/// hyphenated 8-4-4-4-12 hexadecimal form. The id itself is random.
#[verifier::external_body]
fn random_device_id() -> (r: String)
    ensures
        valid_uuid(r@),
{
    uuid::Uuid::new_v4().to_string()
}

/// A new identity with a random secret and a random device id.
pub fn create_identity() -> (r: Identity)
    ensures
        valid_uuid(r.device_id@),
        r.device_name@ == "TT-Sync"@,
        private_key_secret(r.private_key@) is Some,
        exists|s: Seq<u8>| s.len() == 32 && r.private_key@ == #[trigger] base64_url_nopad(s),
{
    let secret = random_secret();
    let device_id = random_device_id();
    identity_from_secret(secret.as_slice(), device_id)
}

/// The folders found under the synchronized folder, as shown.
#[derive(Debug, Clone)]
pub struct MountPaths {
    pub data_root: String,
    pub default_user_root: String,
    pub extensions_root: String,
}

/// How a layout is named in reports.
pub open spec fn layout_debug_name(mode: LayoutMode) -> Seq<char> {
    match mode {
        LayoutMode::TauriTavern => "TauriTavern"@,
        LayoutMode::SillyTavern => "SillyTavern"@,
        LayoutMode::SillyTavernDocker => "SillyTavernDocker"@,
    }
}

pub fn layout_debug_name_exec(mode: LayoutMode) -> (s: &'static str)
    ensures
        s@ == layout_debug_name(mode),
{
    match mode {
        LayoutMode::TauriTavern => "TauriTavern",
        LayoutMode::SillyTavern => "SillyTavern",
        LayoutMode::SillyTavernDocker => "SillyTavernDocker",
    }
}

} // verus!
