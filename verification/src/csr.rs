//! The interactive dialogue that gathers a certificate signing request's
//! subject, as a state machine: each step takes the session and the answer
//! to the last request, and yields the next request.
//!
//! The caller performs the requests (prompting, reading files, parsing
//! identities, locators and fingerprints, creating the request) and feeds
//! the outcome back as an event.

use vstd::prelude::*;
use vstd::utf8::*;
use crate::codec::{HexError, hex_value, hex_decode_result, is_hex_digit, is_hex_text, hex_bytes, uri_parse_error, hex_decode, uri_error};
use crate::text::{decimal_text, trim_text, trim, utf8_text, position_text, lemma_encoding_nonempty};

verus! {

/// How many name fields the dialogue asks for.
pub const NAME_FIELD_COUNT: usize = 12;

/// Where the dialogue stands: which answer it waits for.
#[derive(Debug, Clone, Copy, PartialEq, Eq, Structural)]
pub enum CsrStage {
    /// The path of the subject unique ID secret key.
    UniqueIdPath,
    /// The contents of the secret key file.
    UniqueIdSecret,
    /// The subject timestamp.
    Timestamp,
    /// An identity, or nothing to end the identities.
    Identity,
    /// What reading the identity gave.
    IdentityCheck,
    /// A locator for the identity, or nothing.
    Locator,
    /// What reading the locator gave.
    LocatorCheck,
    /// The confirmation that the identity was kept.
    IdentityKeep,
    /// A network ID; anything but 16 bytes ends the networks.
    NetworkId,
    /// The fingerprint of the network's controller, or nothing.
    Fingerprint,
    /// What parsing the fingerprint gave.
    FingerprintCheck,
    /// The confirmation that the network was kept.
    NetworkKeep,
    /// An update URL, or nothing to end the URLs.
    UpdateUrl,
    /// The next name field.
    NameField,
    /// All answers are in; the request is to be created.
    Complete,
    /// The dialogue stopped on an error.
    Failed,
}

/// Why the dialogue stopped.
#[derive(Debug)]
pub enum CsrError {
    /// The secret key file could not be read; the reader's message.
    SecretUnreadable(String),
    /// The secret key file is not UTF-8.
    SecretNotUtf8,
    /// The secret key is not hexadecimal.
    InvalidSecret(HexError),
    /// The timestamp is negative.
    InvalidTimestamp,
    /// The identity could not be read or parsed.
    InvalidIdentity,
    /// The identity holds a private key.
    IdentityHasPrivate,
    /// The locator could not be read or parsed; the reader's message.
    InvalidLocator(String),
    /// The locator was not signed by the identity.
    LocatorNotSigned,
    /// The fingerprint could not be parsed; the parser's message.
    InvalidFingerprint(String),
    /// The URL is not a URI; the parser's message.
    InvalidUrl(String),
}

/// What the caller is to do next.
#[derive(Debug)]
pub enum CsrAction {
    /// Print `header` if there is one, then ask for a line of text, which
    /// may be empty.
    Ask { header: Option<String>, prompt: String },
    /// Ask for the subject timestamp, offering the current time.
    AskTimestamp { prompt: String },
    /// Read the secret key file at `path`.
    ReadSecret { path: String },
    /// Read the identity given as `input` (itself or a path to it).
    ReadIdentity { input: String },
    /// Read the locator given as `input` and check it against the identity.
    ReadLocator { input: String },
    /// Parse `input` as a fingerprint.
    ParseFingerprint { input: String },
    /// Keep the identity just read, with its locator if one was given.
    KeepIdentity { with_locator: bool },
    /// Keep the network `network_id`, with its fingerprint if one was given.
    KeepNetwork { network_id: String, with_fingerprint: bool },
    /// Create the request from what was gathered.
    Create,
    /// Report the error and stop.
    Fail(CsrError),
}

/// What reading an identity showed.
#[derive(Debug)]
pub struct IdentityFacts {
    /// Whether the identity holds its private key.
    pub has_private: bool,
    /// The identity's address, as text.
    pub address: String,
}

/// The outcome of the last request.
#[derive(Debug)]
pub enum CsrEvent {
    /// A line of text.
    Text(String),
    /// A timestamp.
    Timestamp(i64),
    /// The secret key file's bytes, or the reader's error message.
    Secret(Result<Vec<u8>, String>),
    /// The identity, or `None` if it could not be read or parsed.
    Identity(Option<IdentityFacts>),
    /// Whether the identity signed the locator, or the reader's message.
    Locator(Result<bool, String>),
    /// Whether the fingerprint parsed, with the parser's message if not.
    Fingerprint(Result<(), String>),
    /// The requested item was kept.
    Kept,
}

/// The dialogue's state.
#[derive(Debug)]
pub struct CsrSession {
    /// Which answer is awaited.
    pub stage: CsrStage,
    /// The decoded subject unique ID secret key, if one was given.
    pub unique_id_secret: Option<Vec<u8>>,
    /// The subject timestamp.
    pub timestamp: i64,
    /// The addresses of the identities kept so far.
    pub identities: Vec<String>,
    /// The address of the identity being asked about.
    pub pending_address: String,
    /// The network IDs kept so far.
    pub networks: Vec<String>,
    /// The network ID being asked about.
    pub pending_network: String,
    /// The update URLs kept so far.
    pub update_urls: Vec<String>,
    /// The name fields given so far, in the order asked.
    pub name: Vec<String>,
}

// ---------------------------------------------------------------------
// The mathematical model.
// ---------------------------------------------------------------------

/// Why the dialogue stopped, over plain values.
pub enum CsrErrorModel {
    SecretUnreadable(Seq<char>),
    SecretNotUtf8,
    InvalidSecret(HexError),
    InvalidTimestamp,
    InvalidIdentity,
    IdentityHasPrivate,
    InvalidLocator(Seq<char>),
    LocatorNotSigned,
    InvalidFingerprint(Seq<char>),
    InvalidUrl(Seq<char>),
}

/// What the caller is to do next, over plain values.
pub enum CsrActionModel {
    Ask { header: Option<Seq<char>>, prompt: Seq<char> },
    AskTimestamp { prompt: Seq<char> },
    ReadSecret { path: Seq<char> },
    ReadIdentity { input: Seq<char> },
    ReadLocator { input: Seq<char> },
    ParseFingerprint { input: Seq<char> },
    KeepIdentity { with_locator: bool },
    KeepNetwork { network_id: Seq<char>, with_fingerprint: bool },
    Create,
    Fail(CsrErrorModel),
}

/// The outcome of the last request, over plain values.
pub enum CsrEventModel {
    Text(Seq<char>),
    Timestamp(i64),
    Secret(Result<Seq<u8>, Seq<char>>),
    Identity(Option<(bool, Seq<char>)>),
    Locator(Result<bool, Seq<char>>),
    Fingerprint(Result<(), Seq<char>>),
    Kept,
}

/// The dialogue's state, over plain values.
pub struct CsrModel {
    pub stage: CsrStage,
    pub unique_id_secret: Option<Seq<u8>>,
    pub timestamp: i64,
    pub identities: Seq<Seq<char>>,
    pub pending_address: Seq<char>,
    pub networks: Seq<Seq<char>>,
    pub pending_network: Seq<char>,
    pub update_urls: Seq<Seq<char>>,
    pub name: Seq<Seq<char>>,
}

impl View for CsrError {
    type V = CsrErrorModel;

    open spec fn view(&self) -> CsrErrorModel {
        match self {
            CsrError::SecretUnreadable(m) => CsrErrorModel::SecretUnreadable(m@),
            CsrError::SecretNotUtf8 => CsrErrorModel::SecretNotUtf8,
            CsrError::InvalidSecret(e) => CsrErrorModel::InvalidSecret(*e),
            CsrError::InvalidTimestamp => CsrErrorModel::InvalidTimestamp,
            CsrError::InvalidIdentity => CsrErrorModel::InvalidIdentity,
            CsrError::IdentityHasPrivate => CsrErrorModel::IdentityHasPrivate,
            CsrError::InvalidLocator(m) => CsrErrorModel::InvalidLocator(m@),
            CsrError::LocatorNotSigned => CsrErrorModel::LocatorNotSigned,
            CsrError::InvalidFingerprint(m) => CsrErrorModel::InvalidFingerprint(m@),
            CsrError::InvalidUrl(m) => CsrErrorModel::InvalidUrl(m@),
        }
    }
}

impl View for CsrAction {
    type V = CsrActionModel;

    open spec fn view(&self) -> CsrActionModel {
        match self {
            CsrAction::Ask { header, prompt } => CsrActionModel::Ask {
                header: match header {
                    Some(h) => Some(h@),
                    None => None,
                },
                prompt: prompt@,
            },
            CsrAction::AskTimestamp { prompt } => CsrActionModel::AskTimestamp { prompt: prompt@ },
            CsrAction::ReadSecret { path } => CsrActionModel::ReadSecret { path: path@ },
            CsrAction::ReadIdentity { input } => CsrActionModel::ReadIdentity { input: input@ },
            CsrAction::ReadLocator { input } => CsrActionModel::ReadLocator { input: input@ },
            CsrAction::ParseFingerprint { input } => CsrActionModel::ParseFingerprint {
                input: input@,
            },
            CsrAction::KeepIdentity { with_locator } => CsrActionModel::KeepIdentity {
                with_locator: *with_locator,
            },
            CsrAction::KeepNetwork { network_id, with_fingerprint } => CsrActionModel::KeepNetwork {
                network_id: network_id@,
                with_fingerprint: *with_fingerprint,
            },
            CsrAction::Create => CsrActionModel::Create,
            CsrAction::Fail(e) => CsrActionModel::Fail(e@),
        }
    }
}

impl View for CsrEvent {
    type V = CsrEventModel;

    open spec fn view(&self) -> CsrEventModel {
        match self {
            CsrEvent::Text(t) => CsrEventModel::Text(t@),
            CsrEvent::Timestamp(v) => CsrEventModel::Timestamp(*v),
            CsrEvent::Secret(r) => CsrEventModel::Secret(
                match r {
                    Ok(b) => Ok(b@),
                    Err(m) => Err(m@),
                },
            ),
            CsrEvent::Identity(f) => CsrEventModel::Identity(
                match f {
                    Some(f) => Some((f.has_private, f.address@)),
                    None => None,
                },
            ),
            CsrEvent::Locator(r) => CsrEventModel::Locator(
                match r {
                    Ok(b) => Ok(*b),
                    Err(m) => Err(m@),
                },
            ),
            CsrEvent::Fingerprint(r) => CsrEventModel::Fingerprint(
                match r {
                    Ok(()) => Ok(()),
                    Err(m) => Err(m@),
                },
            ),
            CsrEvent::Kept => CsrEventModel::Kept,
        }
    }
}

/// The views of a vector of strings.
pub open spec fn texts(v: Seq<String>) -> Seq<Seq<char>> {
    v.map_values(|s: String| s@)
}

impl View for CsrSession {
    type V = CsrModel;

    open spec fn view(&self) -> CsrModel {
        CsrModel {
            stage: self.stage,
            unique_id_secret: match self.unique_id_secret {
                Some(k) => Some(k@),
                None => None,
            },
            timestamp: self.timestamp,
            identities: texts(self.identities@),
            pending_address: self.pending_address@,
            networks: texts(self.networks@),
            pending_network: self.pending_network@,
            update_urls: texts(self.update_urls@),
            name: texts(self.name@),
        }
    }
}

// ---------------------------------------------------------------------
// Prompts.
// ---------------------------------------------------------------------

pub open spec fn unique_id_prompt() -> Seq<char> {
    "Path to subject unique ID secret key (empty to create unsigned subject)"@
}

pub open spec fn timestamp_prompt() -> Seq<char> {
    "Subject timestamp (seconds since epoch)"@
}

pub open spec fn identities_header() -> Seq<char> {
    "Subject identities"@
}

pub open spec fn networks_header() -> Seq<char> {
    "Subject networks (empty to end)"@
}

pub open spec fn urls_header() -> Seq<char> {
    "Subject certificate update URLs"@
}

pub open spec fn name_header() -> Seq<char> {
    "Certificate name information (all fields are optional)"@
}

/// `  [n] ` followed by `rest`, where `n` is one more than `count`.
pub open spec fn numbered(count: nat, rest: Seq<char>) -> Seq<char> {
    "  ["@ + decimal_text(count + 1int) + "] "@ + rest
}

pub open spec fn identity_prompt(count: nat) -> Seq<char> {
    numbered(count, "Identity or path to identity (empty to end)"@)
}

pub open spec fn locator_prompt(count: nat, address: Seq<char>) -> Seq<char> {
    numbered(count, "Locator or path to locator for "@ + address + " (optional)"@)
}

pub open spec fn network_prompt(count: nat) -> Seq<char> {
    numbered(count, "Network ID (empty to end)"@)
}

pub open spec fn fingerprint_prompt(count: nat) -> Seq<char> {
    numbered(count, "Fingerprint of primary controller (optional)"@)
}

pub open spec fn url_prompt(count: nat) -> Seq<char> {
    numbered(count, "URL (empty to end)"@)
}

/// The prompt of the name field at position `i`, in the order asked:
/// serial, common name, organization, unit, country, province, locality,
/// street address, postal code, e-mail, URL and host.
pub open spec fn name_prompt(i: int) -> Seq<char> {
    if i == 0 {
        "  Serial"@
    } else if i == 1 {
        "  Common Name"@
    } else if i == 2 {
        "  Organization"@
    } else if i == 3 {
        "  Organizational Unit"@
    } else if i == 4 {
        "  Country"@
    } else if i == 5 {
        "  State/Province"@
    } else if i == 6 {
        "  Locality"@
    } else if i == 7 {
        "  Street Address"@
    } else if i == 8 {
        "  Postal Code"@
    } else if i == 9 {
        "  E-Mail"@
    } else if i == 10 {
        "  URL (informational)"@
    } else {
        "  Host"@
    }
}

/// The request that asks for a line of text, without a header.
pub open spec fn ask(prompt: Seq<char>) -> CsrActionModel {
    CsrActionModel::Ask { header: None, prompt }
}

/// The request that asks for a line of text after printing `header`.
pub open spec fn ask_after(header: Seq<char>, prompt: Seq<char>) -> CsrActionModel {
    CsrActionModel::Ask { header: Some(header), prompt }
}

/// The model stopped with `e`.
pub open spec fn failing(m: CsrModel, e: CsrErrorModel) -> (CsrModel, CsrActionModel) {
    (CsrModel { stage: CsrStage::Failed, ..m }, CsrActionModel::Fail(e))
}

// ---------------------------------------------------------------------
// The transition function.
// ---------------------------------------------------------------------

/// The dialogue's first state.
pub open spec fn initial_model() -> CsrModel {
    CsrModel {
        stage: CsrStage::UniqueIdPath,
        unique_id_secret: None,
        timestamp: 0,
        identities: Seq::empty(),
        pending_address: Seq::empty(),
        networks: Seq::empty(),
        pending_network: Seq::empty(),
        update_urls: Seq::empty(),
        name: Seq::empty(),
    }
}

/// Whether the bytes are UTF-8 text that is all whitespace.
pub open spec fn is_blank_text(b: Seq<u8>) -> bool {
    valid_utf8(b) && trim_text(decode_utf8(b)).len() == 0
}

/// Whether the dialogue can take event `e` in state `m`: the event answers
/// the request of `m`'s stage, and is not a secret key file that holds
/// only whitespace.
pub open spec fn accepts(m: CsrModel, e: CsrEventModel) -> bool {
    match m.stage {
        CsrStage::UniqueIdPath => e is Text,
        CsrStage::UniqueIdSecret => match e {
            CsrEventModel::Secret(Ok(b)) => !is_blank_text(b),
            CsrEventModel::Secret(Err(_)) => true,
            _ => false,
        },
        CsrStage::Timestamp => e is Timestamp,
        CsrStage::Identity => e is Text,
        CsrStage::IdentityCheck => e is Identity,
        CsrStage::Locator => e is Text,
        CsrStage::LocatorCheck => e is Locator,
        CsrStage::IdentityKeep => e is Kept,
        CsrStage::NetworkId => e is Text,
        CsrStage::Fingerprint => e is Text,
        CsrStage::FingerprintCheck => e is Fingerprint,
        CsrStage::NetworkKeep => e is Kept,
        CsrStage::UpdateUrl => e is Text,
        CsrStage::NameField => e is Text,
        CsrStage::Complete => false,
        CsrStage::Failed => false,
    }
}

/// What the secret key file's bytes `b` make of the dialogue.
pub open spec fn on_secret_bytes(m: CsrModel, b: Seq<u8>) -> (CsrModel, CsrActionModel) {
    if !valid_utf8(b) {
        failing(m, CsrErrorModel::SecretNotUtf8)
    } else {
        let digits = encode_utf8(trim_text(decode_utf8(b)));
        if is_hex_text(digits) {
            (
                CsrModel {
                    stage: CsrStage::Timestamp,
                    unique_id_secret: Some(hex_bytes(digits)),
                    ..m
                },
                CsrActionModel::AskTimestamp { prompt: timestamp_prompt() },
            )
        } else {
            failing(m, CsrErrorModel::InvalidSecret(hex_error_of(digits)))
        }
    }
}

/// The error that `hex::decode` reports on digits that do not decode.
pub open spec fn hex_error_of(s: Seq<u8>) -> HexError {
    if s.len() % 2 == 1 {
        HexError::OddLength
    } else {
        let index = choose|k: int|
            0 <= k < s.len() && !is_hex_digit(s[k]) && forall|j: int|
                0 <= j < k ==> is_hex_digit(#[trigger] s[j]);
        HexError::InvalidHexCharacter { c: s[index] as char, index: index as usize }
    }
}

/// The state and request that follow event `e` in state `m`.
pub open spec fn next(m: CsrModel, e: CsrEventModel) -> (CsrModel, CsrActionModel) {
    match (m.stage, e) {
        (CsrStage::UniqueIdPath, CsrEventModel::Text(t)) => if t.len() == 0 {
            (
                CsrModel { stage: CsrStage::Timestamp, unique_id_secret: None, ..m },
                CsrActionModel::AskTimestamp { prompt: timestamp_prompt() },
            )
        } else {
            (
                CsrModel { stage: CsrStage::UniqueIdSecret, ..m },
                CsrActionModel::ReadSecret { path: t },
            )
        },
        (CsrStage::UniqueIdSecret, CsrEventModel::Secret(r)) => match r {
            Err(msg) => failing(m, CsrErrorModel::SecretUnreadable(msg)),
            Ok(b) => on_secret_bytes(m, b),
        },
        (CsrStage::Timestamp, CsrEventModel::Timestamp(v)) => if v < 0 {
            failing(m, CsrErrorModel::InvalidTimestamp)
        } else {
            (
                CsrModel { stage: CsrStage::Identity, timestamp: v, ..m },
                ask_after(identities_header(), identity_prompt(m.identities.len())),
            )
        },
        (CsrStage::Identity, CsrEventModel::Text(t)) => if t.len() == 0 {
            (
                CsrModel { stage: CsrStage::NetworkId, ..m },
                ask_after(networks_header(), network_prompt(m.networks.len())),
            )
        } else {
            (
                CsrModel { stage: CsrStage::IdentityCheck, ..m },
                CsrActionModel::ReadIdentity { input: t },
            )
        },
        (CsrStage::IdentityCheck, CsrEventModel::Identity(f)) => match f {
            None => failing(m, CsrErrorModel::InvalidIdentity),
            Some((has_private, address)) => if has_private {
                failing(m, CsrErrorModel::IdentityHasPrivate)
            } else {
                (
                    CsrModel { stage: CsrStage::Locator, pending_address: address, ..m },
                    ask(locator_prompt(m.identities.len(), address)),
                )
            },
        },
        (CsrStage::Locator, CsrEventModel::Text(t)) => if t.len() == 0 {
            (
                CsrModel { stage: CsrStage::IdentityKeep, ..m },
                CsrActionModel::KeepIdentity { with_locator: false },
            )
        } else {
            (
                CsrModel { stage: CsrStage::LocatorCheck, ..m },
                CsrActionModel::ReadLocator { input: t },
            )
        },
        (CsrStage::LocatorCheck, CsrEventModel::Locator(r)) => match r {
            Err(msg) => failing(m, CsrErrorModel::InvalidLocator(msg)),
            Ok(signed) => if signed {
                (
                    CsrModel { stage: CsrStage::IdentityKeep, ..m },
                    CsrActionModel::KeepIdentity { with_locator: true },
                )
            } else {
                failing(m, CsrErrorModel::LocatorNotSigned)
            },
        },
        (CsrStage::IdentityKeep, CsrEventModel::Kept) => (
            CsrModel {
                stage: CsrStage::Identity,
                identities: m.identities.push(m.pending_address),
                ..m
            },
            ask(identity_prompt(m.identities.len() + 1)),
        ),
        (CsrStage::NetworkId, CsrEventModel::Text(t)) => if encode_utf8(t).len() != 16 {
            (
                CsrModel { stage: CsrStage::UpdateUrl, ..m },
                ask_after(urls_header(), url_prompt(m.update_urls.len())),
            )
        } else {
            (
                CsrModel { stage: CsrStage::Fingerprint, pending_network: t, ..m },
                ask(fingerprint_prompt(m.networks.len())),
            )
        },
        (CsrStage::Fingerprint, CsrEventModel::Text(t)) => if t.len() == 0 {
            (
                CsrModel { stage: CsrStage::NetworkKeep, ..m },
                CsrActionModel::KeepNetwork {
                    network_id: m.pending_network,
                    with_fingerprint: false,
                },
            )
        } else {
            (
                CsrModel { stage: CsrStage::FingerprintCheck, ..m },
                CsrActionModel::ParseFingerprint { input: t },
            )
        },
        (CsrStage::FingerprintCheck, CsrEventModel::Fingerprint(r)) => match r {
            Err(msg) => failing(m, CsrErrorModel::InvalidFingerprint(msg)),
            Ok(()) => (
                CsrModel { stage: CsrStage::NetworkKeep, ..m },
                CsrActionModel::KeepNetwork {
                    network_id: m.pending_network,
                    with_fingerprint: true,
                },
            ),
        },
        (CsrStage::NetworkKeep, CsrEventModel::Kept) => (
            CsrModel {
                stage: CsrStage::NetworkId,
                networks: m.networks.push(m.pending_network),
                ..m
            },
            ask(network_prompt(m.networks.len() + 1)),
        ),
        (CsrStage::UpdateUrl, CsrEventModel::Text(t)) => if t.len() == 0 {
            (
                CsrModel { stage: CsrStage::NameField, ..m },
                ask_after(name_header(), name_prompt(0)),
            )
        } else {
            match uri_parse_error(t) {
                Some(msg) => failing(m, CsrErrorModel::InvalidUrl(msg)),
                None => (
                    CsrModel { update_urls: m.update_urls.push(t), ..m },
                    ask(url_prompt(m.update_urls.len() + 1)),
                ),
            }
        },
        (CsrStage::NameField, CsrEventModel::Text(t)) => if m.name.len() + 1
            == NAME_FIELD_COUNT {
            (
                CsrModel { stage: CsrStage::Complete, name: m.name.push(t), ..m },
                CsrActionModel::Create,
            )
        } else {
            (CsrModel { name: m.name.push(t), ..m }, ask(name_prompt(m.name.len() + 1int)))
        },
        _ => (m, CsrActionModel::Create),
    }
}

/// The invariant that every state reached from the first one keeps.
pub open spec fn well_formed(m: CsrModel) -> bool {
    &&& m.timestamp >= 0
    &&& m.unique_id_secret matches Some(k) ==> k.len() > 0
    &&& forall|i: int| 0 <= i < m.networks.len() ==> encode_utf8(#[trigger] m.networks[i]).len() == 16
    &&& (m.stage == CsrStage::Fingerprint || m.stage == CsrStage::FingerprintCheck || m.stage
        == CsrStage::NetworkKeep) ==> encode_utf8(m.pending_network).len() == 16
    &&& forall|i: int| 0 <= i < m.update_urls.len() ==> uri_parse_error(#[trigger] m.update_urls[i]) is None
    &&& m.name.len() <= NAME_FIELD_COUNT
    &&& m.stage == CsrStage::NameField ==> m.name.len() < NAME_FIELD_COUNT
    &&& (m.stage != CsrStage::NameField && m.stage != CsrStage::Complete && m.stage
        != CsrStage::Failed) ==> m.name.len() == 0
    &&& m.stage == CsrStage::Complete ==> m.name.len() == NAME_FIELD_COUNT
}

// ---------------------------------------------------------------------
// The executable dialogue.
// ---------------------------------------------------------------------

/// `  [n] ` followed by `rest`, where `n` is one more than `count`.
fn numbered_text(count: usize, rest: &str) -> (r: String)
    ensures
        r@ == numbered(count as nat, rest@),
{
    let mut out = "  [".to_owned();
    let n = position_text(count);
    out.append(n.as_str());
    out.append("] ");
    out.append(rest);
    assert(out@ =~= numbered(count as nat, rest@));
    out
}

fn locator_prompt_text(count: usize, address: &str) -> (r: String)
    ensures
        r@ == locator_prompt(count as nat, address@),
{
    let mut rest = "Locator or path to locator for ".to_owned();
    rest.append(address);
    rest.append(" (optional)");
    numbered_text(count, rest.as_str())
}

/// The prompt of the name field at position `i`.
fn name_prompt_text(i: usize) -> (r: &'static str)
    requires
        i < NAME_FIELD_COUNT,
    ensures
        r@ == name_prompt(i as int),
{
    if i == 0 {
        "  Serial"
    } else if i == 1 {
        "  Common Name"
    } else if i == 2 {
        "  Organization"
    } else if i == 3 {
        "  Organizational Unit"
    } else if i == 4 {
        "  Country"
    } else if i == 5 {
        "  State/Province"
    } else if i == 6 {
        "  Locality"
    } else if i == 7 {
        "  Street Address"
    } else if i == 8 {
        "  Postal Code"
    } else if i == 9 {
        "  E-Mail"
    } else if i == 10 {
        "  URL (informational)"
    } else {
        "  Host"
    }
}

fn ask_text(prompt: String) -> (a: CsrAction)
    ensures
        a@ == ask(prompt@),
{
    CsrAction::Ask { header: None, prompt }
}

fn ask_after_text(header: &str, prompt: String) -> (a: CsrAction)
    ensures
        a@ == ask_after(header@, prompt@),
{
    CsrAction::Ask { header: Some(header.to_owned()), prompt }
}

/// Whether the bytes are UTF-8 text that is all whitespace.
pub fn is_blank(b: &[u8]) -> (r: bool)
    ensures
        r == is_blank_text(b@),
{
    match utf8_text(b) {
        Some(t) => trim(t).is_empty(),
        None => false,
    }
}

proof fn lemma_texts_push(v: Seq<String>, t: String)
    ensures
        texts(v.push(t)) == texts(v).push(t@),
{
    assert(texts(v.push(t)) =~= texts(v).push(t@));
}

/// The error that `hex::decode` reported is the one `hex_error_of` names.
proof fn lemma_hex_error_of(s: Seq<u8>, e: HexError)
    requires
        hex_decode_result(s, Err(e)),
    ensures
        !is_hex_text(s),
        e == hex_error_of(s),
{
    if s.len() % 2 == 0 {
        let (c, index) = match e {
            HexError::InvalidHexCharacter { c, index } => (c, index),
            _ => (' ', 0usize),
        };
        assert(!is_hex_digit(s[index as int]));
        let k = choose|k: int|
            0 <= k < s.len() && !is_hex_digit(s[k]) && forall|j: int|
                0 <= j < k ==> is_hex_digit(#[trigger] s[j]);
        assert(0 <= k < s.len() && !is_hex_digit(s[k]));
        if k < index {
            assert(is_hex_digit(s[k]));
        }
        if index < k {
            assert(is_hex_digit(s[index as int]));
        }
    }
}

impl CsrSession {
    /// The dialogue's first state and request.
    pub fn start() -> (r: (CsrSession, CsrAction))
        ensures
            r.0@ == initial_model(),
            r.1@ == ask(unique_id_prompt()),
            well_formed(r.0@),
    {
        let s = CsrSession {
            stage: CsrStage::UniqueIdPath,
            unique_id_secret: None,
            timestamp: 0,
            identities: Vec::new(),
            pending_address: String::new(),
            networks: Vec::new(),
            pending_network: String::new(),
            update_urls: Vec::new(),
            name: Vec::new(),
        };
        assert(s@ =~= initial_model()) by {
            assert(texts(s.identities@) =~= Seq::empty());
            assert(texts(s.networks@) =~= Seq::empty());
            assert(texts(s.update_urls@) =~= Seq::empty());
            assert(texts(s.name@) =~= Seq::empty());
        }
        (
            s,
            ask_text(
                "Path to subject unique ID secret key (empty to create unsigned subject)".to_owned(),
            ),
        )
    }

    /// Whether the dialogue can take `e` now.
    pub fn accepts_event(&self, e: &CsrEvent) -> (r: bool)
        ensures
            r == accepts(self@, e@),
    {
        match self.stage {
            CsrStage::UniqueIdPath | CsrStage::Identity | CsrStage::Locator
            | CsrStage::NetworkId | CsrStage::Fingerprint | CsrStage::UpdateUrl
            | CsrStage::NameField => matches!(e, CsrEvent::Text(_)),
            CsrStage::UniqueIdSecret => match e {
                CsrEvent::Secret(Ok(b)) => !is_blank(b.as_slice()),
                CsrEvent::Secret(Err(_)) => true,
                _ => false,
            },
            CsrStage::Timestamp => matches!(e, CsrEvent::Timestamp(_)),
            CsrStage::IdentityCheck => matches!(e, CsrEvent::Identity(_)),
            CsrStage::LocatorCheck => matches!(e, CsrEvent::Locator(_)),
            CsrStage::FingerprintCheck => matches!(e, CsrEvent::Fingerprint(_)),
            CsrStage::IdentityKeep | CsrStage::NetworkKeep => matches!(e, CsrEvent::Kept),
            CsrStage::Complete | CsrStage::Failed => false,
        }
    }

    /// Whether the session satisfies `well_formed`, which every session
    /// that `start` and `step` give does.
    pub fn is_well_formed(&self) -> (r: bool)
        ensures
            r == well_formed(self@),
    {
        let ghost m = self@;
        if self.timestamp < 0 {
            return false;
        }
        match &self.unique_id_secret {
            Some(k) => {
                if k.len() == 0 {
                    return false;
                }
            },
            None => {},
        }
        let mut i: usize = 0;
        while i < self.networks.len()
            invariant
                i <= self.networks@.len(),
                m == self@,
                forall|j: int| 0 <= j < i ==> encode_utf8(#[trigger] m.networks[j]).len() == 16,
            decreases self.networks@.len() - i,
        {
            assert(m.networks[i as int] == self.networks@[i as int]@);
            if self.networks[i].as_str().as_bytes().len() != 16 {
                return false;
            }
            i = i + 1;
        }
        let pending = self.stage == CsrStage::Fingerprint || self.stage
            == CsrStage::FingerprintCheck || self.stage == CsrStage::NetworkKeep;
        if pending && self.pending_network.as_str().as_bytes().len() != 16 {
            return false;
        }
        let mut i: usize = 0;
        while i < self.update_urls.len()
            invariant
                i <= self.update_urls@.len(),
                m == self@,
                forall|j: int| 0 <= j < i ==> uri_parse_error(#[trigger] m.update_urls[j]) is None,
            decreases self.update_urls@.len() - i,
        {
            assert(m.update_urls[i as int] == self.update_urls@[i as int]@);
            if uri_error(self.update_urls[i].as_str()).is_some() {
                return false;
            }
            i = i + 1;
        }
        let n = self.name.len();
        if n > NAME_FIELD_COUNT {
            return false;
        }
        match self.stage {
            CsrStage::NameField => n < NAME_FIELD_COUNT,
            CsrStage::Complete => n == NAME_FIELD_COUNT,
            CsrStage::Failed => true,
            _ => n == 0,
        }
    }

    fn fail(&mut self, e: CsrError) -> (a: CsrAction)
        ensures
            (final(self)@, a@) == failing(old(self)@, e@),
    {
        self.stage = CsrStage::Failed;
        CsrAction::Fail(e)
    }

    fn on_secret(&mut self, b: Vec<u8>) -> (a: CsrAction)
        requires
            old(self).stage == CsrStage::UniqueIdSecret,
            !is_blank_text(b@),
        ensures
            (final(self)@, a@) == on_secret_bytes(old(self)@, b@),
    {
        match utf8_text(b.as_slice()) {
            None => self.fail(CsrError::SecretNotUtf8),
            Some(text) => {
                let t = trim(text);
                let digits = t.as_bytes();
                match hex_decode(digits) {
                    Ok(k) => {
                        self.unique_id_secret = Some(k);
                        self.stage = CsrStage::Timestamp;
                        CsrAction::AskTimestamp {
                            prompt: "Subject timestamp (seconds since epoch)".to_owned(),
                        }
                    },
                    Err(err) => {
                        proof {
                            lemma_hex_error_of(digits@, err);
                        }
                        self.fail(CsrError::InvalidSecret(err))
                    },
                }
            },
        }
    }

    /// Takes the answer `e` to the last request and gives the next request.
    pub fn step(&mut self, e: CsrEvent) -> (a: CsrAction)
        requires
            well_formed(old(self)@),
            accepts(old(self)@, e@),
        ensures
            (final(self)@, a@) == next(old(self)@, e@),
            well_formed(final(self)@),
    {
        proof {
            lemma_next_well_formed(self@, e@);
        }
        match e {
            CsrEvent::Text(t) => self.on_text(t),
            CsrEvent::Timestamp(v) => {
                if v < 0 {
                    self.fail(CsrError::InvalidTimestamp)
                } else {
                    self.timestamp = v;
                    self.stage = CsrStage::Identity;
                    ask_after_text(
                        "Subject identities",
                        numbered_text(
                            self.identities.len(),
                            "Identity or path to identity (empty to end)",
                        ),
                    )
                }
            },
            CsrEvent::Secret(r) => match r {
                Err(msg) => self.fail(CsrError::SecretUnreadable(msg)),
                Ok(b) => self.on_secret(b),
            },
            CsrEvent::Identity(f) => match f {
                None => self.fail(CsrError::InvalidIdentity),
                Some(f) => {
                    if f.has_private {
                        self.fail(CsrError::IdentityHasPrivate)
                    } else {
                        let prompt = locator_prompt_text(self.identities.len(), f.address.as_str());
                        self.pending_address = f.address;
                        self.stage = CsrStage::Locator;
                        ask_text(prompt)
                    }
                },
            },
            CsrEvent::Locator(r) => match r {
                Err(msg) => self.fail(CsrError::InvalidLocator(msg)),
                Ok(signed) => {
                    if signed {
                        self.stage = CsrStage::IdentityKeep;
                        CsrAction::KeepIdentity { with_locator: true }
                    } else {
                        self.fail(CsrError::LocatorNotSigned)
                    }
                },
            },
            CsrEvent::Fingerprint(r) => match r {
                Err(msg) => self.fail(CsrError::InvalidFingerprint(msg)),
                Ok(()) => {
                    self.stage = CsrStage::NetworkKeep;
                    CsrAction::KeepNetwork {
                        network_id: self.pending_network.clone(),
                        with_fingerprint: true,
                    }
                },
            },
            CsrEvent::Kept => {
                if self.stage == CsrStage::IdentityKeep {
                    let address = self.pending_address.clone();
                    proof {
                        lemma_texts_push(self.identities@, address);
                    }
                    self.identities.push(address);
                    self.stage = CsrStage::Identity;
                    ask_text(
                        numbered_text(
                            self.identities.len(),
                            "Identity or path to identity (empty to end)",
                        ),
                    )
                } else {
                    let id = self.pending_network.clone();
                    proof {
                        lemma_texts_push(self.networks@, id);
                    }
                    self.networks.push(id);
                    self.stage = CsrStage::NetworkId;
                    ask_text(numbered_text(self.networks.len(), "Network ID (empty to end)"))
                }
            },
        }
    }

    fn on_text(&mut self, t: String) -> (a: CsrAction)
        requires
            accepts(old(self)@, CsrEventModel::Text(t@)),
            well_formed(old(self)@),
        ensures
            (final(self)@, a@) == next(old(self)@, CsrEventModel::Text(t@)),
    {
        match self.stage {
            CsrStage::UniqueIdPath => {
                if t.as_str().is_empty() {
                    self.unique_id_secret = None;
                    self.stage = CsrStage::Timestamp;
                    CsrAction::AskTimestamp {
                        prompt: "Subject timestamp (seconds since epoch)".to_owned(),
                    }
                } else {
                    self.stage = CsrStage::UniqueIdSecret;
                    CsrAction::ReadSecret { path: t }
                }
            },
            CsrStage::Identity => {
                if t.as_str().is_empty() {
                    self.stage = CsrStage::NetworkId;
                    ask_after_text(
                        "Subject networks (empty to end)",
                        numbered_text(self.networks.len(), "Network ID (empty to end)"),
                    )
                } else {
                    self.stage = CsrStage::IdentityCheck;
                    CsrAction::ReadIdentity { input: t }
                }
            },
            CsrStage::Locator => {
                if t.as_str().is_empty() {
                    self.stage = CsrStage::IdentityKeep;
                    CsrAction::KeepIdentity { with_locator: false }
                } else {
                    self.stage = CsrStage::LocatorCheck;
                    CsrAction::ReadLocator { input: t }
                }
            },
            CsrStage::NetworkId => {
                if t.as_str().as_bytes().len() != 16 {
                    self.stage = CsrStage::UpdateUrl;
                    ask_after_text(
                        "Subject certificate update URLs",
                        numbered_text(self.update_urls.len(), "URL (empty to end)"),
                    )
                } else {
                    let prompt = numbered_text(
                        self.networks.len(),
                        "Fingerprint of primary controller (optional)",
                    );
                    self.pending_network = t;
                    self.stage = CsrStage::Fingerprint;
                    ask_text(prompt)
                }
            },
            CsrStage::Fingerprint => {
                if t.as_str().is_empty() {
                    self.stage = CsrStage::NetworkKeep;
                    CsrAction::KeepNetwork {
                        network_id: self.pending_network.clone(),
                        with_fingerprint: false,
                    }
                } else {
                    self.stage = CsrStage::FingerprintCheck;
                    CsrAction::ParseFingerprint { input: t }
                }
            },
            CsrStage::UpdateUrl => {
                if t.as_str().is_empty() {
                    self.stage = CsrStage::NameField;
                    ask_after_text(
                        "Certificate name information (all fields are optional)",
                        name_prompt_text(0).to_owned(),
                    )
                } else {
                    match uri_error(t.as_str()) {
                        Some(msg) => self.fail(CsrError::InvalidUrl(msg)),
                        None => {
                            proof {
                                lemma_texts_push(self.update_urls@, t);
                            }
                            self.update_urls.push(t);
                            ask_text(numbered_text(self.update_urls.len(), "URL (empty to end)"))
                        },
                    }
                }
            },
            _ => {
                proof {
                    lemma_texts_push(self.name@, t);
                }
                self.name.push(t);
                if self.name.len() == NAME_FIELD_COUNT {
                    self.stage = CsrStage::Complete;
                    CsrAction::Create
                } else {
                    ask_text(name_prompt_text(self.name.len()).to_owned())
                }
            },
        }
    }
}

/// Every state the dialogue steps to from a well-formed one is well-formed:
/// update URLs are URIs, network IDs are 16 bytes, the timestamp is not
/// negative, a secret key is never empty, and at most the twelve name
/// fields are gathered.
pub proof fn lemma_next_well_formed(m: CsrModel, e: CsrEventModel)
    requires
        well_formed(m),
        accepts(m, e),
    ensures
        well_formed(next(m, e).0),
{
    let r = next(m, e);
    match (m.stage, e) {
        (CsrStage::UniqueIdSecret, CsrEventModel::Secret(Ok(b))) => {
            if valid_utf8(b) {
                let chars = trim_text(decode_utf8(b));
                let digits = encode_utf8(chars);
                if is_hex_text(digits) {
                    lemma_encoding_nonempty(chars);
                    assert(hex_bytes(digits).len() > 0);
                }
            }
        },
        (CsrStage::NetworkKeep, CsrEventModel::Kept) => {
            assert forall|i: int| 0 <= i < r.0.networks.len() implies encode_utf8(
                #[trigger] r.0.networks[i],
            ).len() == 16 by {
                if i < m.networks.len() {
                    assert(r.0.networks[i] == m.networks[i]);
                }
            }
        },
        (CsrStage::UpdateUrl, CsrEventModel::Text(t)) => {
            assert forall|i: int| 0 <= i < r.0.update_urls.len() implies uri_parse_error(
                #[trigger] r.0.update_urls[i],
            ) is None by {
                if i < m.update_urls.len() {
                    assert(r.0.update_urls[i] == m.update_urls[i]);
                }
            }
        },
        _ => {},
    }
}

/// The dialogue asks the caller to report an error exactly when it stops,
/// and to create the request exactly when all twelve name fields are in.
pub proof fn lemma_stop_and_create(m: CsrModel, e: CsrEventModel)
    requires
        well_formed(m),
        accepts(m, e),
    ensures
        next(m, e).1 is Fail <==> next(m, e).0.stage == CsrStage::Failed,
        next(m, e).1 is Create <==> next(m, e).0.stage == CsrStage::Complete,
        next(m, e).0.stage == CsrStage::Complete ==> next(m, e).0.name.len() == NAME_FIELD_COUNT,
{
    lemma_next_well_formed(m, e);
}

/// A network whose controller fingerprint was given and parsed is kept with
/// that fingerprint; one whose fingerprint answer was empty is kept without;
/// either way the network ID kept is the one typed, and it joins the
/// networks after the ones already gathered.
pub proof fn lemma_network_kept_with_its_fingerprint(
    m: CsrModel,
    id: Seq<char>,
    fingerprint: Seq<char>,
)
    requires
        m.stage == CsrStage::NetworkId,
        encode_utf8(id).len() == 16,
    ensures
        ({
            let (m1, a1) = next(m, CsrEventModel::Text(id));
            let (m2, a2) = next(m1, CsrEventModel::Text(fingerprint));
            &&& m1.stage == CsrStage::Fingerprint
            &&& fingerprint.len() > 0 ==> {
                let (m3, a3) = next(m2, CsrEventModel::Fingerprint(Ok(())));
                &&& a2 == CsrActionModel::ParseFingerprint { input: fingerprint }
                &&& a3 == CsrActionModel::KeepNetwork { network_id: id, with_fingerprint: true }
                &&& next(m3, CsrEventModel::Kept).0.networks == m.networks.push(id)
            }
            &&& fingerprint.len() == 0 ==> {
                &&& a2 == CsrActionModel::KeepNetwork { network_id: id, with_fingerprint: false }
                &&& next(m2, CsrEventModel::Kept).0.networks == m.networks.push(id)
            }
        }),
{
}

/// A fingerprint that does not parse stops the dialogue with the parser's
/// message, and no network is kept.
pub proof fn lemma_bad_fingerprint_stops(m: CsrModel, msg: Seq<char>)
    requires
        m.stage == CsrStage::FingerprintCheck,
    ensures
        next(m, CsrEventModel::Fingerprint(Err(msg))).1 == CsrActionModel::Fail(
            CsrErrorModel::InvalidFingerprint(msg),
        ),
        next(m, CsrEventModel::Fingerprint(Err(msg))).0.networks == m.networks,
{
}

/// An identity that was read, holds no private key and whose locator was
/// given, read and signed by it is kept with its locator; one whose locator
/// answer was empty is kept without; the address kept is the identity's.
pub proof fn lemma_identity_kept_with_its_locator(
    m: CsrModel,
    input: Seq<char>,
    address: Seq<char>,
    locator: Seq<char>,
)
    requires
        m.stage == CsrStage::Identity,
        input.len() > 0,
    ensures
        ({
            let (m1, a1) = next(m, CsrEventModel::Text(input));
            let (m2, a2) = next(m1, CsrEventModel::Identity(Some((false, address))));
            let (m3, a3) = next(m2, CsrEventModel::Text(locator));
            &&& a1 == CsrActionModel::ReadIdentity { input }
            &&& a2 == ask(locator_prompt(m.identities.len(), address))
            &&& locator.len() > 0 ==> {
                let (m4, a4) = next(m3, CsrEventModel::Locator(Ok(true)));
                &&& a3 == CsrActionModel::ReadLocator { input: locator }
                &&& a4 == CsrActionModel::KeepIdentity { with_locator: true }
                &&& next(m4, CsrEventModel::Kept).0.identities == m.identities.push(address)
                &&& next(m3, CsrEventModel::Locator(Ok(false))).1 == CsrActionModel::Fail(
                    CsrErrorModel::LocatorNotSigned,
                )
            }
            &&& locator.len() == 0 ==> {
                &&& a3 == CsrActionModel::KeepIdentity { with_locator: false }
                &&& next(m3, CsrEventModel::Kept).0.identities == m.identities.push(address)
            }
            &&& next(m1, CsrEventModel::Identity(None)).1 == CsrActionModel::Fail(
                CsrErrorModel::InvalidIdentity,
            )
            &&& next(m1, CsrEventModel::Identity(Some((true, address)))).1
                == CsrActionModel::Fail(CsrErrorModel::IdentityHasPrivate)
        }),
{
}

/// When the secret key file's text, trimmed, is hexadecimal, the key kept is
/// its decoding: half as many bytes as digits, each byte the value of its
/// pair of digits, high digit first.
pub proof fn lemma_secret_is_the_decoded_key(m: CsrModel, b: Seq<u8>)
    requires
        m.stage == CsrStage::UniqueIdSecret,
        valid_utf8(b),
        is_hex_text(encode_utf8(trim_text(decode_utf8(b)))),
    ensures
        ({
            let digits = encode_utf8(trim_text(decode_utf8(b)));
            let (m1, a1) = next(m, CsrEventModel::Secret(Ok(b)));
            &&& a1 is AskTimestamp
            &&& m1.unique_id_secret is Some
            &&& m1.unique_id_secret.unwrap().len() * 2 == digits.len()
            &&& forall|i: int|
                0 <= i < m1.unique_id_secret.unwrap().len() ==> #[trigger] m1.unique_id_secret.unwrap()[i]
                    == hex_value(digits[2 * i]) * 16 + hex_value(digits[2 * i + 1])
        }),
{
    let digits = encode_utf8(trim_text(decode_utf8(b)));
    let k = hex_bytes(digits);
    assert forall|i: int| 0 <= i < k.len() implies #[trigger] k[i] == hex_value(digits[2 * i])
        * 16 + hex_value(digits[2 * i + 1]) by {
        assert(is_hex_digit(digits[2 * i]));
        assert(is_hex_digit(digits[2 * i + 1]));
        assert(0 <= hex_value(digits[2 * i]) < 16);
        assert(0 <= hex_value(digits[2 * i + 1]) < 16);
    }
}

/// The timestamp kept is the one answered, unless it is negative, which
/// stops the dialogue.
pub proof fn lemma_timestamp_kept(m: CsrModel, v: i64)
    requires
        m.stage == CsrStage::Timestamp,
    ensures
        v >= 0 ==> next(m, CsrEventModel::Timestamp(v)).0.timestamp == v,
        v >= 0 ==> next(m, CsrEventModel::Timestamp(v)).0.stage == CsrStage::Identity,
        v < 0 ==> next(m, CsrEventModel::Timestamp(v)).1 == CsrActionModel::Fail(
            CsrErrorModel::InvalidTimestamp,
        ),
{
}

/// A non-empty update URL is kept, after those already gathered, exactly
/// when it is a URI; otherwise the dialogue stops with the parser's message.
pub proof fn lemma_url_kept_when_uri(m: CsrModel, url: Seq<char>)
    requires
        m.stage == CsrStage::UpdateUrl,
        url.len() > 0,
    ensures
        uri_parse_error(url) is None ==> next(m, CsrEventModel::Text(url)).0.update_urls
            == m.update_urls.push(url),
        uri_parse_error(url) matches Some(msg) ==> next(m, CsrEventModel::Text(url)).1
            == CsrActionModel::Fail(CsrErrorModel::InvalidUrl(msg)),
{
}

/// Each name answer is kept after the ones before it, and the prompt that
/// follows is the one for the next field.
pub proof fn lemma_name_field_kept(m: CsrModel, t: Seq<char>)
    requires
        m.stage == CsrStage::NameField,
        well_formed(m),
    ensures
        next(m, CsrEventModel::Text(t)).0.name == m.name.push(t),
        m.name.len() + 1 < NAME_FIELD_COUNT ==> next(m, CsrEventModel::Text(t)).1 == ask(
            name_prompt(m.name.len() + 1int),
        ),
        m.name.len() + 1 == NAME_FIELD_COUNT ==> next(m, CsrEventModel::Text(t)).1
            == CsrActionModel::Create,
{
}

/// The prompts name the position of the entry they ask for, one past the
/// entries already gathered, and say what they ask for.
pub proof fn lemma_prompt_texts(count: nat, address: Seq<char>)
    ensures
        identity_prompt(count) == "  ["@ + decimal_text(count + 1int) + "] "@
            + "Identity or path to identity (empty to end)"@,
        locator_prompt(count, address) == "  ["@ + decimal_text(count + 1int) + "] "@ + (
        "Locator or path to locator for "@ + address + " (optional)"@),
        network_prompt(count) == "  ["@ + decimal_text(count + 1int) + "] "@
            + "Network ID (empty to end)"@,
        fingerprint_prompt(count) == "  ["@ + decimal_text(count + 1int) + "] "@
            + "Fingerprint of primary controller (optional)"@,
        url_prompt(count) == "  ["@ + decimal_text(count + 1int) + "] "@ + "URL (empty to end)"@,
{
}

/// An empty answer to the secret key path means no key and goes on to the
/// timestamp; any other answer is the path of the file to read.
pub proof fn lemma_secret_path(m: CsrModel, t: Seq<char>)
    requires
        m.stage == CsrStage::UniqueIdPath,
    ensures
        t.len() == 0 ==> (next(m, CsrEventModel::Text(t)).0.unique_id_secret is None),
        t.len() == 0 ==> next(m, CsrEventModel::Text(t)).1 == (CsrActionModel::AskTimestamp {
            prompt: "Subject timestamp (seconds since epoch)"@,
        }),
        t.len() > 0 ==> next(m, CsrEventModel::Text(t)).1 == (CsrActionModel::ReadSecret {
            path: t,
        }),
{
}

/// A network ID answer that is not 16 bytes long ends the networks: none is
/// added, and the update URLs are asked for next.
pub proof fn lemma_networks_end(m: CsrModel, t: Seq<char>)
    requires
        m.stage == CsrStage::NetworkId,
        encode_utf8(t).len() != 16,
    ensures
        next(m, CsrEventModel::Text(t)).0.networks == m.networks,
        next(m, CsrEventModel::Text(t)).0.stage == CsrStage::UpdateUrl,
        next(m, CsrEventModel::Text(t)).1 == ask_after(
            "Subject certificate update URLs"@,
            url_prompt(m.update_urls.len()),
        ),
{
}

/// A dialogue that failed, or that gathered everything, takes no more
/// events.
pub proof fn lemma_final_stages_take_nothing(m: CsrModel, e: CsrEventModel)
    requires
        m.stage == CsrStage::Failed || m.stage == CsrStage::Complete,
    ensures
        !accepts(m, e),
{
}

} // verus!
