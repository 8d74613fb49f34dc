//! Checks with the authentication service: the session of a player, the textures of a profile,
//! and the keys of the service.

use vstd::prelude::*;
use vstd::string::*;

use crate::outside::{decode_base64, parse_public_key, parse_uri};
use crate::profile::{GameProfile, Property};
use crate::text::{contains_char, contains_text, replace};

verus! {

/// Why a check with the authentication service fails.
#[derive(Debug)]
pub enum AuthError {
    /// The service did not answer.
    FailedResponse,
    /// The service does not know the session.
    UnverifiedUsername,
    /// The player is banned by the service.
    Banned,
    /// The textures of the profile are not acceptable.
    TextureError(TextureError),
    /// The service took a measure against the player that the server does not allow.
    DisallowedAction,
    /// The answer of the service does not read as it should.
    FailedParse,
    /// The service answered with a status that is not expected.
    UnknownStatusCode(u16),
}

/// Why the textures of a profile are not acceptable.
#[derive(Debug)]
pub enum TextureError {
    InvalidURL,
    /// The scheme of a texture's URL is not an allowed one.
    DisallowedUrlScheme(String),
    /// The domain of a texture's URL is not an allowed one.
    DisallowedUrlDomain(String),
    /// The property is not in base64.
    DecodeError(String),
    /// The property does not hold textures in JSON.
    JSONError(String),
}

/// A texture error with its text as a sequence of characters.
pub enum TextureFault {
    InvalidURL,
    DisallowedUrlScheme(Seq<char>),
    DisallowedUrlDomain(Seq<char>),
    DecodeError(Seq<char>),
    JSONError(Seq<char>),
}

impl View for TextureError {
    type V = TextureFault;

    open spec fn view(&self) -> TextureFault {
        match self {
            TextureError::InvalidURL => TextureFault::InvalidURL,
            TextureError::DisallowedUrlScheme(scheme) => TextureFault::DisallowedUrlScheme(scheme@),
            TextureError::DisallowedUrlDomain(domain) => TextureFault::DisallowedUrlDomain(domain@),
            TextureError::DecodeError(message) => TextureFault::DecodeError(message@),
            TextureError::JSONError(message) => TextureFault::JSONError(message@),
        }
    }
}

/// What a check of textures found fault with, if anything.
pub open spec fn fault_of(checked: Result<(), TextureError>) -> Option<TextureFault> {
    match checked {
        Ok(()) => None,
        Err(error) => Some(error@),
    }
}

/// Settings for the textures of players.
pub struct TextureConfig {
    pub allowed_url_schemes: Vec<String>,
    pub allowed_url_domains: Vec<String>,
}

/// What is looked at of the URL of a texture.
#[derive(Debug)]
pub struct Uri {
    pub scheme: Option<String>,
    /// The host of the authority, if the URL has an authority.
    pub host: Option<String>,
}

impl Uri {
    /// Reads a URL, and returns `None` where `text` is not one.
    pub fn parse(text: &str) -> (uri: Option<Self>)
        ensures
            match uri {
                Some(uri) => crate::outside::parsed_uri(text@) == Some(
                    (crate::outside::text_of(uri.scheme), crate::outside::text_of(uri.host)),
                ),
                None => crate::outside::parsed_uri(text@) is None,
            },
    {
        match parse_uri(text) {
            Some((scheme, host)) => Some(Uri { scheme, host }),
            None => None,
        }
    }
}

/// One texture of a profile.
#[derive(Debug)]
pub struct Texture {
    pub url: String,
    /// Further facts on the texture, by name.
    pub metadata: Option<Vec<(String, String)>>,
}

/// The textures of a profile.
#[derive(Debug)]
pub struct ProfileTextures {
    pub timestamp: i64,
    pub profile_id: u128,
    pub profile_name: String,
    pub signature_required: bool,
    /// The textures by name.
    pub textures: Vec<(String, Texture)>,
}

/// Whether `text` is one of `texts`.
pub open spec fn is_listed(texts: Seq<String>, text: Seq<char>) -> bool {
    exists|i: int| 0 <= i < texts.len() && (#[trigger] texts[i])@ == text
}

/// Whether `text` is one of `texts`.
fn contains_string(texts: &Vec<String>, text: &String) -> (found: bool)
    ensures
        found == is_listed(texts@, text@),
{
    for i in 0..texts.len()
        invariant
            forall|j: int| 0 <= j < i ==> (#[trigger] texts@[j])@ != text@,
    {
        if texts[i] == *text {
            assert(texts@[i as int]@ == text@);
            return true;
        }
    }
    false
}

/// Whether a domain looks like an attempt at path traversal or at hiding characters by encoding
/// them.
pub open spec fn is_suspicious(domain: Seq<char>) -> bool {
    crate::text::occurs(domain, seq!['.', '.']) || domain.contains('%')
}

/// What is wrong with a texture's URL that has this scheme and this host, if anything. Both have
/// to be there and have to be, character by character, an allowed scheme and an allowed domain.
pub open spec fn url_fault(
    scheme: Option<Seq<char>>,
    host: Option<Seq<char>>,
    config: TextureConfig,
) -> Option<TextureFault> {
    if scheme is None {
        Some(TextureFault::InvalidURL)
    } else if !is_listed(config.allowed_url_schemes@, scheme->0) {
        Some(TextureFault::DisallowedUrlScheme(scheme->0))
    } else if host is None {
        Some(TextureFault::InvalidURL)
    } else if is_suspicious(host->0) || !is_listed(config.allowed_url_domains@, host->0) {
        Some(TextureFault::DisallowedUrlDomain(host->0))
    } else {
        None
    }
}

/// Checks that the URL of a texture has an allowed scheme and an allowed domain.
pub fn is_texture_url_valid(url: &Uri, config: &TextureConfig) -> (checked: Result<
    (),
    TextureError,
>)
    ensures
        fault_of(checked) == url_fault(
            crate::outside::text_of(url.scheme),
            crate::outside::text_of(url.host),
            *config,
        ),
{
    let scheme = match &url.scheme {
        Some(scheme) => scheme,
        None => return Err(TextureError::InvalidURL),
    };
    if !contains_string(&config.allowed_url_schemes, scheme) {
        return Err(TextureError::DisallowedUrlScheme(scheme.clone()));
    }
    let domain = match &url.host {
        Some(host) => host,
        None => return Err(TextureError::InvalidURL),
    };
    proof {
        reveal_strlit("..");
        assert(".."@ =~= seq!['.', '.']);
    }
    if contains_text(domain.as_str(), "..") || contains_char(domain.as_str(), '%') {
        return Err(TextureError::DisallowedUrlDomain(domain.clone()));
    }
    if !contains_string(&config.allowed_url_domains, domain) {
        return Err(TextureError::DisallowedUrlDomain(domain.clone()));
    }
    Ok(())
}

/// What is wrong with a texture, if anything, where its URL was read as `url`.
pub open spec fn texture_fault(
    url: Option<(Option<Seq<char>>, Option<Seq<char>>)>,
    config: TextureConfig,
) -> Option<TextureFault> {
    match url {
        Some((scheme, host)) => url_fault(scheme, host, config),
        None => Some(TextureFault::InvalidURL),
    }
}

/// The scheme and the host of `url`, if it is there.
pub open spec fn url_parts(url: Option<Uri>) -> Option<(Option<Seq<char>>, Option<Seq<char>>)> {
    match url {
        Some(url) => Some((crate::outside::text_of(url.scheme), crate::outside::text_of(url.host))),
        None => None,
    }
}

/// Checks a texture whose URL was read as `url`, where `None` stands for one that is no URL.
pub fn check_texture(url: &Option<Uri>, config: &TextureConfig) -> (checked: Result<
    (),
    TextureError,
>)
    ensures
        fault_of(checked) == texture_fault(url_parts(*url), *config),
{
    match url {
        Some(url) => is_texture_url_valid(url, config),
        None => Err(TextureError::InvalidURL),
    }
}

/// What is wrong with the first texture that is not acceptable, if there is one.
pub open spec fn first_fault(
    textures: Seq<(String, Texture)>,
    config: TextureConfig,
) -> Option<TextureFault>
    decreases textures.len(),
{
    if textures.len() == 0 {
        None
    } else {
        let fault = texture_fault(crate::outside::parsed_uri(textures[0].1.url@), config);
        if fault is Some {
            fault
        } else {
            first_fault(textures.skip(1), config)
        }
    }
}

/// Checks the textures of a profile, in order.
pub fn check_textures(textures: &ProfileTextures, config: &TextureConfig) -> (checked: Result<
    (),
    TextureError,
>)
    ensures
        fault_of(checked) == first_fault(textures.textures@, *config),
{
    let ghost all = textures.textures@;
    assert(all.skip(0) =~= all);
    for i in 0..textures.textures.len()
        invariant
            all == textures.textures@,
            first_fault(all, *config) == first_fault(all.skip(i as int), *config),
    {
        proof {
            assert(all.skip(i as int).skip(1) =~= all.skip(i + 1));
            assert(all.skip(i as int)[0] == all[i as int]);
        }
        let url = Uri::parse(textures.textures[i].1.url.as_str());
        check_texture(&url, config)?;
    }
    Ok(())
}

/// Checks the textures of a profile that were decoded from base64 as `decoded`, where the error is
/// the message of the decoder. `parse_json` reads the textures, or returns a message of its own.
pub fn check_decoded_textures<ParseJson: Fn(&[u8]) -> Result<ProfileTextures, String>>(
    decoded: Result<Vec<u8>, String>,
    config: &TextureConfig,
    parse_json: ParseJson,
) -> (checked: Result<(), TextureError>)
    requires
        crate::callback::takes_any_bytes(parse_json),
    ensures
        match decoded {
            Err(message) => fault_of(checked) == Some(TextureFault::DecodeError(message@)),
            Ok(bytes) => exists|parsed: Result<ProfileTextures, String>| #[trigger]
                crate::callback::can_return_for_bytes(parse_json, bytes@, parsed) && fault_of(
                    checked,
                ) == parsed_fault(parsed, *config),
        },
{
    let bytes = match decoded {
        Ok(bytes) => bytes,
        Err(message) => return Err(TextureError::DecodeError(message)),
    };
    let parsed = parse_json(bytes.as_slice());
    assert(crate::callback::can_return_for_bytes(parse_json, bytes@, parsed));
    match parsed {
        Ok(textures) => check_textures(&textures, config),
        Err(message) => Err(TextureError::JSONError(message)),
    }
}

/// What is wrong with a profile whose textures were read as `parsed`, if anything.
pub open spec fn parsed_fault(
    parsed: Result<ProfileTextures, String>,
    config: TextureConfig,
) -> Option<TextureFault> {
    match parsed {
        Ok(textures) => first_fault(textures.textures@, config),
        Err(message) => Some(TextureFault::JSONError(message@)),
    }
}

/// Checks the textures that a property of a profile holds: base64 of JSON, which `parse_json`
/// reads.
pub fn validate_textures<ParseJson: Fn(&[u8]) -> Result<ProfileTextures, String>>(
    property: &Property,
    config: &TextureConfig,
    parse_json: ParseJson,
) -> (checked: Result<(), TextureError>)
    requires
        crate::callback::takes_any_bytes(parse_json),
    ensures
        match crate::outside::base64_decoded(property.value@) {
            Err(message) => fault_of(checked) == Some(TextureFault::DecodeError(message)),
            Ok(bytes) => exists|parsed: Result<ProfileTextures, String>| #[trigger]
                crate::callback::can_return_for_bytes(parse_json, bytes, parsed) && fault_of(
                    checked,
                ) == parsed_fault(parsed, *config),
        },
{
    let decoded = decode_base64(property.value.as_str());
    let ghost outcome = decoded;
    let checked = check_decoded_textures(decoded, config, parse_json);
    proof {
        if outcome is Ok {
            assert(crate::outside::base64_decoded(property.value@)->Ok_0 == outcome->Ok_0@);
        }
    }
    checked
}

/// Settings for the authentication service.
pub struct AuthenticationConfig {
    /// Whether the service is asked about the address of the player too.
    pub prevent_proxy_connections: bool,
    /// Where the service is asked about a session, if not at the default place.
    pub url: Option<String>,
    /// Where the service is asked about a session and its address, if not at the default place.
    pub prevent_proxy_connection_auth_url: Option<String>,
    /// Where the keys of the service are found, if not at the default place.
    pub services_url: Option<String>,
}

/// The key with which the service signs the sessions of Bedrock players.
pub const MOJANG_BEDROCK_PUBLIC_KEY_BASE64: &'static str = "MHYwEAYHKoZIzj0CAQYFK4EEACIDYgAECRXueJeTDqNRRgJi/vlRufByu/2G0i2Ebt6YMar5QX/R0DIIyrJMcUpruK4QveTfJSTp3Shlq4Gk34cD/4GUWwkv0DVuzeuB+tXija7HBxii03NHDbPAD0AKnLr2wdAp";

pub const MOJANG_AUTHENTICATION_URL: &'static str = "https://sessionserver.mojang.com/session/minecraft/hasJoined?username={username}&serverId={server_hash}";

pub const MOJANG_PREVENT_PROXY_AUTHENTICATION_URL: &'static str = "https://sessionserver.mojang.com/session/minecraft/hasJoined?username={username}&serverId={server_hash}";

pub const MOJANG_SERVICES_URL: &'static str = "https://api.minecraftservices.com/";

/// The text of `setting`, or `default` where it is not set.
pub open spec fn text_or(setting: Option<String>, default: Seq<char>) -> Seq<char> {
    match setting {
        Some(text) => text@,
        None => default,
    }
}

/// The text of `setting`, or `default` where it is not set.
fn setting_or<'a>(setting: &'a Option<String>, default: &'a str) -> (text: &'a str)
    ensures
        text@ == text_or(*setting, default@),
{
    match setting {
        Some(text) => text.as_str(),
        None => default,
    }
}

/// The URL at which the service is asked about the session of a player.
pub open spec fn session_url(
    username: Seq<char>,
    server_hash: Seq<char>,
    ip: Seq<char>,
    config: AuthenticationConfig,
) -> Seq<char> {
    let template = if config.prevent_proxy_connections {
        text_or(
            config.prevent_proxy_connection_auth_url,
            MOJANG_PREVENT_PROXY_AUTHENTICATION_URL@,
        )
    } else {
        text_or(config.url, MOJANG_AUTHENTICATION_URL@)
    };
    let named = crate::text::replaced(template, "{username}"@, username);
    let hashed = crate::text::replaced(named, "{server_hash}"@, server_hash);
    if config.prevent_proxy_connections {
        crate::text::replaced(hashed, "{ip}"@, ip)
    } else {
        hashed
    }
}

/// The URL at which the service is asked about the session of a player: the template of the
/// settings, with the player's name and the server hash filled in, and the player's address where
/// the service is asked about it too.
pub fn authentication_url(
    username: &str,
    server_hash: &str,
    ip: &str,
    auth_config: &AuthenticationConfig,
) -> (url: String)
    ensures
        url@ == session_url(username@, server_hash@, ip@, *auth_config),
{
    proof {
        reveal_strlit("{username}");
        reveal_strlit("{server_hash}");
        reveal_strlit("{ip}");
    }
    if auth_config.prevent_proxy_connections {
        let template = setting_or(
            &auth_config.prevent_proxy_connection_auth_url,
            MOJANG_PREVENT_PROXY_AUTHENTICATION_URL,
        );
        let named = replace(template, "{username}", username);
        let hashed = replace(named.as_str(), "{server_hash}", server_hash);
        replace(hashed.as_str(), "{ip}", ip)
    } else {
        let template = setting_or(&auth_config.url, MOJANG_AUTHENTICATION_URL);
        let named = replace(template, "{username}", username);
        replace(named.as_str(), "{server_hash}", server_hash)
    }
}

/// What came back from a request to the service.
pub enum Reply<T> {
    /// Nothing, or nothing that can be understood.
    Failed,
    /// An answer with this status. The body is `None` where it does not read as it should.
    Answer { status: u16, body: Option<T> },
}

pub const STATUS_OK: u16 = 200;

pub const STATUS_NO_CONTENT: u16 = 204;

/// What a reply comes to, where `no_content` is the error for an answer without content.
pub open spec fn reply_result<T>(reply: Reply<T>, no_content: AuthError) -> Result<T, AuthError> {
    match reply {
        Reply::Failed => Err(AuthError::FailedResponse),
        Reply::Answer { status, body } => if status == STATUS_NO_CONTENT {
            Err(no_content)
        } else if status != STATUS_OK {
            Err(AuthError::UnknownStatusCode(status))
        } else if body is None {
            Err(AuthError::FailedParse)
        } else {
            Ok(body->0)
        },
    }
}

/// The body of a reply, or the error that it comes to.
pub fn read_reply<T>(reply: Reply<T>, no_content: AuthError) -> (result: Result<T, AuthError>)
    ensures
        result == reply_result(reply, no_content),
{
    match reply {
        Reply::Failed => Err(AuthError::FailedResponse),
        Reply::Answer { status, body } => {
            if status == STATUS_NO_CONTENT {
                return Err(no_content);
            }
            if status != STATUS_OK {
                return Err(AuthError::UnknownStatusCode(status));
            }
            match body {
                Some(body) => Ok(body),
                None => Err(AuthError::FailedParse),
            }
        },
    }
}

/// Asks the authentication service whether a player has a session, so that only players with a
/// valid account get in.
///
/// 1. A player with an account tells the service that it joins this server.
/// 2. The service checks the player's credentials and opens a session.
/// 3. The server asks the service for the session, and gets the player's profile.
///
/// `get` makes a request to a URL and reads the profile in the answer. `ip` is the player's
/// address as text.
pub fn authenticate<Get: Fn(&str) -> Reply<GameProfile>>(
    username: &str,
    server_hash: &str,
    ip: &str,
    auth_config: &AuthenticationConfig,
    get: Get,
) -> (result: Result<GameProfile, AuthError>)
    requires
        crate::callback::takes_any_text(get),
    ensures
        exists|reply: Reply<GameProfile>| #[trigger]
            crate::callback::can_return(
                get,
                session_url(username@, server_hash@, ip@, *auth_config),
                reply,
            ) && result == reply_result(reply, AuthError::UnverifiedUsername),
{
    let url = authentication_url(username, server_hash, ip, auth_config);
    let reply = get(url.as_str());
    assert(crate::callback::can_return(get, url@, reply));
    read_reply(reply, AuthError::UnverifiedUsername)
}

/// A public key of the service, as it publishes it: base64 of the DER encoding.
#[derive(Debug)]
pub struct JsonPublicKey {
    pub public_key: String,
}

/// The public keys that the service publishes.
#[derive(Debug)]
pub struct MojangPublicKeys {
    pub profile_property_keys: Vec<JsonPublicKey>,
    pub player_certificate_keys: Vec<JsonPublicKey>,
    pub authentication_keys: Option<Vec<JsonPublicKey>>,
}

/// An RSA public key, its numbers as big-endian bytes without leading zeros.
#[derive(Debug)]
pub struct RsaPublicKey {
    pub modulus: Vec<u8>,
    pub exponent: Vec<u8>,
}

impl View for RsaPublicKey {
    type V = (Seq<u8>, Seq<u8>);

    open spec fn view(&self) -> (Seq<u8>, Seq<u8>) {
        (self.modulus@, self.exponent@)
    }
}

/// The longest DER encoding that is read as a key. A modulus has at most 8192 bits, so that no
/// encoding of a key comes near this length.
pub const MAX_KEY_DER: usize = 0x1FFF_FFFF;

/// The key that `text` publishes, if it does: what base64 decodes it to, read as DER.
pub open spec fn published_key(text: Seq<char>) -> Option<(Seq<u8>, Seq<u8>)> {
    decoded_key(crate::outside::base64_decoded(text))
}

/// The key in what base64 decoded, if there is one.
pub open spec fn decoded_key(decoded: Result<Seq<u8>, Seq<char>>) -> Option<(Seq<u8>, Seq<u8>)> {
    if decoded is Ok && decoded->Ok_0.len() <= MAX_KEY_DER {
        crate::outside::parsed_public_key(decoded->Ok_0)
    } else {
        None
    }
}

/// Reads a published key, and returns `None` where it cannot be read.
pub fn read_key(key: &JsonPublicKey) -> (read: Option<RsaPublicKey>)
    ensures
        match read {
            Some(read) => published_key(key.public_key@) == Some(read@),
            None => published_key(key.public_key@) is None,
        },
{
    let der = match decode_base64(key.public_key.as_str()) {
        Ok(der) => der,
        Err(_) => return None,
    };
    if der.len() > MAX_KEY_DER {
        return None;
    }
    match parse_public_key(der.as_slice()) {
        Some((modulus, exponent)) => Some(RsaPublicKey { modulus, exponent }),
        None => None,
    }
}

/// Collects keys, all of them or none: one that could not be read is an error.
pub fn collect_keys(keys: Vec<Option<RsaPublicKey>>) -> (result: Result<
    Vec<RsaPublicKey>,
    AuthError,
>)
    ensures
        if forall|i: int| 0 <= i < keys@.len() ==> (#[trigger] keys@[i]) is Some {
            &&& result is Ok
            &&& result->Ok_0@.len() == keys@.len()
            &&& forall|i: int|
                0 <= i < keys@.len() ==> (#[trigger] keys@[i]) == Some(result->Ok_0@[i])
        } else {
            result == Err::<Vec<RsaPublicKey>, _>(AuthError::FailedParse)
        },
{
    let ghost all = keys@;
    let mut collected: Vec<RsaPublicKey> = Vec::new();
    for key in it: keys
        invariant
            it.seq() == all,
            collected@.len() == it.index(),
            forall|j: int| 0 <= j < it.index() ==> (#[trigger] all[j]) == Some(collected@[j]),
    {
        assert(key == all[it.index() as int]);
        match key {
            Some(key) => collected.push(key),
            None => return Err(AuthError::FailedParse),
        }
    }
    Ok(collected)
}

/// Reads published keys, all of them or none.
pub fn read_keys(keys: &Vec<JsonPublicKey>) -> (result: Result<Vec<RsaPublicKey>, AuthError>)
    ensures
        keys_result(keys@, result),
{
    let mut read: Vec<Option<RsaPublicKey>> = Vec::new();
    for i in 0..keys.len()
        invariant
            read@.len() == i,
            forall|j: int|
                0 <= j < i ==> match #[trigger] read@[j] {
                    Some(key) => published_key(keys@[j].public_key@) == Some(key@),
                    None => published_key(keys@[j].public_key@) is None,
                },
    {
        let key = read_key(&keys[i]);
        read.push(key);
    }
    let ghost outcomes = read@;
    let result = collect_keys(read);
    proof {
        if forall|i: int| 0 <= i < outcomes.len() ==> (#[trigger] outcomes[i]) is Some {
            assert forall|i: int| 0 <= i < keys@.len() implies published_key(
                (#[trigger] keys@[i]).public_key@,
            ) == Some(result->Ok_0@[i]@) by {
                assert(outcomes[i] is Some);
            }
        } else {
            let i = choose|i: int| 0 <= i < outcomes.len() && !((#[trigger] outcomes[i]) is Some);
            assert(published_key(keys@[i].public_key@) is None);
        }
    }
    result
}

/// Whether `result` is what reading `keys` comes to: the keys in order if each of them can be
/// read, and else an error.
pub open spec fn keys_result(
    keys: Seq<JsonPublicKey>,
    result: Result<Vec<RsaPublicKey>, AuthError>,
) -> bool {
    if forall|i: int|
        0 <= i < keys.len() ==> published_key((#[trigger] keys[i]).public_key@) is Some {
        &&& result is Ok
        &&& result->Ok_0@.len() == keys.len()
        &&& forall|i: int|
            0 <= i < keys.len() ==> published_key((#[trigger] keys[i]).public_key@) == Some(
                result->Ok_0@[i]@,
            )
    } else {
        result == Err::<Vec<RsaPublicKey>, _>(AuthError::FailedParse)
    }
}

/// The URL at which the service publishes its keys.
pub open spec fn keys_url(config: AuthenticationConfig) -> Seq<char> {
    text_or(config.services_url, MOJANG_SERVICES_URL@) + "/publickeys"@
}

/// Gets the keys with which the service signs the certificates of players.
///
/// `get` makes a request to a URL and reads the keys in the answer.
pub fn fetch_mojang_public_keys<Get: Fn(&str) -> Reply<MojangPublicKeys>>(
    auth_config: &AuthenticationConfig,
    get: Get,
) -> (result: Result<Vec<RsaPublicKey>, AuthError>)
    requires
        crate::callback::takes_any_text(get),
    ensures
        exists|reply: Reply<MojangPublicKeys>| #[trigger]
            crate::callback::can_return(get, keys_url(*auth_config), reply) && match reply_result(
                reply,
                AuthError::FailedResponse,
            ) {
                Ok(keys) => keys_result(keys.player_certificate_keys@, result),
                Err(error) => result == Err::<Vec<RsaPublicKey>, _>(error),
            },
{
    let mut url = setting_or(&auth_config.services_url, MOJANG_SERVICES_URL).to_owned();
    url.append("/publickeys");
    let reply = get(url.as_str());
    assert(crate::callback::can_return(get, keys_url(*auth_config), reply));
    match read_reply(reply, AuthError::FailedResponse) {
        Ok(keys) => read_keys(&keys.player_certificate_keys),
        Err(error) => Err(error),
    }
}

} // verus!
