use base64::Engine;
use pumpkin_net::authentication::{
    authenticate, authentication_url, check_decoded_textures, check_texture, check_textures,
    collect_keys, fetch_mojang_public_keys, is_texture_url_valid, read_key, read_keys, read_reply,
    validate_textures, AuthError, AuthenticationConfig, JsonPublicKey, MojangPublicKeys,
    ProfileTextures, Reply, RsaPublicKey, Texture, TextureConfig, TextureError, Uri,
    MOJANG_BEDROCK_PUBLIC_KEY_BASE64,
};
use pumpkin_net::key_store::KeyStore;
use pumpkin_net::profile::{GameProfile, Property};
use rsa::pkcs8::DecodePublicKey;
use rsa::traits::PublicKeyParts;

/// Helper to create a `TextureConfig` with specific allowed domains and schemes
fn config_with_domains(domains: Vec<String>, schemes: Vec<String>) -> TextureConfig {
    TextureConfig { allowed_url_schemes: schemes, allowed_url_domains: domains }
}

fn minecraft_config() -> TextureConfig {
    config_with_domains(vec!["minecraft.net".to_string()], vec!["https".to_string()])
}

fn random_word(shortest: usize, longest: usize) -> String {
    let length = shortest + rand::random::<u32>() as usize % (longest - shortest + 1);
    (0..length).map(|_| (b'a' + rand::random::<u8>() % 26) as char).collect()
}

fn textures_at(urls: &[&str]) -> ProfileTextures {
    ProfileTextures {
        timestamp: 0,
        profile_id: 0,
        profile_name: "TestPlayer".to_string(),
        signature_required: false,
        textures: urls
            .iter()
            .map(|url| ("SKIN".to_string(), Texture { url: url.to_string(), metadata: None }))
            .collect(),
    }
}

fn property(value: &str) -> Property {
    Property { name: "textures".to_string(), value: value.to_string(), signature: None }
}

fn default_config() -> AuthenticationConfig {
    AuthenticationConfig {
        prevent_proxy_connections: false,
        url: None,
        prevent_proxy_connection_auth_url: None,
        services_url: None,
    }
}

fn profile(name: &str) -> GameProfile {
    GameProfile { id: 7, name: name.to_string(), properties: vec![], profile_actions: None }
}

fn base64_of(bytes: &[u8]) -> String {
    base64::engine::general_purpose::STANDARD.encode(bytes)
}

/// Property test: For any texture URL, the domain SHALL exactly match an allowed domain (not suffix match).
/// This prevents attacks like "evil-textures.minecraft.net" matching "minecraft.net"
#[test]
fn test_property_exact_domain_match_rejects_suffix() {
    // Test that suffix matching is NOT allowed
    let config =
        config_with_domains(vec!["minecraft.net".to_string()], vec!["https".to_string()]);

    // These should all be REJECTED because they only suffix-match, not exact match
    let malicious_urls = [
        "https://evil-minecraft.net/texture.png",
        "https://fake.minecraft.net/texture.png",
        "https://textures.minecraft.net/texture.png",
        "https://attacker-minecraft.net/texture.png",
        "https://xminecraft.net/texture.png",
    ];

    for url_str in malicious_urls {
        let url: Uri = Uri::parse(url_str).unwrap();
        let result = is_texture_url_valid(&url, &config);
        assert!(
            result.is_err(),
            "URL {url_str} should be rejected (suffix match not allowed), but was accepted",
        );
    }

    // This should be ACCEPTED because it's an exact match
    let valid_url: Uri = Uri::parse("https://minecraft.net/texture.png").unwrap();
    let result = is_texture_url_valid(&valid_url, &config);
    assert!(
        result.is_ok(),
        "URL https://minecraft.net/texture.png should be accepted (exact match)"
    );
}

/// Property test: URLs with suspicious patterns (.., %, encoded chars) SHALL be rejected
#[test]
fn test_property_suspicious_patterns_rejected() {
    let config = config_with_domains(
        vec![
            "minecraft.net".to_string(),
            "textures..minecraft.net".to_string(),
        ],
        vec!["https".to_string()],
    );

    // URLs with suspicious patterns should be rejected
    let suspicious_urls = [
        "https://textures..minecraft.net/texture.png", // double dots
        "https://minecraft%2enet/texture.png",         // percent encoding
    ];

    for url_str in suspicious_urls {
        if let Some(url) = Uri::parse(url_str) {
            let result = is_texture_url_valid(&url, &config);
            assert!(
                result.is_err(),
                "URL {url_str} with suspicious pattern should be rejected",
            );
        }
        // If URL parsing fails, that's also acceptable (invalid URL)
    }
}

/// Property test: Exact scheme matching (not suffix match)
#[test]
fn test_property_exact_scheme_match() {
    let config =
        config_with_domains(vec!["minecraft.net".to_string()], vec!["https".to_string()]);

    // HTTP should be rejected when only HTTPS is allowed
    let http_only_url: Uri = Uri::parse("http://minecraft.net/texture.png").unwrap();
    let result = is_texture_url_valid(&http_only_url, &config);
    assert!(
        result.is_err(),
        "HTTP URL should be rejected when only HTTPS is allowed"
    );

    // HTTPS should be accepted
    let https_secure_url: Uri = Uri::parse("https://minecraft.net/texture.png").unwrap();
    let result = is_texture_url_valid(&https_secure_url, &config);
    assert!(
        result.is_ok(),
        "HTTPS URL should be accepted when HTTPS is allowed"
    );
}

#[test]
fn test_proptest_non_whitelisted_domain_rejected() {
    for _ in 0..256 {
        let allowed_domain = format!("{}.{}", random_word(3, 10), random_word(2, 4));
        let malicious_domain = format!("{}.{allowed_domain}", random_word(1, 10));
        let config =
            config_with_domains(vec![allowed_domain.clone()], vec!["https".to_string()]);
        let url_str = format!("https://{malicious_domain}/texture.png");
        if let Some(url) = Uri::parse(&url_str) {
            let result = is_texture_url_valid(&url, &config);
            // Subdomain should be rejected (not exact match)
            assert!(
                result.is_err(),
                "Subdomain {malicious_domain} of allowed domain {allowed_domain} should be rejected",
            );
        }
    }
}

#[test]
fn test_proptest_exact_domain_accepted() {
    for _ in 0..256 {
        let domain = format!("{}.{}", random_word(3, 10), random_word(2, 4));
        let config = config_with_domains(vec![domain.clone()], vec!["https".to_string()]);
        let url_str = format!("https://{domain}/texture.png");
        if let Some(url) = Uri::parse(&url_str) {
            let result = is_texture_url_valid(&url, &config);
            assert!(result.is_ok(), "Exact domain match {domain} should be accepted");
        }
    }
}

#[test]
fn test_proptest_percent_encoding_rejected() {
    for _ in 0..256 {
        let config = minecraft_config();
        // Create a domain with percent encoding
        let malicious_domain = format!("{}%2e{}", random_word(1, 5), random_word(1, 5));
        let url_str = format!("https://{malicious_domain}.net/texture.png");
        if let Some(url) = Uri::parse(&url_str) {
            let result = is_texture_url_valid(&url, &config);
            // Should be rejected due to percent encoding
            assert!(
                result.is_err(),
                "Domain with percent encoding {malicious_domain} should be rejected",
            );
        }
    }
}

#[test]
fn parts_of_a_url() {
    let url = Uri::parse("https://user@textures.minecraft.net:8080/a?b").unwrap();
    assert_eq!(url.scheme.as_deref(), Some("https"));
    assert_eq!(url.host.as_deref(), Some("textures.minecraft.net"));
    let path = Uri::parse("/texture.png").unwrap();
    assert_eq!(path.scheme, None);
    assert_eq!(path.host, None);
    let host = Uri::parse("minecraft.net").unwrap();
    assert_eq!(host.scheme, None);
    assert_eq!(host.host.as_deref(), Some("minecraft.net"));
    assert!(Uri::parse("").is_none());
    assert!(Uri::parse("https://a b/").is_none());
}

#[test]
fn faults_of_a_url() {
    let config = config_with_domains(
        vec!["minecraft.net".to_string(), "a..b".to_string(), "a%b".to_string()],
        vec!["https".to_string()],
    );
    let check = |scheme: Option<&str>, host: Option<&str>| {
        let url = Uri { scheme: scheme.map(String::from), host: host.map(String::from) };
        is_texture_url_valid(&url, &config)
    };
    assert!(check(Some("https"), Some("minecraft.net")).is_ok());
    assert!(matches!(check(None, Some("minecraft.net")), Err(TextureError::InvalidURL)));
    assert!(matches!(check(Some("https"), None), Err(TextureError::InvalidURL)));
    assert!(matches!(
        check(Some("http"), None),
        Err(TextureError::DisallowedUrlScheme(scheme)) if scheme == "http"
    ));
    assert!(matches!(
        check(Some("HTTPS"), Some("minecraft.net")),
        Err(TextureError::DisallowedUrlScheme(scheme)) if scheme == "HTTPS"
    ));
    assert!(matches!(
        check(Some("https"), Some("Minecraft.net")),
        Err(TextureError::DisallowedUrlDomain(domain)) if domain == "Minecraft.net"
    ));
    assert!(matches!(
        check(Some("https"), Some("a..b")),
        Err(TextureError::DisallowedUrlDomain(domain)) if domain == "a..b"
    ));
    assert!(matches!(
        check(Some("https"), Some("a%b")),
        Err(TextureError::DisallowedUrlDomain(domain)) if domain == "a%b"
    ));
}

#[test]
fn text_that_is_no_url_is_invalid() {
    assert!(matches!(
        check_texture(&None, &minecraft_config()),
        Err(TextureError::InvalidURL)
    ));
}

#[test]
fn first_fault_of_several_textures() {
    let config = minecraft_config();
    let good = "https://minecraft.net/a.png";
    assert!(check_textures(&textures_at(&[]), &config).is_ok());
    assert!(check_textures(&textures_at(&[good, good]), &config).is_ok());
    assert!(matches!(
        check_textures(&textures_at(&[good, "http://minecraft.net/", "https://other.net/"]), &config),
        Err(TextureError::DisallowedUrlScheme(scheme)) if scheme == "http"
    ));
    assert!(matches!(
        check_textures(&textures_at(&["https://other.net/", "http://minecraft.net/"]), &config),
        Err(TextureError::DisallowedUrlDomain(domain)) if domain == "other.net"
    ));
    assert!(matches!(
        check_textures(&textures_at(&[good, "not a url"]), &config),
        Err(TextureError::InvalidURL)
    ));
}

#[test]
fn textures_are_decoded_and_read() {
    let config = minecraft_config();
    let parse = |bytes: &[u8]| match bytes {
        b"good" => Ok(textures_at(&["https://minecraft.net/a.png"])),
        b"bad" => Ok(textures_at(&["https://other.net/a.png"])),
        _ => Err(format!("{} bytes", bytes.len())),
    };
    assert!(validate_textures(&property("Z29vZA=="), &config, parse).is_ok());
    assert!(matches!(
        validate_textures(&property("YmFk"), &config, parse),
        Err(TextureError::DisallowedUrlDomain(domain)) if domain == "other.net"
    ));
    assert!(matches!(
        validate_textures(&property("AAECAw=="), &config, parse),
        Err(TextureError::JSONError(message)) if message == "4 bytes"
    ));
    let decode_error =
        base64::engine::general_purpose::STANDARD.decode("Z29v*").unwrap_err().to_string();
    assert!(matches!(
        validate_textures(&property("Z29v*"), &config, parse),
        Err(TextureError::DecodeError(message)) if message == decode_error
    ));
    // Padding is not optional.
    assert!(matches!(
        validate_textures(&property("Z29vZA"), &config, parse),
        Err(TextureError::DecodeError(_))
    ));
}

#[test]
fn decoded_textures_are_checked() {
    let config = minecraft_config();
    let parse = |_: &[u8]| Ok(textures_at(&["https://minecraft.net/a.png"]));
    assert!(check_decoded_textures(Ok(vec![1]), &config, parse).is_ok());
    assert!(matches!(
        check_decoded_textures(Err("broken".to_string()), &config, parse),
        Err(TextureError::DecodeError(message)) if message == "broken"
    ));
}

#[test]
fn url_of_a_session() {
    let mut config = default_config();
    assert_eq!(
        authentication_url("Steve", "-1f", "1.2.3.4", &config),
        "https://sessionserver.mojang.com/session/minecraft/hasJoined?username=Steve&serverId=-1f"
    );
    config.url = Some("u={username},{username}&h={server_hash}&i={ip}".to_string());
    assert_eq!(
        authentication_url("Steve", "-1f", "1.2.3.4", &config),
        "u=Steve,Steve&h=-1f&i={ip}"
    );
    config.prevent_proxy_connections = true;
    assert_eq!(
        authentication_url("Steve", "-1f", "1.2.3.4", &config),
        "https://sessionserver.mojang.com/session/minecraft/hasJoined?username=Steve&serverId=-1f"
    );
    config.prevent_proxy_connection_auth_url =
        Some("p={username}&h={server_hash}&i={ip}".to_string());
    assert_eq!(
        authentication_url("Steve", "-1f", "1.2.3.4", &config),
        "p=Steve&h=-1f&i=1.2.3.4"
    );
}

#[test]
fn placeholders_in_a_name_are_filled_in_too() {
    assert_eq!(
        authentication_url("{server_hash}", "ff", "", &default_config()),
        "https://sessionserver.mojang.com/session/minecraft/hasJoined?username=ff&serverId=ff"
    );
}

#[test]
fn session_of_a_player() {
    let config = default_config();
    let ask = |reply: fn() -> Reply<GameProfile>| {
        authenticate("Steve", "ff", "1.2.3.4", &config, |url: &str| {
            assert_eq!(
                url,
                "https://sessionserver.mojang.com/session/minecraft/hasJoined?username=Steve&serverId=ff"
            );
            reply()
        })
    };
    let found = ask(|| Reply::Answer { status: 200, body: Some(profile("Steve")) }).unwrap();
    assert_eq!((found.id, found.name.as_str()), (7, "Steve"));
    assert!(matches!(ask(|| Reply::Failed), Err(AuthError::FailedResponse)));
    assert!(matches!(
        ask(|| Reply::Answer { status: 204, body: None }),
        Err(AuthError::UnverifiedUsername)
    ));
    assert!(matches!(
        ask(|| Reply::Answer { status: 301, body: Some(profile("Steve")) }),
        Err(AuthError::UnknownStatusCode(301))
    ));
    assert!(matches!(
        ask(|| Reply::Answer { status: 200, body: None }),
        Err(AuthError::FailedParse)
    ));
}

#[test]
fn answer_without_content() {
    let reply: Reply<u8> = Reply::Answer { status: 204, body: Some(1) };
    assert!(matches!(
        read_reply(reply, AuthError::FailedResponse),
        Err(AuthError::FailedResponse)
    ));
}

#[test]
fn published_keys_are_read() {
    let store = KeyStore::new();
    let der = store.public_key_der();
    let known = rsa::RsaPublicKey::from_public_key_der(der).unwrap();
    let key = read_key(&JsonPublicKey { public_key: base64_of(der) }).unwrap();
    assert_eq!(key.modulus, known.n_bytes().to_vec());
    assert_eq!(key.modulus.len(), 256);
    assert_eq!(key.exponent, [1, 0, 1]);
}

#[test]
fn other_keys_are_not_read() {
    for text in ["", "*", "AAAA", MOJANG_BEDROCK_PUBLIC_KEY_BASE64] {
        assert!(read_key(&JsonPublicKey { public_key: text.to_string() }).is_none());
    }
}

#[test]
fn keys_are_collected_together() {
    let key = |byte: u8| RsaPublicKey { modulus: vec![byte], exponent: vec![3] };
    let all = collect_keys(vec![Some(key(1)), Some(key(2))]).unwrap();
    assert_eq!(all.len(), 2);
    assert_eq!(all[0].modulus, [1]);
    assert_eq!(all[1].modulus, [2]);
    assert!(collect_keys(vec![]).unwrap().is_empty());
    assert!(matches!(
        collect_keys(vec![Some(key(1)), None, Some(key(2))]),
        Err(AuthError::FailedParse)
    ));
}

#[test]
fn one_bad_key_spoils_the_list() {
    let good = base64_of(KeyStore::new().public_key_der());
    let keys = |texts: &[&str]| -> Vec<JsonPublicKey> {
        texts.iter().map(|text| JsonPublicKey { public_key: text.to_string() }).collect()
    };
    assert_eq!(read_keys(&keys(&[&good, &good])).unwrap().len(), 2);
    assert!(matches!(read_keys(&keys(&[&good, "AAAA"])), Err(AuthError::FailedParse)));
}

#[test]
fn certificate_keys_are_fetched() {
    let good = base64_of(KeyStore::new().public_key_der());
    let answer = || MojangPublicKeys {
        profile_property_keys: vec![JsonPublicKey { public_key: "*".to_string() }],
        player_certificate_keys: vec![JsonPublicKey { public_key: good.clone() }],
        authentication_keys: None,
    };
    let mut config = default_config();
    let keys = fetch_mojang_public_keys(&config, |url: &str| {
        assert_eq!(url, "https://api.minecraftservices.com//publickeys");
        Reply::Answer { status: 200, body: Some(answer()) }
    });
    assert_eq!(keys.unwrap().len(), 1);
    config.services_url = Some("https://example.org".to_string());
    let keys = fetch_mojang_public_keys(&config, |url: &str| {
        assert_eq!(url, "https://example.org/publickeys");
        Reply::Answer { status: 204, body: Some(answer()) }
    });
    assert!(matches!(keys, Err(AuthError::FailedResponse)));
    let fetch = |reply: fn() -> Reply<MojangPublicKeys>| {
        fetch_mojang_public_keys(&default_config(), |_: &str| reply())
    };
    assert!(matches!(fetch(|| Reply::Failed), Err(AuthError::FailedResponse)));
    assert!(matches!(
        fetch(|| Reply::Answer { status: 500, body: None }),
        Err(AuthError::UnknownStatusCode(500))
    ));
    assert!(matches!(
        fetch(|| Reply::Answer { status: 200, body: None }),
        Err(AuthError::FailedParse)
    ));
}

#[test]
fn order_of_textures_does_not_matter() {
    let config = minecraft_config();
    let good = "https://minecraft.net/a.png";
    let bad = "https://other.net/a.png";
    for urls in [[good, good, bad], [good, bad, good], [bad, good, good]] {
        assert!(check_textures(&textures_at(&urls), &config).is_err());
    }
}
