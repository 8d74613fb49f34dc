use pumpkin_net::bungeecord::{
    assemble_login, bungeecord_login, forwarded_fields, BungeeCordConfig, BungeeCordError, Forwarded,
};
use pumpkin_net::ip::IpAddr;
use pumpkin_net::profile::{GameProfile, Property};

type Login = Result<(IpAddr, GameProfile), BungeeCordError>;

const OFFLINE_ID: u128 = 42;

/// Helper to create a `BungeeCordConfig` with allowed IPs
fn config_with_allowed_ips(allowed_ips: Vec<IpAddr>) -> BungeeCordConfig {
    BungeeCordConfig { allowed_ips }
}

fn random_ip() -> IpAddr {
    IpAddr::from_octets(rand::random(), rand::random(), rand::random(), rand::random())
}

fn parse_ip(text: &str) -> Option<IpAddr> {
    let octets: Vec<u8> = text.split('.').map(|octet| octet.parse().ok()).collect::<Option<_>>()?;
    match octets[..] {
        [a, b, c, d] => Some(IpAddr::from_octets(a, b, c, d)),
        _ => None,
    }
}

fn parse_properties(text: &str) -> Option<Vec<Property>> {
    let value: serde_json::Value = serde_json::from_str(text).ok()?;
    let text_at = |item: &serde_json::Value, key: &str| item[key].as_str().map(String::from);
    value
        .as_array()?
        .iter()
        .map(|item| {
            Some(Property {
                name: text_at(item, "name")?,
                value: text_at(item, "value")?,
                signature: text_at(item, "signature"),
            })
        })
        .collect()
}

fn offline_uuid(name: &str) -> Option<u128> {
    if name == "TestPlayer" {
        Some(OFFLINE_ID)
    } else {
        None
    }
}

fn login(client_ip: IpAddr, server_address: &str, name: &str, config: &BungeeCordConfig) -> Login {
    bungeecord_login(
        client_ip,
        server_address,
        name.to_string(),
        config,
        parse_ip,
        parse_properties,
        offline_uuid,
    )
}

/// Property test: For any `BungeeCord` connection, if `allowed_ips` is configured,
/// only connections from those IPs SHALL be accepted.
#[test]
fn test_property_ip_whitelist_rejects_non_whitelisted() {
    // Test with various whitelist configurations
    for _ in 0..100 {
        // Generate random allowed IP
        let allowed_ip = random_ip();

        // Generate a different random client IP (ensure it's different)
        let mut client_ip = random_ip();
        while client_ip == allowed_ip {
            client_ip = random_ip();
        }

        let config = config_with_allowed_ips(vec![allowed_ip]);

        let result = login(client_ip, "localhost", "TestPlayer", &config);

        assert!(
            matches!(result, Err(BungeeCordError::ProxyNotAllowed)),
            "Connection from non-whitelisted IP {client_ip:?} should be rejected when whitelist contains {allowed_ip:?}",
        );
    }
}

/// Property test: Whitelisted IPs should be accepted
#[test]
fn test_property_ip_whitelist_accepts_whitelisted() {
    for _ in 0..100 {
        // Generate random IP that will be both in whitelist and client IP
        let ip = random_ip();

        let config = config_with_allowed_ips(vec![ip]);

        let result = login(ip, "localhost", "TestPlayer", &config);

        // Should not be ProxyNotAllowed error (may fail for other reasons like parsing)
        assert!(
            !matches!(result, Err(BungeeCordError::ProxyNotAllowed)),
            "Connection from whitelisted IP {ip:?} should not be rejected as ProxyNotAllowed",
        );
    }
}

/// Property test: Empty whitelist should allow all IPs
#[test]
fn test_property_empty_whitelist_allows_all() {
    for _ in 0..100 {
        // Generate random client IP
        let client_ip = random_ip();

        let config = config_with_allowed_ips(vec![]); // Empty whitelist

        let result = login(client_ip, "localhost", "TestPlayer", &config);

        // Should not be ProxyNotAllowed error (empty whitelist allows all)
        assert!(
            !matches!(result, Err(BungeeCordError::ProxyNotAllowed)),
            "Connection from any IP {client_ip:?} should be allowed when whitelist is empty",
        );
    }
}

#[test]
fn test_proptest_whitelist_enforcement() {
    for _ in 0..256 {
        let allowed_ip = random_ip();
        let client_ip = random_ip();
        let config = config_with_allowed_ips(vec![allowed_ip]);
        assert!(config.allows_proxy(allowed_ip), "Same IP should be allowed");
        assert_eq!(
            config.allows_proxy(client_ip),
            allowed_ip == client_ip,
            "Different IP should be rejected when whitelist is non-empty"
        );
    }
}

#[test]
fn test_proptest_multiple_whitelist_ips() {
    for _ in 0..256 {
        let ip1 = random_ip();
        let ip2 = random_ip();
        let config = config_with_allowed_ips(vec![ip1, ip2]);
        for client_ip in [ip1, ip2, random_ip()] {
            let is_in_whitelist = client_ip == ip1 || client_ip == ip2;
            assert_eq!(
                config.allows_proxy(client_ip),
                is_in_whitelist,
                "Client IP {client_ip:?} should be allowed={is_in_whitelist} when whitelist contains {ip1:?} and {ip2:?}"
            );
        }
    }
}

#[test]
fn plain_address_is_made_up_for_locally() {
    let client_ip = IpAddr::from_octets(127, 0, 0, 1);
    let config = config_with_allowed_ips(vec![]);
    let (ip, profile) = login(client_ip, "localhost", "TestPlayer", &config).unwrap();
    assert_eq!(ip, client_ip);
    assert_eq!(profile.id, OFFLINE_ID);
    assert_eq!(profile.name, "TestPlayer");
    assert!(profile.properties.is_empty());
    assert!(profile.profile_actions.is_none());
    assert!(matches!(
        login(client_ip, "localhost", "Nobody", &config),
        Err(BungeeCordError::FailedMakeOfflineUUID)
    ));
}

#[test]
fn fields_of_a_proxy_are_taken_over() {
    let client_ip = IpAddr::from_octets(127, 0, 0, 1);
    let config = config_with_allowed_ips(vec![client_ip]);
    let address = "localhost\u{0}10.1.2.3\u{0}067e6162-3b6f-4ae2-a171-2470b63dff00\u{0}[{\"name\":\"textures\",\"value\":\"abc\"}]\u{0}more";
    // The UUID is forwarded, so that the name needs none of its own.
    let (ip, profile) = login(client_ip, address, "Nobody", &config).unwrap();
    assert_eq!(ip, IpAddr::from_octets(10, 1, 2, 3));
    assert_eq!(profile.id, 0x067e6162_3b6f_4ae2_a171_2470b63dff00);
    assert_eq!(profile.properties.len(), 1);
    assert_eq!(profile.properties[0].name, "textures");
    assert_eq!(profile.properties[0].value, "abc");
    assert_eq!(profile.properties[0].signature, None);
}

#[test]
fn uuids_come_with_and_without_hyphens() {
    let client_ip = IpAddr::V6(1);
    let config = config_with_allowed_ips(vec![]);
    for uuid in ["067e6162-3b6f-4ae2-a171-2470b63dff00", "067e61623b6f4ae2a1712470b63dff00"] {
        let address = format!("localhost\u{0}10.1.2.3\u{0}{uuid}");
        let (_, profile) = login(client_ip, &address, "TestPlayer", &config).unwrap();
        assert_eq!(profile.id, 0x067e6162_3b6f_4ae2_a171_2470b63dff00);
    }
}

#[test]
fn malformed_fields_are_turned_down_in_order() {
    let client_ip = IpAddr::V6(1);
    let config = config_with_allowed_ips(vec![]);
    let error = |address: &str| login(client_ip, address, "TestPlayer", &config).unwrap_err();
    assert_eq!(error("a\u{0}b\u{0}c\u{0}d"), BungeeCordError::FailedParseAddress);
    assert_eq!(error("a\u{0}"), BungeeCordError::FailedParseAddress);
    assert_eq!(error("a\u{0}1.2.3.4\u{0}c\u{0}d"), BungeeCordError::FailedParseUUID);
    assert_eq!(
        error("a\u{0}1.2.3.4\u{0}067e61623b6f4ae2a1712470b63dff00\u{0}d"),
        BungeeCordError::FailedParseProperties
    );
}

#[test]
fn address_without_proxy_has_no_fields() {
    let fields = forwarded_fields("localhost");
    assert_eq!((fields.ip, fields.uuid, fields.properties), (None, None, None));
    let fields = forwarded_fields("");
    assert_eq!((fields.ip, fields.uuid, fields.properties), (None, None, None));
}

#[test]
fn address_is_split_at_nul_characters() {
    let fields = forwarded_fields("a\u{0}b\u{0}\u{0}d\u{0}e");
    assert_eq!(fields.ip.as_deref(), Some("b"));
    assert_eq!(fields.uuid.as_deref(), Some(""));
    assert_eq!(fields.properties.as_deref(), Some("d"));
}

#[test]
fn login_by_outcomes() {
    let client_ip = IpAddr::V4(1);
    let name = || "TestPlayer".to_string();
    let result = assemble_login(
        client_ip,
        name(),
        Forwarded::Value(IpAddr::V4(2)),
        Forwarded::Value(3),
        None,
        Forwarded::Absent,
    );
    let (ip, profile) = result.unwrap();
    assert_eq!((ip, profile.id), (IpAddr::V4(2), 3));
    let result = assemble_login(
        client_ip,
        name(),
        Forwarded::Malformed,
        Forwarded::Malformed,
        None,
        Forwarded::Malformed,
    );
    assert_eq!(result.unwrap_err(), BungeeCordError::FailedParseAddress);
    let result = assemble_login(
        client_ip,
        name(),
        Forwarded::Absent,
        Forwarded::Absent,
        None,
        Forwarded::Malformed,
    );
    assert_eq!(result.unwrap_err(), BungeeCordError::FailedMakeOfflineUUID);
}
