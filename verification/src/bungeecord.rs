//! Logins that a `BungeeCord` proxy forwards.

use vstd::prelude::*;

use crate::ip::{contains_ip, IpAddr};
use crate::outside::parse_uuid;
use crate::profile::{GameProfile, Property};
use crate::text::split_first;

verus! {

/// Why a forwarded login is turned down.
#[derive(Clone, Copy, Debug, PartialEq, Eq, Structural)]
pub enum BungeeCordError {
    FailedParseAddress,
    FailedParseUUID,
    FailedParseProperties,
    FailedMakeOfflineUUID,
    ProxyNotAllowed,
}

/// Settings for logins that a proxy forwards.
pub struct BungeeCordConfig {
    /// The proxies that may forward logins. Where the list is empty, all may.
    pub allowed_ips: Vec<IpAddr>,
}

impl BungeeCordConfig {
    /// Whether the proxy at `ip` may forward logins.
    pub open spec fn allows(&self, ip: IpAddr) -> bool {
        self.allowed_ips@.len() == 0 || self.allowed_ips@.contains(ip)
    }

    /// Whether the proxy at `ip` may forward logins.
    pub fn allows_proxy(&self, ip: IpAddr) -> (allowed: bool)
        ensures
            allowed == self.allows(ip),
    {
        self.allowed_ips.len() == 0 || contains_ip(&self.allowed_ips, ip)
    }
}

/// What became of one field that a proxy may add to the server address.
pub enum Forwarded<T> {
    /// The proxy did not add the field.
    Absent,
    /// The field does not read as what it should hold.
    Malformed,
    /// The field holds this value.
    Value(T),
}

/// The fields that a proxy added to the server address, as it wrote them.
pub struct ForwardedFields {
    pub ip: Option<String>,
    pub uuid: Option<String>,
    pub properties: Option<String>,
}

/// Where the fields stand among the pieces of a server address.
pub const IP_FIELD: usize = 1;

pub const UUID_FIELD: usize = 2;

pub const PROPERTIES_FIELD: usize = 3;

/// The pieces of a server address that are looked at.
pub const ADDRESS_PIECES: usize = 4;

/// The piece of a server address that stands at `index`, where NUL characters separate the
/// pieces.
pub open spec fn address_piece(server_address: Seq<char>, index: int) -> Option<Seq<char>> {
    let pieces = crate::text::split_on(server_address, '\0');
    if index < pieces.len() {
        Some(pieces[index])
    } else {
        None
    }
}

/// Whether `field` holds `text`, or neither is there.
pub open spec fn holds_text(field: Option<String>, text: Option<Seq<char>>) -> bool {
    match text {
        Some(text) => field is Some && field->0@ == text,
        None => field is None,
    }
}

/// A copy of the piece at `index`, if it is there.
fn piece_at(pieces: &Vec<String>, index: usize) -> (piece: Option<String>)
    ensures
        piece == (if index < pieces@.len() {
            Some(pieces@[index as int])
        } else {
            None
        }),
{
    if index < pieces.len() {
        Some(pieces[index].clone())
    } else {
        None
    }
}

/// Takes apart the server address of a handshake. A proxy that forwards logins sends, after the
/// address proper, the player's IP address, UUID and profile properties, each behind a NUL
/// character; any further pieces are passed over.
pub fn forwarded_fields(server_address: &str) -> (fields: ForwardedFields)
    ensures
        holds_text(fields.ip, address_piece(server_address@, IP_FIELD as int)),
        holds_text(fields.uuid, address_piece(server_address@, UUID_FIELD as int)),
        holds_text(fields.properties, address_piece(server_address@, PROPERTIES_FIELD as int)),
{
    let pieces = split_first(server_address, '\0', ADDRESS_PIECES);
    ForwardedFields {
        ip: piece_at(&pieces, IP_FIELD),
        uuid: piece_at(&pieces, UUID_FIELD),
        properties: piece_at(&pieces, PROPERTIES_FIELD),
    }
}

/// Whether `outcome` is what `parse` can make of the field that holds `text`.
pub open spec fn is_outcome<T, F: Fn(&str) -> Option<T>>(
    parse: F,
    text: Option<Seq<char>>,
    outcome: Forwarded<T>,
) -> bool {
    match (text, outcome) {
        (None, Forwarded::Absent) => true,
        (Some(text), Forwarded::Malformed) => crate::callback::can_return(parse, text, None),
        (Some(text), Forwarded::Value(value)) => crate::callback::can_return(parse, text, Some(value)),
        _ => false,
    }
}

/// What `parse` makes of the field.
fn parse_field<T, F: Fn(&str) -> Option<T>>(field: &Option<String>, parse: F) -> (outcome: Forwarded<
    T,
>)
    requires
        crate::callback::takes_any_text(parse),
    ensures
        forall|text: Option<Seq<char>>| #[trigger]
            holds_text(*field, text) ==> is_outcome(parse, text, outcome),
{
    match field {
        None => Forwarded::Absent,
        Some(text) => match parse(text.as_str()) {
            None => Forwarded::Malformed,
            Some(value) => Forwarded::Value(value),
        },
    }
}

/// The UUID that the field holding `text` gives.
pub open spec fn forwarded_uuid(text: Option<Seq<char>>) -> Forwarded<u128> {
    match text {
        None => Forwarded::Absent,
        Some(text) => match crate::outside::parsed_uuid(text) {
            None => Forwarded::Malformed,
            Some(id) => Forwarded::Value(id),
        },
    }
}

/// What a login comes to, by what became of the forwarded fields. A field that is malformed turns
/// the login down, the IP address before the UUID before the properties. Where a field is absent,
/// the address is that of the connection, the UUID is the one for offline play, and there are no
/// properties.
pub open spec fn login_result(
    client_ip: IpAddr,
    name: String,
    ip: Forwarded<IpAddr>,
    id: Forwarded<u128>,
    offline_id: Option<u128>,
    properties: Forwarded<Seq<Property>>,
    result: Result<(IpAddr, GameProfile), BungeeCordError>,
) -> bool {
    if ip is Malformed {
        result == Err::<(IpAddr, GameProfile), _>(BungeeCordError::FailedParseAddress)
    } else if id is Malformed {
        result == Err::<(IpAddr, GameProfile), _>(BungeeCordError::FailedParseUUID)
    } else if id is Absent && offline_id is None {
        result == Err::<(IpAddr, GameProfile), _>(BungeeCordError::FailedMakeOfflineUUID)
    } else if properties is Malformed {
        result == Err::<(IpAddr, GameProfile), _>(BungeeCordError::FailedParseProperties)
    } else {
        &&& result is Ok
        &&& result->Ok_0.0 == (if ip is Absent {
            client_ip
        } else {
            ip->Value_0
        })
        &&& result->Ok_0.1.id == (if id is Absent {
            offline_id->0
        } else {
            id->Value_0
        })
        &&& result->Ok_0.1.name == name
        &&& result->Ok_0.1.properties@ == (if properties is Absent {
            Seq::<Property>::empty()
        } else {
            properties->Value_0
        })
        &&& result->Ok_0.1.profile_actions is None
    }
}

impl Forwarded<Vec<Property>> {
    /// The outcome with the properties as a sequence.
    pub open spec fn as_seq(self) -> Forwarded<Seq<Property>> {
        match self {
            Forwarded::Absent => Forwarded::Absent,
            Forwarded::Malformed => Forwarded::Malformed,
            Forwarded::Value(properties) => Forwarded::Value(properties@),
        }
    }
}

/// Puts a login together from what became of the forwarded fields.
pub fn assemble_login(
    client_ip: IpAddr,
    name: String,
    ip: Forwarded<IpAddr>,
    id: Forwarded<u128>,
    offline_id: Option<u128>,
    properties: Forwarded<Vec<Property>>,
) -> (result: Result<(IpAddr, GameProfile), BungeeCordError>)
    ensures
        login_result(client_ip, name, ip, id, offline_id, properties.as_seq(), result),
{
    let ip = match ip {
        Forwarded::Absent => client_ip,
        Forwarded::Malformed => return Err(BungeeCordError::FailedParseAddress),
        Forwarded::Value(ip) => ip,
    };
    let id: u128 = match (id, offline_id) {
        (Forwarded::Malformed, _) => return Err(BungeeCordError::FailedParseUUID),
        (Forwarded::Value(id), _) => id,
        (Forwarded::Absent, Some(id)) => id,
        (Forwarded::Absent, None) => return Err(BungeeCordError::FailedMakeOfflineUUID),
    };
    let properties: Vec<Property> = match properties {
        Forwarded::Absent => Vec::new(),
        Forwarded::Malformed => return Err(BungeeCordError::FailedParseProperties),
        Forwarded::Value(properties) => properties,
    };
    Ok((ip, GameProfile { id, name, properties, profile_actions: None }))
}

/// Whether the outcomes are what the three functions can make of a login, where none of them is
/// called once the login is turned down.
pub open spec fn are_outcomes<
    ParseIp: Fn(&str) -> Option<IpAddr>,
    ParseProperties: Fn(&str) -> Option<Vec<Property>>,
    OfflineUuid: Fn(&str) -> Option<u128>,
>(
    server_address: Seq<char>,
    name: Seq<char>,
    parse_ip: ParseIp,
    parse_properties: ParseProperties,
    offline_uuid: OfflineUuid,
    ip: Forwarded<IpAddr>,
    offline_id: Option<u128>,
    properties: Forwarded<Vec<Property>>,
) -> bool {
    let id = forwarded_uuid(address_piece(server_address, UUID_FIELD as int));
    let has_fields = ip !is Malformed && id !is Malformed;
    let has_id = has_fields && (id is Absent ==> offline_id is Some);
    &&& is_outcome(parse_ip, address_piece(server_address, IP_FIELD as int), ip)
    &&& has_fields && id is Absent ==> crate::callback::can_return(offline_uuid, name, offline_id)
    &&& has_id ==> is_outcome(
        parse_properties,
        address_piece(server_address, PROPERTIES_FIELD as int),
        properties,
    )
}

/// Logs a player in through a `BungeeCord` proxy.
///
/// To be called when the login starts, with the server address of the handshake, to which the
/// proxy may have added:
///
/// 1. the player's IP address, if it forwards addresses,
/// 2. the player's UUID, if it forwards addresses,
/// 3. the properties of the player's profile, if it forwards addresses and runs in online mode.
///
/// What is missing is made up for locally. Where the settings list proxies, only a connection
/// from one of them is accepted.
///
/// `parse_ip` and `parse_properties` read the fields that they are named after, and `offline_uuid`
/// gives the UUID for offline play of a player by name; each returns `None` where it fails. None
/// of them is called once the login is turned down.
pub fn bungeecord_login<
    ParseIp: Fn(&str) -> Option<IpAddr>,
    ParseProperties: Fn(&str) -> Option<Vec<Property>>,
    OfflineUuid: Fn(&str) -> Option<u128>,
>(
    client_ip: IpAddr,
    server_address: &str,
    name: String,
    config: &BungeeCordConfig,
    parse_ip: ParseIp,
    parse_properties: ParseProperties,
    offline_uuid: OfflineUuid,
) -> (result: Result<(IpAddr, GameProfile), BungeeCordError>)
    requires
        crate::callback::takes_any_text(parse_ip),
        crate::callback::takes_any_text(parse_properties),
        crate::callback::takes_any_text(offline_uuid),
    ensures
        !config.allows(client_ip) <==> result == Err::<(IpAddr, GameProfile), _>(
            BungeeCordError::ProxyNotAllowed,
        ),
        config.allows(client_ip) ==> exists|
            ip: Forwarded<IpAddr>,
            offline_id: Option<u128>,
            properties: Forwarded<Vec<Property>>,
        | #[trigger]
            are_outcomes(
                server_address@,
                name@,
                parse_ip,
                parse_properties,
                offline_uuid,
                ip,
                offline_id,
                properties,
            ) && login_result(
                client_ip,
                name,
                ip,
                forwarded_uuid(address_piece(server_address@, UUID_FIELD as int)),
                offline_id,
                properties.as_seq(),
                result,
            ),
{
    if !config.allows_proxy(client_ip) {
        return Err(BungeeCordError::ProxyNotAllowed);
    }
    let fields = forwarded_fields(server_address);
    let ghost ip_text = address_piece(server_address@, IP_FIELD as int);
    let ghost uuid_text = address_piece(server_address@, UUID_FIELD as int);
    let ghost properties_text = address_piece(server_address@, PROPERTIES_FIELD as int);

    let ip = parse_field(&fields.ip, parse_ip);
    assert(is_outcome(parse_ip, ip_text, ip));
    let id = match &fields.uuid {
        None => Forwarded::Absent,
        Some(text) => match parse_uuid(text.as_str()) {
            None => Forwarded::Malformed,
            Some(id) => Forwarded::Value(id),
        },
    };
    assert(id == forwarded_uuid(uuid_text));
    if matches!(ip, Forwarded::Malformed) || matches!(id, Forwarded::Malformed) {
        assert(are_outcomes(
            server_address@,
            name@,
            parse_ip,
            parse_properties,
            offline_uuid,
            ip,
            None,
            Forwarded::Absent,
        ));
        return assemble_login(client_ip, name, ip, id, None, Forwarded::Absent);
    }
    let mut offline_id: Option<u128> = None;
    if matches!(id, Forwarded::Absent) {
        offline_id = offline_uuid(name.as_str());
        assert(crate::callback::can_return(offline_uuid, name@, offline_id));
        if offline_id.is_none() {
            assert(are_outcomes(
                server_address@,
                name@,
                parse_ip,
                parse_properties,
                offline_uuid,
                ip,
                None,
                Forwarded::Absent,
            ));
            return assemble_login(client_ip, name, ip, id, None, Forwarded::Absent);
        }
    }
    let properties = parse_field(&fields.properties, parse_properties);
    assert(is_outcome(parse_properties, properties_text, properties));
    assert(are_outcomes(
        server_address@,
        name@,
        parse_ip,
        parse_properties,
        offline_uuid,
        ip,
        offline_id,
        properties,
    ));
    assemble_login(client_ip, name, ip, id, offline_id, properties)
}

} // verus!
