//! What a login through a proxy comes to, for every server address and every outcome.

use vstd::prelude::*;

use crate::bungeecord::{
    assemble_login, bungeecord_login, forwarded_fields, BungeeCordConfig, BungeeCordError,
    Forwarded, ForwardedFields,
};
use crate::ip::{contains_ip, IpAddr};
use crate::profile::{GameProfile, Property};

verus! {

/// A server address that is made up of pieces with NUL characters between them has just these
/// pieces.
pub proof fn law_pieces_of_an_address_are_found(pieces: Seq<Seq<char>>, index: int)
    requires
        pieces.len() > 0,
        crate::text_laws::are_free_of(pieces, '\0'),
        index >= 0,
    ensures
        crate::bungeecord::address_piece(crate::text_laws::joined(pieces, '\0'), index) == (if index
            < pieces.len() {
            Some(pieces[index])
        } else {
            None
        }),
{
    crate::text_laws::law_split_undoes_joining(pieces, '\0');
}

/// The fields that a proxy added are the second, the third and the fourth piece of the server
/// address, character by character; a field whose piece is not there is not there.
pub proof fn law_fields_are_the_pieces_of_the_address(
    server_address: &str,
    pieces: Seq<Seq<char>>,
    fields: ForwardedFields,
)
    requires
        pieces.len() > 0,
        crate::text_laws::are_free_of(pieces, '\0'),
        server_address@ == crate::text_laws::joined(pieces, '\0'),
        call_ensures(forwarded_fields, (server_address,), fields),
    ensures
        fields.ip is Some <==> pieces.len() > 1,
        fields.ip is Some ==> fields.ip->0@ == pieces[1],
        fields.uuid is Some <==> pieces.len() > 2,
        fields.uuid is Some ==> fields.uuid->0@ == pieces[2],
        fields.properties is Some <==> pieces.len() > 3,
        fields.properties is Some ==> fields.properties->0@ == pieces[3],
{
    law_pieces_of_an_address_are_found(pieces, 1);
    law_pieces_of_an_address_are_found(pieces, 2);
    law_pieces_of_an_address_are_found(pieces, 3);
}

/// A login that succeeds has the name that was given, whichever fields were forwarded. Its address,
/// UUID and properties are the forwarded ones where they are there, and else the address of the
/// connection, the UUID for offline play and none.
pub proof fn law_login_takes_over_what_is_there(
    client_ip: IpAddr,
    name: String,
    ip: Forwarded<IpAddr>,
    id: Forwarded<u128>,
    offline_id: Option<u128>,
    properties: Forwarded<Vec<Property>>,
    result: Result<(IpAddr, GameProfile), BungeeCordError>,
)
    requires
        call_ensures(assemble_login, (client_ip, name, ip, id, offline_id, properties), result),
    ensures
        result is Ok ==> {
            let (address, profile) = result->Ok_0;
            &&& profile.name@ == name@
            &&& profile.profile_actions is None
            &&& ip is Value ==> address == ip->Value_0
            &&& ip !is Value ==> address == client_ip
            &&& id is Value ==> profile.id == id->Value_0
            &&& id !is Value ==> offline_id == Some(profile.id)
            &&& properties is Value ==> profile.properties@ == properties->Value_0@
            &&& properties !is Value ==> profile.properties@.len() == 0
        },
{
}

/// A login succeeds if and only if no field is malformed and there is a UUID, forwarded or for
/// offline play. Else its error names the first thing that is wrong, in the order of the address,
/// the UUID and the properties.
pub proof fn law_login_fails_by_what_is_malformed(
    client_ip: IpAddr,
    name: String,
    ip: Forwarded<IpAddr>,
    id: Forwarded<u128>,
    offline_id: Option<u128>,
    properties: Forwarded<Vec<Property>>,
    result: Result<(IpAddr, GameProfile), BungeeCordError>,
)
    requires
        call_ensures(assemble_login, (client_ip, name, ip, id, offline_id, properties), result),
    ensures
        ({
            let no_id = id is Absent && offline_id is None;
            &&& result is Ok <==> ip !is Malformed && id !is Malformed && !no_id
                && properties !is Malformed
            &&& result is Err ==> {
                let error = result->Err_0;
                &&& error == BungeeCordError::FailedParseAddress <==> ip is Malformed
                &&& error == BungeeCordError::FailedParseUUID <==> ip !is Malformed
                    && id is Malformed
                &&& error == BungeeCordError::FailedMakeOfflineUUID <==> ip !is Malformed && no_id
                &&& error == BungeeCordError::FailedParseProperties <==> ip !is Malformed
                    && id !is Malformed && !no_id && properties is Malformed
                &&& error != BungeeCordError::ProxyNotAllowed
            }
        }),
{
}

/// A proxy may forward logins if and only if none is listed, or it is itself.
pub proof fn law_proxy_is_allowed_by_the_list(config: BungeeCordConfig, ip: IpAddr, allowed: bool)
    requires
        call_ensures(BungeeCordConfig::allows_proxy, (&config, ip), allowed),
    ensures
        allowed <==> config.allowed_ips@.len() == 0 || exists|i: int|
            0 <= i < config.allowed_ips@.len() && config.allowed_ips@[i] == ip,
{
}

/// A login from a proxy that is not listed, where some are, is turned down for that reason; no
/// other login is.
pub proof fn law_unlisted_proxy_is_turned_down<
    ParseIp: Fn(&str) -> Option<IpAddr>,
    ParseProperties: Fn(&str) -> Option<Vec<Property>>,
    OfflineUuid: Fn(&str) -> Option<u128>,
>(
    client_ip: IpAddr,
    server_address: &str,
    name: String,
    config: &BungeeCordConfig,
    parse_ip: ParseIp,
    parse_properties: ParseProperties,
    offline_uuid: OfflineUuid,
    result: Result<(IpAddr, GameProfile), BungeeCordError>,
)
    requires
        call_ensures(
            bungeecord_login::<ParseIp, ParseProperties, OfflineUuid>,
            (
                client_ip,
                server_address,
                name,
                config,
                parse_ip,
                parse_properties,
                offline_uuid,
            ),
            result,
        ),
    ensures
        config.allowed_ips@.len() > 0 && !config.allowed_ips@.contains(client_ip) <==> result == Err::<
            (IpAddr, GameProfile),
            _,
        >(BungeeCordError::ProxyNotAllowed),
{
}

/// Whether `parse` can return `value` for a text with these characters.
pub open spec fn may_give<T, F: Fn(&str) -> T>(parse: F, text: Seq<char>, value: T) -> bool {
    exists|argument: &str| argument@ == text && #[trigger] call_ensures(parse, (argument,), value)
}

/// A login that succeeds has the player's name as it was given. Where the proxy forwarded an
/// address, a UUID or properties, they are what the second, the third and the fourth piece of the
/// server address read as; where it did not, they are the address of the connection, the UUID for
/// offline play under that name, and none.
pub proof fn law_successful_login_has_what_was_forwarded<
    ParseIp: Fn(&str) -> Option<IpAddr>,
    ParseProperties: Fn(&str) -> Option<Vec<Property>>,
    OfflineUuid: Fn(&str) -> Option<u128>,
>(
    client_ip: IpAddr,
    server_address: &str,
    pieces: Seq<Seq<char>>,
    name: String,
    config: &BungeeCordConfig,
    parse_ip: ParseIp,
    parse_properties: ParseProperties,
    offline_uuid: OfflineUuid,
    result: Result<(IpAddr, GameProfile), BungeeCordError>,
)
    requires
        pieces.len() > 0,
        crate::text_laws::are_free_of(pieces, '\0'),
        server_address@ == crate::text_laws::joined(pieces, '\0'),
        call_ensures(
            bungeecord_login::<ParseIp, ParseProperties, OfflineUuid>,
            (
                client_ip,
                server_address,
                name,
                config,
                parse_ip,
                parse_properties,
                offline_uuid,
            ),
            result,
        ),
        result is Ok,
    ensures
        ({
            let (ip, profile) = result->Ok_0;
            &&& profile.name@ == name@
            &&& profile.profile_actions is None
            &&& pieces.len() <= 1 ==> ip == client_ip
            &&& pieces.len() > 1 ==> may_give(parse_ip, pieces[1], Some(ip))
            &&& pieces.len() <= 2 ==> may_give(offline_uuid, name@, Some(profile.id))
            &&& pieces.len() > 2 ==> crate::outside::parsed_uuid(pieces[2]) == Some(profile.id)
            &&& pieces.len() <= 3 ==> profile.properties@.len() == 0
            &&& pieces.len() > 3 ==> exists|properties: Vec<Property>| #[trigger]
                may_give(parse_properties, pieces[3], Some(properties)) && profile.properties@
                    == properties@
        }),
{
    law_pieces_of_an_address_are_found(pieces, 1);
    law_pieces_of_an_address_are_found(pieces, 2);
    law_pieces_of_an_address_are_found(pieces, 3);
    let (ip, offline_id, properties) = choose|
        ip: Forwarded<IpAddr>,
        offline_id: Option<u128>,
        properties: Forwarded<Vec<Property>>,
    |
        #[trigger] crate::bungeecord::are_outcomes(
            server_address@,
            name@,
            parse_ip,
            parse_properties,
            offline_uuid,
            ip,
            offline_id,
            properties,
        ) && crate::bungeecord::login_result(
            client_ip,
            name,
            ip,
            crate::bungeecord::forwarded_uuid(
                crate::bungeecord::address_piece(server_address@, 2),
            ),
            offline_id,
            properties.as_seq(),
            result,
        );
    if pieces.len() > 1 {
        assert(crate::callback::can_return(parse_ip, pieces[1], Some(result->Ok_0.0)));
        assert(may_give(parse_ip, pieces[1], Some(result->Ok_0.0)));
    }
    if pieces.len() <= 2 {
        assert(crate::callback::can_return(offline_uuid, name@, Some(result->Ok_0.1.id)));
        assert(may_give(offline_uuid, name@, Some(result->Ok_0.1.id)));
    }
    if pieces.len() > 3 {
        let value = properties->Value_0;
        assert(crate::callback::can_return(parse_properties, pieces[3], Some(value)));
        assert(may_give(parse_properties, pieces[3], Some(value)));
    }
}

/// Whether the address that was forwarded, if one was, can read as such.
pub open spec fn has_address<F: Fn(&str) -> Option<IpAddr>>(
    parse_ip: F,
    pieces: Seq<Seq<char>>,
) -> bool {
    pieces.len() > 1 ==> exists|ip: IpAddr| #[trigger] may_give(parse_ip, pieces[1], Some(ip))
}

/// A login of an allowed proxy is turned down only for a reason: for its address, its UUID or its
/// properties only where that field was forwarded and does not read as such, and for want of a UUID
/// for offline play only where no UUID was forwarded. Whatever comes before it in this order was as
/// it should be.
pub proof fn law_failed_login_has_a_reason<
    ParseIp: Fn(&str) -> Option<IpAddr>,
    ParseProperties: Fn(&str) -> Option<Vec<Property>>,
    OfflineUuid: Fn(&str) -> Option<u128>,
>(
    client_ip: IpAddr,
    server_address: &str,
    pieces: Seq<Seq<char>>,
    name: String,
    config: &BungeeCordConfig,
    parse_ip: ParseIp,
    parse_properties: ParseProperties,
    offline_uuid: OfflineUuid,
    result: Result<(IpAddr, GameProfile), BungeeCordError>,
)
    requires
        pieces.len() > 0,
        crate::text_laws::are_free_of(pieces, '\0'),
        server_address@ == crate::text_laws::joined(pieces, '\0'),
        call_ensures(
            bungeecord_login::<ParseIp, ParseProperties, OfflineUuid>,
            (
                client_ip,
                server_address,
                name,
                config,
                parse_ip,
                parse_properties,
                offline_uuid,
            ),
            result,
        ),
        result is Err,
    ensures
        match result->Err_0 {
            BungeeCordError::ProxyNotAllowed => config.allowed_ips@.len() > 0
                && !config.allowed_ips@.contains(client_ip),
            BungeeCordError::FailedParseAddress => pieces.len() > 1 && may_give(
                parse_ip,
                pieces[1],
                None,
            ),
            BungeeCordError::FailedParseUUID => {
                &&& has_address(parse_ip, pieces)
                &&& pieces.len() > 2
                &&& crate::outside::parsed_uuid(pieces[2]) is None
            },
            BungeeCordError::FailedMakeOfflineUUID => {
                &&& has_address(parse_ip, pieces)
                &&& pieces.len() <= 2
                &&& may_give(offline_uuid, name@, None)
            },
            BungeeCordError::FailedParseProperties => {
                &&& has_address(parse_ip, pieces)
                &&& pieces.len() > 3
                &&& crate::outside::parsed_uuid(pieces[2]) is Some
                &&& may_give(parse_properties, pieces[3], None)
            },
        },
{
    law_pieces_of_an_address_are_found(pieces, 1);
    law_pieces_of_an_address_are_found(pieces, 2);
    law_pieces_of_an_address_are_found(pieces, 3);
    if result->Err_0 != BungeeCordError::ProxyNotAllowed {
        let (ip, offline_id, properties) = choose|
            ip: Forwarded<IpAddr>,
            offline_id: Option<u128>,
            properties: Forwarded<Vec<Property>>,
        |
            #[trigger] crate::bungeecord::are_outcomes(
                server_address@,
                name@,
                parse_ip,
                parse_properties,
                offline_uuid,
                ip,
                offline_id,
                properties,
            ) && crate::bungeecord::login_result(
                client_ip,
                name,
                ip,
                crate::bungeecord::forwarded_uuid(
                    crate::bungeecord::address_piece(server_address@, 2),
                ),
                offline_id,
                properties.as_seq(),
                result,
            );
        if ip is Value {
            assert(crate::callback::can_return(parse_ip, pieces[1], Some(ip->Value_0)));
            assert(may_give(parse_ip, pieces[1], Some(ip->Value_0)));
        }
        match result->Err_0 {
            BungeeCordError::FailedParseAddress => {
                assert(crate::callback::can_return(parse_ip, pieces[1], None::<IpAddr>));
                assert(may_give(parse_ip, pieces[1], None::<IpAddr>));
            },
            BungeeCordError::FailedMakeOfflineUUID => {
                assert(crate::callback::can_return(offline_uuid, name@, None::<u128>));
                assert(may_give(offline_uuid, name@, None::<u128>));
            },
            BungeeCordError::FailedParseProperties => {
                assert(crate::callback::can_return(
                    parse_properties,
                    pieces[3],
                    None::<Vec<Property>>,
                ));
                assert(may_give(parse_properties, pieces[3], None::<Vec<Property>>));
            },
            _ => {},
        }
    }
}

/// A function that is handed in can return a value for a text, or for bytes, if and only if it can
/// for an argument that holds just these.
pub proof fn law_handed_in_functions_get_the_whole_argument<
    T,
    F: Fn(&str) -> T,
    G: Fn(&[u8]) -> T,
>(on_text: F, text: Seq<char>, on_bytes: G, bytes: Seq<u8>, value: T)
    ensures
        crate::callback::can_return(on_text, text, value) <==> exists|argument: &str|
            argument@ == text && #[trigger] call_ensures(on_text, (argument,), value),
        crate::callback::can_return_for_bytes(on_bytes, bytes, value) <==> exists|argument: &[u8]|
            argument@ == bytes && #[trigger] call_ensures(on_bytes, (argument,), value),
{
}

/// Four octets make up one address, and different octets another one.
pub proof fn law_octets_make_up_one_address(
    left: (u8, u8, u8, u8),
    right: (u8, u8, u8, u8),
    left_ip: IpAddr,
    right_ip: IpAddr,
)
    requires
        call_ensures(IpAddr::from_octets, left, left_ip),
        call_ensures(IpAddr::from_octets, right, right_ip),
    ensures
        left_ip is V4,
        left_ip->V4_0 == left.0 * 16_777_216 + left.1 * 65_536 + left.2 * 256 + left.3,
        left_ip == right_ip <==> left == right,
{
}

/// An address is found in a list if and only if it stands somewhere in it.
pub proof fn law_listed_address_is_found(ips: Vec<IpAddr>, ip: IpAddr, found: bool)
    requires
        call_ensures(contains_ip, (&ips, ip), found),
    ensures
        found <==> exists|i: int| 0 <= i < ips@.len() && ips@[i] == ip,
{
}

} // verus!
