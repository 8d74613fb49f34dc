//! What is asked of the authentication service, and what its answers come to.

use vstd::prelude::*;

use crate::authentication::{
    authenticate, authentication_url, collect_keys, fetch_mojang_public_keys, read_key, read_keys,
    read_reply, AuthError, AuthenticationConfig, JsonPublicKey, MojangPublicKeys, Reply,
    RsaPublicKey,
};
use crate::profile::GameProfile;

verus! {

/// An answer with the status 200 and a body that reads gives the body, as it is, and nothing else
/// does. No answer, an answer without content, one that does not read and one with another status
/// each have their error.
pub proof fn law_reply_gives_its_body_or_its_error<T>(
    reply: Reply<T>,
    no_content: AuthError,
    result: Result<T, AuthError>,
)
    requires
        call_ensures(read_reply::<T>, (reply, no_content), result),
    ensures
        result is Ok <==> reply is Answer && reply->status == 200 && reply->body is Some,
        result is Ok ==> reply->body == Some(result->Ok_0),
        reply is Failed ==> result == Err::<T, _>(AuthError::FailedResponse),
        reply is Answer && reply->status == 204 ==> result == Err::<T, _>(no_content),
        reply is Answer && reply->status == 200 && reply->body is None ==> result == Err::<T, _>(
            AuthError::FailedParse,
        ),
        reply is Answer && reply->status != 200 && reply->status != 204 ==> result == Err::<T, _>(
            AuthError::UnknownStatusCode(reply->status),
        ),
{
}

/// Whether a request to `url` can bring `reply`.
pub open spec fn may_bring<T, F: Fn(&str) -> Reply<T>>(
    get: F,
    url: Seq<char>,
    reply: Reply<T>,
) -> bool {
    exists|argument: &str| argument@ == url && #[trigger] call_ensures(get, (argument,), reply)
}

/// The URL that the service is asked at is a template with the name and then the hash filled in, and
/// then the address where it is asked about too. The template is the one that is set for this way
/// of asking, and the service's own where none is.
pub proof fn law_session_url_is_the_filled_in_template(
    username: &str,
    server_hash: &str,
    ip: &str,
    config: AuthenticationConfig,
    url: String,
)
    requires
        call_ensures(authentication_url, (username, server_hash, ip, &config), url),
    ensures
        ({
            let own =
                "https://sessionserver.mojang.com/session/minecraft/hasJoined?username={username}&serverId={server_hash}"@;
            let setting = if config.prevent_proxy_connections {
                config.prevent_proxy_connection_auth_url
            } else {
                config.url
            };
            let template = if setting is Some {
                setting->0@
            } else {
                own
            };
            let filled = crate::text::replaced(
                crate::text::replaced(template, "{username}"@, username@),
                "{server_hash}"@,
                server_hash@,
            );
            &&& !config.prevent_proxy_connections ==> url@ == filled
            &&& config.prevent_proxy_connections ==> url@ == crate::text::replaced(
                filled,
                "{ip}"@,
                ip@,
            )
        }),
{
}

/// Where no other URL is set, the service is asked at its own one, about the name and the hash that
/// were given.
pub proof fn law_service_is_asked_at_its_own_url(
    username: &str,
    server_hash: &str,
    ip: &str,
    config: AuthenticationConfig,
    url: String,
)
    requires
        call_ensures(authentication_url, (username, server_hash, ip, &config), url),
        !crate::text::occurs(username@, "{server_hash}"@),
        config.prevent_proxy_connections ==> !crate::text::occurs(username@, "{ip}"@)
            && !crate::text::occurs(server_hash@, "{ip}"@),
        !config.prevent_proxy_connections ==> config.url is None,
        config.prevent_proxy_connections ==> config.prevent_proxy_connection_auth_url is None,
    ensures
        url@ == "https://sessionserver.mojang.com/session/minecraft/hasJoined?username="@
            + username@ + "&serverId="@ + server_hash@,
{
    if config.prevent_proxy_connections {
        crate::login_laws::law_default_session_url_leaves_out_the_address(
            username@,
            server_hash@,
            ip@,
            config,
        );
    } else {
        crate::login_laws::law_default_session_url(username@, server_hash@, ip@, config);
    }
}

/// Whether no placeholder can begin in `text`.
pub open spec fn has_no_brace(text: Seq<char>) -> bool {
    !text.contains('{')
}

/// A template of one's own, with a place for the name and one for the hash, gets each of them in its
/// place, and keeps everything else.
pub proof fn law_own_template_is_filled_in(
    username: &str,
    server_hash: &str,
    ip: &str,
    config: AuthenticationConfig,
    front: Seq<char>,
    middle: Seq<char>,
    back: Seq<char>,
    url: String,
)
    requires
        call_ensures(authentication_url, (username, server_hash, ip, &config), url),
        !config.prevent_proxy_connections,
        config.url is Some,
        config.url->0@ == front + "{username}"@ + (middle + "{server_hash}"@ + back),
        has_no_brace(front),
        has_no_brace(middle),
        has_no_brace(back),
        has_no_brace(username@),
    ensures
        url@ == front + username@ + (middle + server_hash@ + back),
{
    lemma_name_and_hash_are_filled_in(front, middle, back, username@, server_hash@);
}

/// A template with a place for the address too gets the address in its place, where the service is
/// asked about it.
pub proof fn law_own_template_gets_the_address(
    username: &str,
    server_hash: &str,
    ip: &str,
    config: AuthenticationConfig,
    front: Seq<char>,
    middle: Seq<char>,
    back: Seq<char>,
    end: Seq<char>,
    url: String,
)
    requires
        call_ensures(authentication_url, (username, server_hash, ip, &config), url),
        config.prevent_proxy_connections,
        config.prevent_proxy_connection_auth_url is Some,
        config.prevent_proxy_connection_auth_url->0@ == front + "{username}"@ + (middle
            + "{server_hash}"@ + (back + "{ip}"@ + end)),
        has_no_brace(front),
        has_no_brace(middle),
        has_no_brace(back),
        has_no_brace(end),
        has_no_brace(username@),
        has_no_brace(server_hash@),
    ensures
        url@ == front + username@ + (middle + server_hash@ + (back + ip@ + end)),
{
    let rest = back + "{ip}"@ + end;
    reveal_strlit("{username}");
    reveal_strlit("{server_hash}");
    reveal_strlit("{ip}");
    lemma_address_mark_stays(back, end, "{username}"@, username@);
    lemma_address_mark_stays(back, end, "{server_hash}"@, server_hash@);
    lemma_two_marks_are_filled_in(front, middle, rest, username@, server_hash@);
    let lead = front + username@ + (middle + server_hash@ + back);
    assert(front + username@ + (middle + server_hash@ + rest) =~= lead + "{ip}"@ + end);
    assert(!lead.contains('{'));
    lemma_mark_is_filled_in(lead, "{ip}"@, end, ip@);
    crate::login_laws::law_replace_leaves_other_text(end, "{ip}"@, ip@);
    assert(lead + ip@ + end =~= front + username@ + (middle + server_hash@ + (back + ip@ + end)));
}

/// A mark behind a text without braces is filled in.
proof fn lemma_mark_is_filled_in(front: Seq<char>, mark: Seq<char>, back: Seq<char>, with: Seq<char>)
    requires
        has_no_brace(front),
        mark.len() > 0,
        mark[0] == '{',
    ensures
        crate::text::replaced(front + mark + back, mark, with) == front + with
            + crate::text::replaced(back, mark, with),
{
    let whole = front + (mark + back);
    assert forall|j: int| 0 <= j < front.len() implies !crate::text::occurs_at(whole, mark, j) by {
        if crate::text::occurs_at(whole, mark, j) {
            assert(whole.subrange(j, j + mark.len())[0] == front[j]);
        }
    }
    crate::login_laws::law_placeholder_is_filled_in(front, mark, back, with);
}

/// A mark of another kind, behind a text without braces, stays.
proof fn lemma_other_mark_stays(
    front: Seq<char>,
    other: Seq<char>,
    back: Seq<char>,
    mark: Seq<char>,
    with: Seq<char>,
)
    requires
        has_no_brace(front),
        other.len() > 1,
        mark.len() > 1,
        other[0] == '{',
        mark[0] == '{',
        other[1] != mark[1],
        has_no_brace(other.skip(1)),
    ensures
        crate::text::replaced(front + other + back, mark, with) == front + other
            + crate::text::replaced(back, mark, with),
    decreases front.len() + other.len(),
{
    let text = front + other + back;
    let lead = front + other;
    assert forall|j: int| 0 <= j < lead.len() implies !crate::text::occurs_at(
        lead + back,
        mark,
        j,
    ) by {
        if crate::text::occurs_at(lead + back, mark, j) {
            let found = (lead + back).subrange(j, j + mark.len());
            assert(found[0] == lead[j]);
            assert(found[1] == (lead + back)[j + 1]);
            if j < front.len() {
                assert(front[j] == '{');
            } else if j == front.len() {
                assert(found[1] == other[1]);
            } else {
                assert(other.skip(1)[j - front.len() - 1] == '{');
            }
        }
    }
    assert(text =~= lead + back);
    crate::login_laws::lemma_replaced_passes_over(lead, back, mark, with);
}

/// The mark of the address stays when the name or the hash is filled in.
proof fn lemma_address_mark_stays(
    back: Seq<char>,
    end: Seq<char>,
    mark: Seq<char>,
    with: Seq<char>,
)
    requires
        has_no_brace(back),
        has_no_brace(end),
        mark == "{username}"@ || mark == "{server_hash}"@,
    ensures
        crate::text::replaced(back + "{ip}"@ + end, mark, with) == back + "{ip}"@ + end,
{
    reveal_strlit("{username}");
    reveal_strlit("{server_hash}");
    reveal_strlit("{ip}");
    assert(has_no_brace("{ip}"@.skip(1)));
    lemma_other_mark_stays(back, "{ip}"@, end, mark, with);
    crate::login_laws::law_replace_leaves_other_text(end, mark, with);
}

/// The marks of the name and the hash are filled in, before a rest in which neither occurs.
proof fn lemma_two_marks_are_filled_in(
    front: Seq<char>,
    middle: Seq<char>,
    rest: Seq<char>,
    username: Seq<char>,
    server_hash: Seq<char>,
)
    requires
        has_no_brace(front),
        has_no_brace(middle),
        has_no_brace(username),
        crate::text::replaced(rest, "{username}"@, username) == rest,
        crate::text::replaced(rest, "{server_hash}"@, server_hash) == rest,
    ensures
        crate::text::replaced(
            crate::text::replaced(
                front + "{username}"@ + (middle + "{server_hash}"@ + rest),
                "{username}"@,
                username,
            ),
            "{server_hash}"@,
            server_hash,
        ) == front + username + (middle + server_hash + rest),
{
    reveal_strlit("{username}");
    reveal_strlit("{server_hash}");
    let tail = middle + "{server_hash}"@ + rest;
    lemma_mark_is_filled_in(front, "{username}"@, tail, username);
    assert(has_no_brace("{server_hash}"@.skip(1)));
    lemma_other_mark_stays(middle, "{server_hash}"@, rest, "{username}"@, username);
    let lead = front + username + middle;
    assert(!lead.contains('{'));
    assert(front + username + tail =~= lead + "{server_hash}"@ + rest);
    lemma_mark_is_filled_in(lead, "{server_hash}"@, rest, server_hash);
    assert(lead + server_hash + rest =~= front + username + (middle + server_hash + rest));
}

/// The marks of the name and the hash are filled in, before a rest without braces.
proof fn lemma_name_and_hash_are_filled_in(
    front: Seq<char>,
    middle: Seq<char>,
    back: Seq<char>,
    username: Seq<char>,
    server_hash: Seq<char>,
)
    requires
        has_no_brace(front),
        has_no_brace(middle),
        has_no_brace(back),
        has_no_brace(username),
    ensures
        crate::text::replaced(
            crate::text::replaced(
                front + "{username}"@ + (middle + "{server_hash}"@ + back),
                "{username}"@,
                username,
            ),
            "{server_hash}"@,
            server_hash,
        ) == front + username + (middle + server_hash + back),
{
    reveal_strlit("{username}");
    reveal_strlit("{server_hash}");
    crate::login_laws::law_replace_leaves_other_text(back, "{username}"@, username);
    crate::login_laws::law_replace_leaves_other_text(back, "{server_hash}"@, server_hash);
    lemma_two_marks_are_filled_in(front, middle, back, username, server_hash);
}

/// A player is let in with the profile of an answer with the status 200, at the URL that the service
/// is asked at, and only with that. No session is an answer without content.
pub proof fn law_player_has_the_profile_of_the_session<Get: Fn(&str) -> Reply<GameProfile>>(
    username: &str,
    server_hash: &str,
    ip: &str,
    config: AuthenticationConfig,
    get: Get,
    url: String,
    result: Result<GameProfile, AuthError>,
)
    requires
        call_ensures(authentication_url, (username, server_hash, ip, &config), url),
        call_ensures(
            authenticate::<Get>,
            (username, server_hash, ip, &config, get),
            result,
        ),
    ensures
        exists|reply: Reply<GameProfile>| #[trigger]
            may_bring(get, url@, reply) && {
                &&& result is Ok <==> reply is Answer && reply->status == 200
                    && reply->body is Some
                &&& result is Ok ==> reply->body == Some(result->Ok_0)
                &&& reply is Failed ==> result == Err::<GameProfile, _>(AuthError::FailedResponse)
                &&& reply is Answer && reply->status == 204 ==> result == Err::<GameProfile, _>(
                    AuthError::UnverifiedUsername,
                )
                &&& reply is Answer && reply->status == 200 && reply->body is None ==> result
                    == Err::<GameProfile, _>(AuthError::FailedParse)
                &&& reply is Answer && reply->status != 200 && reply->status != 204 ==> result
                    == Err::<GameProfile, _>(AuthError::UnknownStatusCode(reply->status))
            },
{
    let reply = choose|reply: Reply<GameProfile>| #[trigger]
        crate::callback::can_return(get, url@, reply) && result
            == crate::authentication::reply_result(reply, AuthError::UnverifiedUsername);
    assert(may_bring(get, url@, reply));
}

/// A key is read if and only if its text decodes from base64, to no more than can be read, and that
/// reads as a key; what is read is that key.
pub proof fn law_key_is_read_from_base64(key: JsonPublicKey, read: Option<RsaPublicKey>)
    requires
        call_ensures(read_key, (&key,), read),
    ensures
        ({
            let decoded = crate::outside::base64_decoded(key.public_key@);
            &&& read is Some <==> decoded is Ok && decoded->Ok_0.len() <= 0x1FFF_FFFF
                && crate::outside::parsed_public_key(decoded->Ok_0) is Some
            &&& read is Some ==> crate::outside::parsed_public_key(decoded->Ok_0) == Some(
                (read->0.modulus@, read->0.exponent@),
            )
        }),
{
}

/// Whether `key` is the key that `text` publishes.
pub open spec fn publishes(text: Seq<char>, key: (Seq<u8>, Seq<u8>)) -> bool {
    let decoded = crate::outside::base64_decoded(text);
    &&& decoded is Ok
    &&& decoded->Ok_0.len() <= 0x1FFF_FFFF
    &&& crate::outside::parsed_public_key(decoded->Ok_0) == Some(key)
}

/// Whether `text` publishes no key.
pub open spec fn publishes_nothing(text: Seq<char>) -> bool {
    forall|key: (Seq<u8>, Seq<u8>)| !#[trigger] publishes(text, key)
}

/// Keys are read all together, in order, or not at all: one that cannot be read spoils the list.
pub proof fn law_keys_are_read_together(
    keys: Vec<JsonPublicKey>,
    result: Result<Vec<RsaPublicKey>, AuthError>,
)
    requires
        call_ensures(read_keys, (&keys,), result),
    ensures
        result is Ok ==> result->Ok_0@.len() == keys@.len() && forall|i: int|
            0 <= i < keys@.len() ==> publishes(
                (#[trigger] keys@[i]).public_key@,
                (result->Ok_0@[i].modulus@, result->Ok_0@[i].exponent@),
            ),
        result is Err ==> result->Err_0 is FailedParse && exists|i: int|
            0 <= i < keys@.len() && publishes_nothing((#[trigger] keys@[i]).public_key@),
{
    if result is Ok {
        assert forall|i: int| 0 <= i < keys@.len() implies publishes(
            (#[trigger] keys@[i]).public_key@,
            (result->Ok_0@[i].modulus@, result->Ok_0@[i].exponent@),
        ) by {
            assert(crate::authentication::published_key(keys@[i].public_key@) == Some(
                result->Ok_0@[i]@,
            ));
        }
    } else {
        let i = choose|i: int|
            0 <= i < keys@.len() && !(crate::authentication::published_key(
                (#[trigger] keys@[i]).public_key@,
            ) is Some);
        assert(publishes_nothing(keys@[i].public_key@));
    }
}

/// Keys that were all read are collected in order, and one that was not is an error.
pub proof fn law_read_keys_are_collected(
    keys: Vec<Option<RsaPublicKey>>,
    result: Result<Vec<RsaPublicKey>, AuthError>,
)
    requires
        call_ensures(collect_keys, (keys,), result),
    ensures
        result is Ok <==> forall|i: int| 0 <= i < keys@.len() ==> (#[trigger] keys@[i]) is Some,
        result is Ok ==> result->Ok_0@.len() == keys@.len() && forall|i: int|
            0 <= i < keys@.len() ==> #[trigger] keys@[i] == Some(result->Ok_0@[i]),
        result is Err ==> result->Err_0 is FailedParse,
{
}

/// Where the keys of the service are published: at the place that is set, or at the service's own.
pub open spec fn place_of_keys(config: AuthenticationConfig) -> Seq<char> {
    let place = if config.services_url is Some {
        config.services_url->0@
    } else {
        "https://api.minecraftservices.com/"@
    };
    place + "/publickeys"@
}

/// Whether `result` is what a reply with keys should come to: the keys for certificates of an answer
/// with the status 200, in order, if each of them reads, and else an error that fits the reply.
pub open spec fn are_keys_of_reply(
    reply: Reply<MojangPublicKeys>,
    result: Result<Vec<RsaPublicKey>, AuthError>,
) -> bool {
    if reply is Answer && reply->status == 200 && reply->body is Some {
        let keys = reply->body->0.player_certificate_keys@;
        &&& result is Ok ==> result->Ok_0@.len() == keys.len() && forall|i: int|
            0 <= i < keys.len() ==> publishes(
                (#[trigger] keys[i]).public_key@,
                (result->Ok_0@[i].modulus@, result->Ok_0@[i].exponent@),
            )
        &&& result is Err ==> result->Err_0 is FailedParse && exists|i: int|
            0 <= i < keys.len() && publishes_nothing((#[trigger] keys[i]).public_key@)
    } else {
        &&& result is Err
        &&& reply is Failed ==> result->Err_0 is FailedResponse
        &&& reply is Answer && reply->status == 204 ==> result->Err_0 is FailedResponse
        &&& reply is Answer && reply->status == 200 ==> result->Err_0 is FailedParse
        &&& reply is Answer && reply->status != 200 && reply->status != 204 ==> result->Err_0
            == AuthError::UnknownStatusCode(reply->status)
    }
}

/// The keys for certificates are fetched from where they are published, and are those of an answer
/// with the status 200; they are read together, in order, or not at all. An answer without content
/// is a failed one.
pub proof fn law_certificate_keys_are_those_of_the_answer<
    Get: Fn(&str) -> Reply<MojangPublicKeys>,
>(config: AuthenticationConfig, get: Get, result: Result<Vec<RsaPublicKey>, AuthError>)
    requires
        call_ensures(fetch_mojang_public_keys::<Get>, (&config, get), result),
    ensures
        exists|reply: Reply<MojangPublicKeys>| #[trigger]
            may_bring(get, place_of_keys(config), reply) && are_keys_of_reply(reply, result),
{
    let url = place_of_keys(config);
    let reply = choose|reply: Reply<MojangPublicKeys>| #[trigger]
        crate::callback::can_return(get, crate::authentication::keys_url(config), reply)
            && match crate::authentication::reply_result(reply, AuthError::FailedResponse) {
            Ok(keys) => crate::authentication::keys_result(keys.player_certificate_keys@, result),
            Err(error) => result == Err::<Vec<RsaPublicKey>, _>(error),
        };
    assert(url =~= crate::authentication::keys_url(config));
    assert(may_bring(get, url, reply));
    if reply is Answer && reply->status == 200 && reply->body is Some {
        let keys = reply->body->0.player_certificate_keys@;
        if result is Ok {
            assert forall|i: int| 0 <= i < keys.len() implies publishes(
                (#[trigger] keys[i]).public_key@,
                (result->Ok_0@[i].modulus@, result->Ok_0@[i].exponent@),
            ) by {
                assert(crate::authentication::published_key(keys[i].public_key@) == Some(
                    result->Ok_0@[i]@,
                ));
            }
        } else {
            let i = choose|i: int|
                0 <= i < keys.len() && !(crate::authentication::published_key(
                    (#[trigger] keys[i]).public_key@,
                ) is Some);
            assert(publishes_nothing(keys[i].public_key@));
        }
    }
    assert(are_keys_of_reply(reply, result));
}

/// The key of the service for Bedrock players is the one that it publishes.
pub proof fn law_bedrock_key_is_the_published_one()
    ensures
        crate::authentication::MOJANG_BEDROCK_PUBLIC_KEY_BASE64@
            == "MHYwEAYHKoZIzj0CAQYFK4EEACIDYgAECRXueJeTDqNRRgJi/vlRufByu/2G0i2Ebt6YMar5QX/R0DIIyrJMcUpruK4QveTfJSTp3Shlq4Gk34cD/4GUWwkv0DVuzeuB+tXija7HBxii03NHDbPAD0AKnLr2wdAp"@,
{
}

} // verus!
