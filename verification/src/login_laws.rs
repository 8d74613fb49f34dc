//! What holds of logins at large: of the proxies that may forward them, of what a proxy forwards,
//! of texture URLs, and of the URL of a session.

use vstd::prelude::*;

use crate::authentication::{AuthenticationConfig, Texture, TextureConfig, TextureFault};
use crate::bungeecord::{BungeeCordConfig, IP_FIELD, PROPERTIES_FIELD, UUID_FIELD};
use crate::ip::IpAddr;

verus! {

/// Where no proxies are listed, every connection may forward logins.
pub proof fn law_empty_list_allows_all_proxies(config: BungeeCordConfig, ip: IpAddr)
    requires
        config.allowed_ips@.len() == 0,
    ensures
        config.allows(ip),
{
}

/// Where proxies are listed, those and no others may forward logins.
pub proof fn law_list_allows_listed_proxies_only(config: BungeeCordConfig, ip: IpAddr)
    requires
        config.allowed_ips@.len() > 0,
    ensures
        config.allows(ip) <==> config.allowed_ips@.contains(ip),
{
}

/// A separator behind a piece that holds none splits it off.
pub proof fn law_split_takes_off_a_piece(piece: Seq<char>, separator: char, rest: Seq<char>)
    requires
        !piece.contains(separator),
    ensures
        crate::text::split_on(piece + seq![separator] + rest, separator) == seq![piece]
            + crate::text::split_on(rest, separator),
{
    let text = piece + seq![separator] + rest;
    assert forall|j: int| 0 <= j < piece.len() implies text[j] != separator by {
        assert(piece.contains(piece[j]));
    }
    crate::text::lemma_first_index(text, separator, piece.len() as int);
    assert(text.take(piece.len() as int) =~= piece);
    assert(text.skip(piece.len() as int + 1) =~= rest);
}

/// A text that holds no separator is one piece.
pub proof fn law_split_leaves_one_piece(text: Seq<char>, separator: char)
    requires
        !text.contains(separator),
    ensures
        crate::text::split_on(text, separator) == seq![text],
{
    assert forall|j: int| 0 <= j < text.len() implies text[j] != separator by {
        assert(text.contains(text[j]));
    }
    crate::text::lemma_first_index(text, separator, text.len() as int);
}

/// A server address to which no proxy added anything has no forwarded fields.
pub proof fn law_plain_address_forwards_nothing(host: Seq<char>)
    requires
        !host.contains('\0'),
    ensures
        crate::bungeecord::address_piece(host, IP_FIELD as int) is None,
        crate::bungeecord::address_piece(host, UUID_FIELD as int) is None,
        crate::bungeecord::address_piece(host, PROPERTIES_FIELD as int) is None,
{
    law_split_leaves_one_piece(host, '\0');
}

/// A proxy that forwards addresses and runs in offline mode adds the IP address and the UUID, and
/// they are found again.
pub proof fn law_offline_proxy_forwards_ip_and_uuid(host: Seq<char>, ip: Seq<char>, uuid: Seq<char>)
    requires
        !host.contains('\0'),
        !ip.contains('\0'),
        !uuid.contains('\0'),
    ensures
        ({
            let address = host + seq!['\0'] + (ip + seq!['\0'] + uuid);
            &&& crate::bungeecord::address_piece(address, IP_FIELD as int) == Some(ip)
            &&& crate::bungeecord::address_piece(address, UUID_FIELD as int) == Some(uuid)
            &&& crate::bungeecord::address_piece(address, PROPERTIES_FIELD as int) is None
        }),
{
    law_split_takes_off_a_piece(host, '\0', ip + seq!['\0'] + uuid);
    law_split_takes_off_a_piece(ip, '\0', uuid);
    law_split_leaves_one_piece(uuid, '\0');
}

/// A proxy that forwards addresses and runs in online mode adds the properties too, and they are
/// found again, whatever comes after them.
pub proof fn law_online_proxy_forwards_properties(
    host: Seq<char>,
    ip: Seq<char>,
    uuid: Seq<char>,
    properties: Seq<char>,
    more: Seq<char>,
)
    requires
        !host.contains('\0'),
        !ip.contains('\0'),
        !uuid.contains('\0'),
        !properties.contains('\0'),
    ensures
        ({
            let front = host + seq!['\0'] + (ip + seq!['\0'] + (uuid + seq!['\0'] + properties));
            let longer = host + seq!['\0'] + (ip + seq!['\0'] + (uuid + seq!['\0'] + (properties
                + seq!['\0'] + more)));
            forall|address: Seq<char>|
                address == front || address == longer ==> {
                    &&& #[trigger] crate::bungeecord::address_piece(address, IP_FIELD as int)
                        == Some(ip)
                    &&& crate::bungeecord::address_piece(address, UUID_FIELD as int) == Some(uuid)
                    &&& crate::bungeecord::address_piece(address, PROPERTIES_FIELD as int) == Some(
                        properties,
                    )
                }
        }),
{
    let last = properties + seq!['\0'] + more;
    law_split_takes_off_a_piece(properties, '\0', more);
    law_split_leaves_one_piece(properties, '\0');
    law_split_takes_off_a_piece(uuid, '\0', properties);
    law_split_takes_off_a_piece(uuid, '\0', last);
    law_split_takes_off_a_piece(ip, '\0', uuid + seq!['\0'] + properties);
    law_split_takes_off_a_piece(ip, '\0', uuid + seq!['\0'] + last);
    law_split_takes_off_a_piece(host, '\0', ip + seq!['\0'] + (uuid + seq!['\0'] + properties));
    law_split_takes_off_a_piece(host, '\0', ip + seq!['\0'] + (uuid + seq!['\0'] + last));
}

/// The URL of a texture is accepted if and only if it has a scheme and a host that are, character
/// by character, allowed ones, and nothing in the host is suspicious.
pub proof fn law_texture_url_matches_exactly(
    scheme: Option<Seq<char>>,
    host: Option<Seq<char>>,
    config: TextureConfig,
)
    ensures
        crate::authentication::url_fault(scheme, host, config) is None <==> {
            &&& scheme is Some
            &&& crate::authentication::is_listed(config.allowed_url_schemes@, scheme->0)
            &&& host is Some
            &&& crate::authentication::is_listed(config.allowed_url_domains@, host->0)
            &&& !crate::authentication::is_suspicious(host->0)
        },
{
}

/// A domain that merely ends in the one allowed domain is turned down.
pub proof fn law_longer_domain_is_rejected(
    scheme: Option<Seq<char>>,
    prefix: Seq<char>,
    config: TextureConfig,
)
    requires
        config.allowed_url_domains@.len() == 1,
        prefix.len() > 0,
    ensures
        crate::authentication::url_fault(
            scheme,
            Some(prefix + config.allowed_url_domains@[0]@),
            config,
        ) is Some,
{
    let domain = config.allowed_url_domains@[0]@;
    assert((prefix + domain).len() != domain.len());
}

/// A domain with two dots in a row or with a percent sign is turned down, even if it is listed.
pub proof fn law_suspicious_domain_is_rejected(
    scheme: Seq<char>,
    before: Seq<char>,
    after: Seq<char>,
    config: TextureConfig,
)
    requires
        crate::authentication::is_listed(config.allowed_url_schemes@, scheme),
    ensures
        crate::authentication::url_fault(Some(scheme), Some(before + seq!['.', '.'] + after), config)
            == Some(TextureFault::DisallowedUrlDomain(before + seq!['.', '.'] + after)),
        crate::authentication::url_fault(Some(scheme), Some(before + seq!['%'] + after), config)
            == Some(TextureFault::DisallowedUrlDomain(before + seq!['%'] + after)),
{
    let dotted = before + seq!['.', '.'] + after;
    assert(dotted.subrange(before.len() as int, before.len() as int + 2) =~= seq!['.', '.']);
    assert(crate::text::occurs_at(dotted, seq!['.', '.'], before.len() as int));
    let encoded = before + seq!['%'] + after;
    assert(encoded[before.len() as int] == '%');
}

/// The textures of a profile are accepted if and only if each of them is.
pub proof fn law_textures_are_accepted_together(
    textures: Seq<(String, Texture)>,
    config: TextureConfig,
)
    ensures
        crate::authentication::first_fault(textures, config) is None <==> forall|i: int|
            0 <= i < textures.len() ==> is_acceptable(#[trigger] textures[i], config),
    decreases textures.len(),
{
    if textures.len() > 0 {
        let rest = textures.skip(1);
        law_textures_are_accepted_together(rest, config);
        if crate::authentication::first_fault(textures, config) is None {
            assert forall|i: int| 0 <= i < textures.len() implies is_acceptable(
                #[trigger] textures[i],
                config,
            ) by {
                if i > 0 {
                    assert(rest[i - 1] == textures[i]);
                }
            }
        } else if is_acceptable(textures[0], config) {
            let i = choose|i: int| 0 <= i < rest.len() && !is_acceptable(#[trigger] rest[i], config);
            assert(!is_acceptable(textures[i + 1], config));
        }
    }
}

/// Whether nothing is wrong with a texture.
pub open spec fn is_acceptable(texture: (String, Texture), config: TextureConfig) -> bool {
    crate::authentication::texture_fault(
        crate::outside::parsed_uri(texture.1.url@),
        config,
    ) is None
}

/// Whether the textures of a profile are accepted does not depend on the order in which they are
/// looked at.
pub proof fn law_order_of_textures_does_not_matter(
    textures: Seq<(String, Texture)>,
    shuffled: Seq<(String, Texture)>,
    config: TextureConfig,
)
    requires
        textures.to_multiset() == shuffled.to_multiset(),
    ensures
        crate::authentication::first_fault(textures, config) is None
            <==> crate::authentication::first_fault(shuffled, config) is None,
{
    law_textures_are_accepted_together(textures, config);
    law_textures_are_accepted_together(shuffled, config);
    textures.to_multiset_ensures();
    shuffled.to_multiset_ensures();
    assert forall|i: int| 0 <= i < textures.len() implies shuffled.contains(
        #[trigger] textures[i],
    ) by {
        assert(textures.contains(textures[i]));
        assert(textures.to_multiset().count(textures[i]) > 0);
    }
    assert forall|i: int| 0 <= i < shuffled.len() implies textures.contains(
        #[trigger] shuffled[i],
    ) by {
        assert(shuffled.contains(shuffled[i]));
        assert(shuffled.to_multiset().count(shuffled[i]) > 0);
    }
}

/// Replacing passes over a front in which no occurrence of the pattern begins.
pub proof fn lemma_replaced_passes_over(
    front: Seq<char>,
    rest: Seq<char>,
    pattern: Seq<char>,
    with: Seq<char>,
)
    requires
        pattern.len() > 0,
        forall|j: int| 0 <= j < front.len() ==> !crate::text::occurs_at(front + rest, pattern, j),
    ensures
        crate::text::replaced(front + rest, pattern, with) == front + crate::text::replaced(
            rest,
            pattern,
            with,
        ),
    decreases front.len(),
{
    let text = front + rest;
    let filled = crate::text::replaced(rest, pattern, with);
    if front.len() == 0 {
        assert(text =~= rest);
        assert(front + filled =~= filled);
    } else {
        let shorter = front.skip(1);
        assert(text.skip(1) =~= shorter + rest);
        assert forall|j: int| 0 <= j < shorter.len() implies !crate::text::occurs_at(
            shorter + rest,
            pattern,
            j,
        ) by {
            if crate::text::occurs_at(shorter + rest, pattern, j) {
                assert(text.subrange(j + 1, j + 1 + pattern.len()) =~= (shorter + rest).subrange(
                    j,
                    j + pattern.len(),
                ));
                assert(crate::text::occurs_at(text, pattern, j + 1));
            }
        }
        lemma_replaced_passes_over(shorter, rest, pattern, with);
        assert(!crate::text::occurs_at(text, pattern, 0));
        assert(seq![text[0]] + (shorter + filled) =~= front + filled);
    }
}

/// No occurrence of a pattern begins in a front that does not hold its first character.
proof fn lemma_no_occurrence_begins(front: Seq<char>, rest: Seq<char>, pattern: Seq<char>)
    requires
        pattern.len() > 0,
        !front.contains(pattern[0]),
    ensures
        forall|j: int| 0 <= j < front.len() ==> !crate::text::occurs_at(front + rest, pattern, j),
{
    assert forall|j: int| 0 <= j < front.len() implies !crate::text::occurs_at(
        front + rest,
        pattern,
        j,
    ) by {
        if crate::text::occurs_at(front + rest, pattern, j) {
            assert((front + rest).subrange(j, j + pattern.len())[0] == front[j]);
        }
    }
}

/// A text that does not hold the first character of the pattern stays as it is.
pub proof fn law_replace_leaves_other_text(text: Seq<char>, pattern: Seq<char>, with: Seq<char>)
    requires
        pattern.len() > 0,
        !text.contains(pattern[0]),
    ensures
        crate::text::replaced(text, pattern, with) == text,
{
    lemma_no_occurrence_begins(text, Seq::empty(), pattern);
    lemma_replaced_passes_over(text, Seq::empty(), pattern, with);
    assert(text + Seq::<char>::empty() =~= text);
}

/// A placeholder is filled in where it first stands.
pub proof fn law_placeholder_is_filled_in(
    front: Seq<char>,
    placeholder: Seq<char>,
    back: Seq<char>,
    with: Seq<char>,
)
    requires
        placeholder.len() > 0,
        forall|j: int|
            0 <= j < front.len() ==> !crate::text::occurs_at(
                front + (placeholder + back),
                placeholder,
                j,
            ),
    ensures
        crate::text::replaced(front + placeholder + back, placeholder, with) == front + with
            + crate::text::replaced(back, placeholder, with),
{
    let rest = placeholder + back;
    assert(rest.subrange(0, placeholder.len() as int) =~= placeholder);
    assert(rest.skip(placeholder.len() as int) =~= back);
    lemma_replaced_passes_over(front, rest, placeholder, with);
    assert(front + placeholder + back =~= front + rest);
    let filled = crate::text::replaced(back, placeholder, with);
    assert(front + (with + filled) =~= front + with + filled);
}

/// The URL of the service itself, about a player's name and a server hash.
pub open spec fn default_session_url(username: Seq<char>, server_hash: Seq<char>) -> Seq<char> {
    "https://sessionserver.mojang.com/session/minecraft/hasJoined?username="@ + username
        + "&serverId="@ + server_hash
}

/// The template of the service's own URL, with the name and the hash filled in.
proof fn lemma_default_template_is_filled_in(username: Seq<char>, server_hash: Seq<char>)
    requires
        !crate::text::occurs(username, "{server_hash}"@),
    ensures
        crate::text::replaced(
            crate::text::replaced(
                "https://sessionserver.mojang.com/session/minecraft/hasJoined?username={username}&serverId={server_hash}"@,
                "{username}"@,
                username,
            ),
            "{server_hash}"@,
            server_hash,
        ) == default_session_url(username, server_hash),
{
    let front = "https://sessionserver.mojang.com/session/minecraft/hasJoined?username="@;
    let middle = "&serverId="@;
    let name_mark = "{username}"@;
    let hash_mark = "{server_hash}"@;
    let template =
        "https://sessionserver.mojang.com/session/minecraft/hasJoined?username={username}&serverId={server_hash}"@;
    reveal_strlit("https://sessionserver.mojang.com/session/minecraft/hasJoined?username=");
    reveal_strlit("&serverId=");
    reveal_strlit("{username}");
    reveal_strlit("{server_hash}");
    reveal_strlit(
        "https://sessionserver.mojang.com/session/minecraft/hasJoined?username={username}&serverId={server_hash}",
    );
    let back = middle + hash_mark;
    assert(template =~= front + name_mark + back);
    assert(!front.contains('{'));
    assert(!middle.contains('{'));

    lemma_no_occurrence_begins(front, name_mark + back, name_mark);
    law_placeholder_is_filled_in(front, name_mark, back, username);
    lemma_no_occurrence_begins(middle, hash_mark, name_mark);
    lemma_replaced_passes_over(middle, hash_mark, name_mark, username);
    let tail = hash_mark.skip(1);
    assert(!tail.contains('{'));
    assert(!crate::text::occurs_at(hash_mark, name_mark, 0)) by {
        assert(hash_mark.subrange(0, 10)[1] != name_mark[1]);
    }
    law_replace_leaves_other_text(tail, name_mark, username);
    assert(seq![hash_mark[0]] + tail =~= hash_mark);

    let named = front + username + back;
    let lead = front + username + middle;
    assert(named =~= lead + hash_mark + Seq::<char>::empty());
    let whole = lead + (hash_mark + Seq::<char>::empty());
    assert forall|j: int| 0 <= j < lead.len() implies !crate::text::occurs_at(
        whole,
        hash_mark,
        j,
    ) by {
        if crate::text::occurs_at(whole, hash_mark, j) {
            let found = whole.subrange(j, j + hash_mark.len());
            assert(found[0] == whole[j]);
            if j < front.len() {
                assert(front[j] == '{');
            } else if j >= front.len() + username.len() {
                assert(middle[j - front.len() - username.len()] == '{');
            } else if j + hash_mark.len() <= front.len() + username.len() {
                let at = j - front.len();
                assert(username.subrange(at, at + hash_mark.len()) =~= found);
                assert(crate::text::occurs_at(username, hash_mark, at));
            } else {
                let at = front.len() + username.len() - j;
                assert(found[at] == middle[0]);
                assert(hash_mark[at] != '&');
            }
        }
    }
    law_placeholder_is_filled_in(lead, hash_mark, Seq::empty(), server_hash);
    assert(lead + server_hash + Seq::<char>::empty() =~= lead + server_hash);
}

/// Where no other URL is set, and the player's address is not asked about, the service is asked at
/// its own URL about the player's name and the server hash, unless the name holds the placeholder
/// of the hash.
pub proof fn law_default_session_url(
    username: Seq<char>,
    server_hash: Seq<char>,
    ip: Seq<char>,
    config: AuthenticationConfig,
)
    requires
        !config.prevent_proxy_connections,
        config.url is None,
        !crate::text::occurs(username, "{server_hash}"@),
    ensures
        crate::authentication::session_url(username, server_hash, ip, config)
            == default_session_url(username, server_hash),
{
    lemma_default_template_is_filled_in(username, server_hash);
}

/// The service's own URL holds a placeholder of the address only where the name or the hash does.
proof fn lemma_default_url_has_no_address(username: Seq<char>, server_hash: Seq<char>)
    requires
        !crate::text::occurs(username, "{ip}"@),
        !crate::text::occurs(server_hash, "{ip}"@),
    ensures
        !crate::text::occurs(default_session_url(username, server_hash), "{ip}"@),
{
    let front = "https://sessionserver.mojang.com/session/minecraft/hasJoined?username="@;
    let middle = "&serverId="@;
    let mark = "{ip}"@;
    let url = default_session_url(username, server_hash);
    reveal_strlit("https://sessionserver.mojang.com/session/minecraft/hasJoined?username=");
    reveal_strlit("&serverId=");
    reveal_strlit("{ip}");
    assert(!front.contains('{'));
    assert(!middle.contains('{'));
    assert forall|j: int| !crate::text::occurs_at(url, mark, j) by {
        if crate::text::occurs_at(url, mark, j) {
            let found = url.subrange(j, j + mark.len());
            let name_end = front.len() + username.len();
            let hash_start = name_end + middle.len();
            assert(found[0] == url[j]);
            if j < front.len() {
                assert(front[j] == '{');
            } else if j < name_end {
                if j + mark.len() <= name_end {
                    let at = j - front.len();
                    assert(username.subrange(at, at + mark.len()) =~= found);
                    assert(crate::text::occurs_at(username, mark, at));
                } else {
                    let at = name_end - j;
                    assert(found[at] == middle[0]);
                    assert(mark[at] != '&');
                }
            } else if j < hash_start {
                assert(middle[j - name_end] == '{');
            } else {
                let at = j - hash_start;
                assert(server_hash.subrange(at, at + mark.len()) =~= found);
                assert(crate::text::occurs_at(server_hash, mark, at));
            }
        }
    }
}

/// Where no other URL is set, the service is asked at the same URL though the player's address is to
/// be asked about, and the address is not in it, unless the name or the hash holds a placeholder.
pub proof fn law_default_session_url_leaves_out_the_address(
    username: Seq<char>,
    server_hash: Seq<char>,
    ip: Seq<char>,
    config: AuthenticationConfig,
)
    requires
        config.prevent_proxy_connections,
        config.prevent_proxy_connection_auth_url is None,
        !crate::text::occurs(username, "{server_hash}"@),
        !crate::text::occurs(username, "{ip}"@),
        !crate::text::occurs(server_hash, "{ip}"@),
    ensures
        crate::authentication::session_url(username, server_hash, ip, config)
            == default_session_url(username, server_hash),
{
    let url = default_session_url(username, server_hash);
    lemma_default_template_is_filled_in(username, server_hash);
    lemma_default_url_has_no_address(username, server_hash);
    reveal_strlit("{ip}");
    assert(url + Seq::<char>::empty() =~= url);
    lemma_replaced_passes_over(url, Seq::empty(), "{ip}"@, ip);
}

} // verus!
