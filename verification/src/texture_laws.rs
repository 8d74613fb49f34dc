//! Which textures are accepted, for all URLs, profiles and settings.

use vstd::prelude::*;

use crate::authentication::{
    check_decoded_textures, check_texture, check_textures, is_texture_url_valid, validate_textures,
    ProfileTextures, TextureConfig, TextureError, Uri,
};
use crate::profile::Property;

verus! {

/// Whether `text` is, character by character, one of `texts`.
pub open spec fn is_one_of(texts: Seq<String>, text: Seq<char>) -> bool {
    exists|i: int| 0 <= i < texts.len() && (#[trigger] texts[i])@ == text
}

/// Whether two dots in a row stand in `domain`.
pub open spec fn has_two_dots_in_a_row(domain: Seq<char>) -> bool {
    exists|i: int| 0 <= i < domain.len() - 1 && #[trigger] domain[i] == '.' && domain[i + 1] == '.'
}

/// Whether a percent sign stands in `domain`.
pub open spec fn has_percent_sign(domain: Seq<char>) -> bool {
    exists|i: int| 0 <= i < domain.len() && #[trigger] domain[i] == '%'
}

/// Whether a scheme and a host are those of an acceptable texture: both are there and allowed, and
/// the host holds neither two dots in a row nor a percent sign.
pub open spec fn are_acceptable(
    scheme: Option<Seq<char>>,
    host: Option<Seq<char>>,
    config: TextureConfig,
) -> bool {
    &&& scheme is Some
    &&& is_one_of(config.allowed_url_schemes@, scheme->0)
    &&& host is Some
    &&& is_one_of(config.allowed_url_domains@, host->0)
    &&& !has_two_dots_in_a_row(host->0)
    &&& !has_percent_sign(host->0)
}

/// Whether a texture with the URL `url` is acceptable: it reads as a URL, with an acceptable scheme
/// and host.
pub open spec fn has_acceptable_url(url: Seq<char>, config: TextureConfig) -> bool {
    match crate::outside::parsed_uri(url) {
        Some((scheme, host)) => are_acceptable(scheme, host, config),
        None => false,
    }
}

/// A domain is suspicious if and only if two dots in a row or a percent sign stand in it.
pub proof fn law_suspicious_domains(domain: Seq<char>)
    ensures
        crate::authentication::is_suspicious(domain) <==> has_two_dots_in_a_row(domain)
            || has_percent_sign(domain),
{
    let dots = seq!['.', '.'];
    if crate::text::occurs(domain, dots) {
        let at = choose|at: int| #[trigger] crate::text::occurs_at(domain, dots, at);
        assert(domain.subrange(at, at + 2)[0] == domain[at]);
        assert(domain.subrange(at, at + 2)[1] == domain[at + 1]);
    }
    if has_two_dots_in_a_row(domain) {
        let i = choose|i: int|
            0 <= i < domain.len() - 1 && #[trigger] domain[i] == '.' && domain[i + 1] == '.';
        assert(domain.subrange(i, i + 2) =~= dots);
        assert(crate::text::occurs_at(domain, dots, i));
    }
    if domain.contains('%') {
        let i = choose|i: int| 0 <= i < domain.len() && domain[i] == '%';
        assert(domain[i] == '%');
    }
}

/// A URL is accepted if and only if its scheme and host are acceptable. Else the error names, with
/// its text, the first thing that is wrong: that the scheme is missing, or not allowed, that the
/// host is missing, or not allowed.
pub proof fn law_url_is_accepted_by_scheme_and_domain(
    url: Uri,
    config: TextureConfig,
    checked: Result<(), TextureError>,
)
    requires
        call_ensures(is_texture_url_valid, (&url, &config), checked),
    ensures
        ({
            let scheme = match url.scheme {
                Some(scheme) => Some(scheme@),
                None => None,
            };
            let host = match url.host {
                Some(host) => Some(host@),
                None => None,
            };
            let scheme_allowed = scheme is Some && is_one_of(
                config.allowed_url_schemes@,
                scheme->0,
            );
            &&& checked is Ok <==> are_acceptable(scheme, host, config)
            &&& checked is Err ==> match checked->Err_0 {
                TextureError::InvalidURL => scheme is None || (scheme_allowed && host is None),
                TextureError::DisallowedUrlScheme(text) => scheme == Some(text@)
                    && !scheme_allowed,
                TextureError::DisallowedUrlDomain(text) => scheme_allowed && host == Some(text@),
                _ => false,
            }
        }),
{
    if url.host is Some {
        law_suspicious_domains(url.host->0@);
    }
    if url.scheme is Some {
        assert(crate::authentication::is_listed(config.allowed_url_schemes@, url.scheme->0@)
            == is_one_of(config.allowed_url_schemes@, url.scheme->0@));
    }
    if url.host is Some {
        assert(crate::authentication::is_listed(config.allowed_url_domains@, url.host->0@)
            == is_one_of(config.allowed_url_domains@, url.host->0@));
    }
    assert(crate::authentication::fault_of(checked) is None <==> checked is Ok);
    if checked is Err {
        assert(crate::authentication::fault_of(checked) == Some(checked->Err_0@));
    }
}

/// Reading a URL hands on its scheme and the host of its authority as they are, and what is no URL
/// is not read.
pub proof fn law_url_is_read_as_it_is(text: &str, url: Option<Uri>)
    requires
        call_ensures(Uri::parse, (text,), url),
    ensures
        url is Some <==> crate::outside::parsed_uri(text@) is Some,
        url is Some ==> {
            let (scheme, host) = crate::outside::parsed_uri(text@)->0;
            &&& url->0.scheme is Some <==> scheme is Some
            &&& scheme is Some ==> url->0.scheme->0@ == scheme->0
            &&& url->0.host is Some <==> host is Some
            &&& host is Some ==> url->0.host->0@ == host->0
        },
{
}

/// A texture whose URL could not be read is invalid.
pub proof fn law_unread_url_is_invalid(config: TextureConfig, checked: Result<(), TextureError>)
    requires
        call_ensures(check_texture, (&None, &config), checked),
    ensures
        checked == Err::<(), _>(TextureError::InvalidURL),
{
    assert(crate::authentication::fault_of(checked) == Some(
        crate::authentication::TextureFault::InvalidURL,
    ));
    assert(checked->Err_0@ is InvalidURL);
}

/// A texture with a URL is checked as the URL is.
pub proof fn law_texture_is_checked_by_its_url(
    url: Uri,
    config: TextureConfig,
    checked: Result<(), TextureError>,
)
    requires
        call_ensures(check_texture, (&Some(url), &config), checked),
    ensures
        checked is Ok <==> url.scheme is Some && url.host is Some && are_acceptable(
            Some(url.scheme->0@),
            Some(url.host->0@),
            config,
        ),
{
    if url.host is Some {
        law_suspicious_domains(url.host->0@);
    }
    assert(crate::authentication::fault_of(checked) is None <==> checked is Ok);
}

/// A texture is without fault if and only if its URL is acceptable.
proof fn lemma_faultless_if_acceptable(url: Seq<char>, config: TextureConfig)
    ensures
        crate::authentication::texture_fault(crate::outside::parsed_uri(url), config) is None
            <==> has_acceptable_url(url, config),
{
    if let Some((_, Some(host))) = crate::outside::parsed_uri(url) {
        law_suspicious_domains(host);
    }
}

/// Textures are without fault if and only if the URL of each of them is acceptable.
proof fn lemma_all_or_first_fault(
    textures: Seq<(String, crate::authentication::Texture)>,
    config: TextureConfig,
)
    ensures
        crate::authentication::first_fault(textures, config) is None <==> forall|i: int|
            0 <= i < textures.len() ==> has_acceptable_url((#[trigger] textures[i]).1.url@, config),
        crate::authentication::first_fault(textures, config) is Some ==> exists|i: int|
            {
                &&& 0 <= i < textures.len()
                &&& crate::authentication::first_fault(textures, config)
                    == crate::authentication::texture_fault(
                    crate::outside::parsed_uri((#[trigger] textures[i]).1.url@),
                    config,
                )
                &&& forall|j: int|
                    0 <= j < i ==> has_acceptable_url((#[trigger] textures[j]).1.url@, config)
            },
    decreases textures.len(),
{
    if textures.len() > 0 {
        let rest = textures.skip(1);
        lemma_faultless_if_acceptable(textures[0].1.url@, config);
        lemma_all_or_first_fault(rest, config);
        if has_acceptable_url(textures[0].1.url@, config) {
            if crate::authentication::first_fault(rest, config) is None {
                assert forall|i: int| 0 <= i < textures.len() implies has_acceptable_url(
                    (#[trigger] textures[i]).1.url@,
                    config,
                ) by {
                    if i > 0 {
                        assert(rest[i - 1] == textures[i]);
                    }
                }
            } else {
                let i = choose|i: int|
                    {
                        &&& 0 <= i < rest.len()
                        &&& crate::authentication::first_fault(rest, config)
                            == crate::authentication::texture_fault(
                            crate::outside::parsed_uri((#[trigger] rest[i]).1.url@),
                            config,
                        )
                        &&& forall|j: int|
                            0 <= j < i ==> has_acceptable_url((#[trigger] rest[j]).1.url@, config)
                    };
                assert(rest[i] == textures[i + 1]);
                lemma_faultless_if_acceptable(textures[i + 1].1.url@, config);
                assert(!has_acceptable_url(textures[i + 1].1.url@, config));
                assert forall|j: int| 0 <= j < i + 1 implies has_acceptable_url(
                    (#[trigger] textures[j]).1.url@,
                    config,
                ) by {
                    if j > 0 {
                        assert(rest[j - 1] == textures[j]);
                    }
                }
            }
        } else {
            assert(textures[0] == textures[0]);
        }
    }
}

/// The textures of a profile are accepted if and only if the URL of each of them is acceptable,
/// whatever else the profile says.
pub proof fn law_profile_is_accepted_by_its_urls(
    textures: ProfileTextures,
    config: TextureConfig,
    checked: Result<(), TextureError>,
)
    requires
        call_ensures(check_textures, (&textures, &config), checked),
    ensures
        checked is Ok <==> forall|i: int|
            0 <= i < textures.textures@.len() ==> has_acceptable_url(
                (#[trigger] textures.textures@[i]).1.url@,
                config,
            ),
{
    lemma_all_or_first_fault(textures.textures@, config);
    assert(crate::authentication::fault_of(checked) is None <==> checked is Ok);
}

/// The error of a profile is that of the first of its textures that is not acceptable: no later
/// one matters.
pub proof fn law_error_is_of_the_first_bad_texture(
    textures: ProfileTextures,
    config: TextureConfig,
    checked: Result<(), TextureError>,
)
    requires
        call_ensures(check_textures, (&textures, &config), checked),
        checked is Err,
    ensures
        exists|i: int|
            {
                &&& 0 <= i < textures.textures@.len()
                &&& !has_acceptable_url((#[trigger] textures.textures@[i]).1.url@, config)
                &&& Some(checked->Err_0@) == crate::authentication::texture_fault(
                    crate::outside::parsed_uri(textures.textures@[i].1.url@),
                    config,
                )
                &&& forall|j: int|
                    0 <= j < i ==> has_acceptable_url(
                        (#[trigger] textures.textures@[j]).1.url@,
                        config,
                    )
            },
{
    let all = textures.textures@;
    lemma_all_or_first_fault(all, config);
    assert(crate::authentication::fault_of(checked) == Some(checked->Err_0@));
    let i = choose|i: int|
        {
            &&& 0 <= i < all.len()
            &&& crate::authentication::first_fault(all, config)
                == crate::authentication::texture_fault(
                crate::outside::parsed_uri((#[trigger] all[i]).1.url@),
                config,
            )
            &&& forall|j: int|
                0 <= j < i ==> has_acceptable_url((#[trigger] all[j]).1.url@, config)
        };
    lemma_faultless_if_acceptable(all[i].1.url@, config);
}

/// Whether `parse` can read `bytes` as `parsed`.
pub open spec fn may_read<F: Fn(&[u8]) -> Result<ProfileTextures, String>>(
    parse: F,
    bytes: Seq<u8>,
    parsed: Result<ProfileTextures, String>,
) -> bool {
    exists|argument: &[u8]| argument@ == bytes && #[trigger] call_ensures(parse, (argument,), parsed)
}

/// Whether what was read as `parsed` is acceptable: it reads as textures, and the URL of each of
/// them is acceptable.
pub open spec fn reads_as_acceptable(
    parsed: Result<ProfileTextures, String>,
    config: TextureConfig,
) -> bool {
    parsed is Ok && forall|i: int|
        0 <= i < parsed->Ok_0.textures@.len() ==> has_acceptable_url(
            (#[trigger] parsed->Ok_0.textures@[i]).1.url@,
            config,
        )
}

/// What was read is without fault if and only if it reads as textures with acceptable URLs. What
/// does not read is at fault for that, with the reader's message.
pub proof fn law_only_urls_are_at_fault(
    parsed: Result<ProfileTextures, String>,
    config: TextureConfig,
)
    ensures
        crate::authentication::parsed_fault(parsed, config) is None <==> reads_as_acceptable(
            parsed,
            config,
        ),
        parsed is Err ==> crate::authentication::parsed_fault(parsed, config) == Some(
            crate::authentication::TextureFault::JSONError(parsed->Err_0@),
        ),
        parsed is Ok && crate::authentication::parsed_fault(parsed, config) is Some ==> {
            let fault = crate::authentication::parsed_fault(parsed, config)->0;
            fault is InvalidURL || fault is DisallowedUrlScheme || fault is DisallowedUrlDomain
        },
{
    if parsed is Ok {
        lemma_all_or_first_fault(parsed->Ok_0.textures@, config);
    }
}

/// Two profiles with the same textures are accepted or turned down alike, whatever their other
/// fields say.
pub proof fn law_other_fields_do_not_matter(
    left: ProfileTextures,
    right: ProfileTextures,
    config: TextureConfig,
)
    requires
        left.textures@ == right.textures@,
    ensures
        crate::authentication::parsed_fault(Ok(left), config)
            == crate::authentication::parsed_fault(Ok(right), config),
{
}

/// The textures of a property are accepted if and only if it decodes from base64, what it decodes to
/// reads as textures, and the URL of each of them is acceptable. Else the error is the decoder's or
/// the reader's, with its message, or that of a URL.
pub proof fn law_property_is_accepted_by_its_urls<
    ParseJson: Fn(&[u8]) -> Result<ProfileTextures, String>,
>(
    property: Property,
    config: TextureConfig,
    parse_json: ParseJson,
    checked: Result<(), TextureError>,
)
    requires
        call_ensures(validate_textures::<ParseJson>, (&property, &config, parse_json), checked),
    ensures
        match crate::outside::base64_decoded(property.value@) {
            Err(message) => checked is Err && checked->Err_0@
                == crate::authentication::TextureFault::DecodeError(message),
            Ok(bytes) => exists|parsed: Result<ProfileTextures, String>| #[trigger]
                may_read(parse_json, bytes, parsed) && {
                    &&& checked is Ok <==> reads_as_acceptable(parsed, config)
                    &&& parsed is Err ==> checked is Err && checked->Err_0@
                        == crate::authentication::TextureFault::JSONError(parsed->Err_0@)
                    &&& parsed is Ok && checked is Err ==> checked->Err_0 !is DecodeError
                        && checked->Err_0 !is JSONError
                },
        },
{
    assert(checked is Err ==> crate::authentication::fault_of(checked) == Some(checked->Err_0@));
    assert(checked is Ok ==> crate::authentication::fault_of(checked) is None);
    if crate::outside::base64_decoded(property.value@) is Ok {
        let bytes = crate::outside::base64_decoded(property.value@)->Ok_0;
        let parsed = choose|parsed: Result<ProfileTextures, String>| #[trigger]
            crate::callback::can_return_for_bytes(parse_json, bytes, parsed)
                && crate::authentication::fault_of(checked)
                == crate::authentication::parsed_fault(parsed, config);
        law_only_urls_are_at_fault(parsed, config);
        assert(may_read(parse_json, bytes, parsed));
    }
}

/// The same holds where the base64 was decoded before.
pub proof fn law_decoded_property_is_accepted_by_its_urls<
    ParseJson: Fn(&[u8]) -> Result<ProfileTextures, String>,
>(
    decoded: Result<Vec<u8>, String>,
    config: TextureConfig,
    parse_json: ParseJson,
    checked: Result<(), TextureError>,
)
    requires
        call_ensures(check_decoded_textures::<ParseJson>, (decoded, &config, parse_json), checked),
    ensures
        match decoded {
            Err(message) => checked is Err && checked->Err_0@
                == crate::authentication::TextureFault::DecodeError(message@),
            Ok(bytes) => exists|parsed: Result<ProfileTextures, String>| #[trigger]
                may_read(parse_json, bytes@, parsed) && {
                    &&& checked is Ok <==> reads_as_acceptable(parsed, config)
                    &&& parsed is Err ==> checked is Err && checked->Err_0@
                        == crate::authentication::TextureFault::JSONError(parsed->Err_0@)
                    &&& parsed is Ok && checked is Err ==> checked->Err_0 !is DecodeError
                        && checked->Err_0 !is JSONError
                },
        },
{
    assert(checked is Err ==> crate::authentication::fault_of(checked) == Some(checked->Err_0@));
    assert(checked is Ok ==> crate::authentication::fault_of(checked) is None);
    if decoded is Ok {
        let bytes = decoded->Ok_0@;
        let parsed = choose|parsed: Result<ProfileTextures, String>| #[trigger]
            crate::callback::can_return_for_bytes(parse_json, bytes, parsed)
                && crate::authentication::fault_of(checked)
                == crate::authentication::parsed_fault(parsed, config);
        law_only_urls_are_at_fault(parsed, config);
        assert(may_read(parse_json, bytes, parsed));
    }
}

/// The view of an error says which error it is, and holds its text.
pub proof fn law_view_of_an_error_holds_its_text(text: String)
    ensures
        TextureError::InvalidURL@ is InvalidURL,
        TextureError::DisallowedUrlScheme(text)@
            == crate::authentication::TextureFault::DisallowedUrlScheme(text@),
        TextureError::DisallowedUrlDomain(text)@
            == crate::authentication::TextureFault::DisallowedUrlDomain(text@),
        TextureError::DecodeError(text)@ == crate::authentication::TextureFault::DecodeError(text@),
        TextureError::JSONError(text)@ == crate::authentication::TextureFault::JSONError(text@),
{
}

} // verus!
