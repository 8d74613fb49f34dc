//! Calls into other crates. Each function here makes one such call; what its contract claims of
//! the call is taken as given.

use vstd::prelude::*;

verus! {

/// The number of the UUID that `text` writes, if it writes one: the result of
/// `uuid::Uuid::parse_str`.
pub uninterp spec fn parsed_uuid(text: Seq<char>) -> Option<u128>;

/// `uuid::Uuid::parse_str`, which reads a UUID from text in any of its usual notations. The claim
/// is that the outcome rests on the text alone; which texts write a UUID is left unsaid.
#[verifier::external_body]
pub(crate) fn parse_uuid(text: &str) -> (id: Option<u128>)
    ensures
        id == parsed_uuid(text@),
{
    uuid::Uuid::parse_str(text).ok().map(|id| id.as_u128())
}

/// What `base64::engine::general_purpose::STANDARD.decode` makes of `text`: the bytes, or the
/// message of its error.
pub uninterp spec fn base64_decoded(text: Seq<char>) -> Result<Seq<u8>, Seq<char>>;

/// `base64::Engine::decode` of the engine `base64::engine::general_purpose::STANDARD`, which
/// decodes the standard alphabet with padding. The claim is that the outcome, with the message of
/// its error, rests on the text alone; which bytes a text encodes is left unsaid.
#[verifier::external_body]
pub(crate) fn decode_base64(text: &str) -> (decoded: Result<Vec<u8>, String>)
    ensures
        match decoded {
            Ok(bytes) => base64_decoded(text@) == Ok::<Seq<u8>, Seq<char>>(bytes@),
            Err(message) => base64_decoded(text@) == Err::<Seq<u8>, Seq<char>>(message@),
        },
{
    let engine = base64::engine::general_purpose::STANDARD;
    base64::Engine::decode(&engine, text).map_err(|error| error.to_string())
}

/// The scheme and the host of the URI that `text` writes, if it writes one: the results of
/// `http::Uri::scheme` and of `http::Authority::host` on what `http::Uri::from_str` reads.
pub uninterp spec fn parsed_uri(text: Seq<char>) -> Option<(Option<Seq<char>>, Option<Seq<char>>)>;

/// `http::Uri::from_str`, of which the scheme and the host of the authority are handed on. The
/// claim is that the outcome rests on the text alone; which texts write a URI is left unsaid.
#[verifier::external_body]
pub(crate) fn parse_uri(text: &str) -> (uri: Option<(Option<String>, Option<String>)>)
    ensures
        match uri {
            Some((scheme, host)) => parsed_uri(text@) == Some((text_of(scheme), text_of(host))),
            None => parsed_uri(text@) is None,
        },
{
    let uri = text.parse::<ureq::http::Uri>().ok()?;
    let scheme = uri.scheme().map(|scheme| scheme.as_str().to_string());
    let host = uri.authority().map(|authority| authority.host().to_string());
    Some((scheme, host))
}

/// The characters of `text`, if it is there.
pub open spec fn text_of(text: Option<String>) -> Option<Seq<char>> {
    match text {
        Some(text) => Some(text@),
        None => None,
    }
}

/// The modulus and the public exponent, as big-endian bytes without leading zeros, of the RSA key
/// that `der` encodes, if it encodes one: what `rsa::RsaPublicKey::from_public_key_der` reads, by
/// `rsa::traits::PublicKeyParts::n_bytes` and `e_bytes`.
pub uninterp spec fn parsed_public_key(der: Seq<u8>) -> Option<(Seq<u8>, Seq<u8>)>;

/// `rsa::RsaPublicKey::from_public_key_der`, of which the modulus and the exponent are handed on.
/// The claim is that the outcome rests on the bytes alone; which bytes encode a key is left
/// unsaid. The number of bits of the modulus has to fit into 32 bits.
#[verifier::external_body]
pub(crate) fn parse_public_key(der: &[u8]) -> (key: Option<(Vec<u8>, Vec<u8>)>)
    requires
        der@.len() < 0x2000_0000,
    ensures
        match key {
            Some((modulus, exponent)) => parsed_public_key(der@) == Some((modulus@, exponent@)),
            None => parsed_public_key(der@) is None,
        },
{
    let key = rsa::pkcs8::DecodePublicKey::from_public_key_der(der).ok();
    let key: rsa::RsaPublicKey = key?;
    let modulus = rsa::traits::PublicKeyParts::n_bytes(&key).into_vec();
    let exponent = rsa::traits::PublicKeyParts::e_bytes(&key).into_vec();
    Some((modulus, exponent))
}

/// The number of bits of the modulus of the RSA private key that `der` encodes in PKCS #8: the
/// result of `rsa::traits::PublicKeyParts::n(..).bits()` on what
/// `rsa::pkcs8::DecodePrivateKey::from_pkcs8_der` reads, and zero where it reads nothing or the
/// factors that `der` lists are not distinct primes.
pub uninterp spec fn private_key_bits(der: Seq<u8>) -> nat;

/// The sizes of key that can be made and read.
pub open spec fn is_key_size(bits: nat) -> bool {
    1024 <= bits <= 8192
}

/// `rsa::RsaPrivateKey::new` with the random numbers of `rand::rng`, and the new key's encoding in
/// PKCS #8. Which key it is rests on chance; the claim is that its factors are distinct primes, as
/// far as the tests for primes of that crate go, and that its modulus has as many bits as was asked
/// for.
#[verifier::external_body]
pub(crate) fn generate_rsa_key(bits: usize) -> (der: Vec<u8>)
    requires
        is_key_size(bits as nat),
    ensures
        private_key_bits(der@) == bits,
{
    let mut rng = rand::rng();
    let key = rsa::RsaPrivateKey::new(&mut rng, bits).expect("Failed to generate a key");
    let der = rsa::pkcs8::EncodePrivateKey::to_pkcs8_der(&key);
    der.expect("Failed to encode private key to PKCS #8 DER").as_bytes().to_vec()
}

/// The size of an RSA private key that is encoded in PKCS #8: `bits` of the modulus that
/// `rsa::traits::PublicKeyParts::n` returns.
#[verifier::external_body]
pub(crate) fn rsa_key_bits(der: &[u8]) -> (bits: u32)
    requires
        is_key_size(private_key_bits(der@)),
    ensures
        bits == private_key_bits(der@),
{
    let key = rsa::pkcs8::DecodePrivateKey::from_pkcs8_der(der);
    let key: rsa::RsaPrivateKey = key.expect("Failed to decode private key");
    rsa::traits::PublicKeyParts::n(&key).bits()
}

/// The SPKI encoding of the public half of the RSA private key that `private_der` encodes: the
/// result of `rsa::pkcs8::EncodePublicKey::to_public_key_der`.
pub uninterp spec fn public_half(private_der: Seq<u8>) -> Seq<u8>;

/// `rsa::pkcs8::EncodePublicKey::to_public_key_der` on the public half of an RSA private key that
/// is encoded in PKCS #8. The claim is that the encoding rests on the private key alone and is
/// not empty.
#[verifier::external_body]
pub(crate) fn encode_public_half(private_der: &[u8]) -> (public_der: Vec<u8>)
    requires
        is_key_size(private_key_bits(private_der@)),
    ensures
        public_der@ == public_half(private_der@),
        public_der@.len() > 0,
{
    let key = rsa::pkcs8::DecodePrivateKey::from_pkcs8_der(private_der);
    let key: rsa::RsaPrivateKey = key.expect("Failed to decode private key");
    let der = rsa::pkcs8::EncodePublicKey::to_public_key_der(&key.to_public_key());
    der.expect("Failed to encode public key to SPKI DER").as_bytes().to_vec()
}

/// `rsa::Error`, what went wrong in a call of the `rsa` crate.
#[verifier::external_type_specification]
#[verifier::external_body]
pub struct ExRsaError(rsa::Error);

/// The message that `data` decrypts to under PKCS #1 v1.5 with the RSA private key that `key`
/// encodes, if it decrypts: the result of `rsa::RsaPrivateKey::decrypt`.
pub uninterp spec fn rsa_message(key: Seq<u8>, data: Seq<u8>) -> Option<Seq<u8>>;

/// Whether `padded` is `message` in the padding of PKCS #1 v1.5 for encryption: the bytes 0 and 2,
/// eight or more bytes other than 0, the byte 0, and the message.
pub open spec fn is_padded(padded: Seq<u8>, message: Seq<u8>) -> bool {
    let end = padded.len() - message.len() - 1;
    &&& end >= 10
    &&& padded[0] == 0 && padded[1] == 2
    &&& forall|i: int| 2 <= i < end ==> padded[i] != 0
    &&& padded[end] == 0
    &&& padded.skip(end + 1) == message
}

/// Whether `data` is an encryption of `message` under PKCS #1 v1.5 with the RSA public key that
/// `public_der` encodes: the padded message to the power of the exponent, modulo the modulus.
pub open spec fn is_encryption(public_der: Seq<u8>, message: Seq<u8>, data: Seq<u8>) -> bool {
    match parsed_public_key(public_der) {
        Some((modulus, exponent)) => exists|padded: Seq<u8>| #[trigger]
            is_padded(padded, message) && padded.len() == data.len() && big_endian(data)
                == vstd::arithmetic::power::pow(big_endian(padded) as int, big_endian(exponent))
                % (big_endian(modulus) as int),
        None => false,
    }
}

/// `rsa::RsaPrivateKey::decrypt` with the padding `rsa::Pkcs1v15Encrypt`, under a key that is
/// encoded in PKCS #8. The claim is that a message that comes out rests on the key and the data
/// alone, that it is the message whose encryption the data is, if it is one, and that data of
/// another length than the modulus is an error. That a message comes out where there is one is left
/// unsaid: the call also fails where the operating system has no random numbers for it.
#[verifier::external_body]
pub(crate) fn rsa_decrypt(key: &[u8], data: &[u8]) -> (message: Result<Vec<u8>, rsa::Error>)
    requires
        is_key_size(private_key_bits(key@)),
    ensures
        message is Ok ==> rsa_message(key@, data@) == Some(message->Ok_0@),
        message is Ok ==> forall|text: Seq<u8>| #[trigger]
            is_encryption(public_half(key@), text, data@) ==> message->Ok_0@ == text,
        data@.len() != (private_key_bits(key@) + 7) / 8 ==> message is Err,
{
    let key: rsa::RsaPrivateKey = rsa::pkcs8::DecodePrivateKey::from_pkcs8_der(key)?;
    key.decrypt(rsa::Pkcs1v15Encrypt, data)
}

/// The SHA-1 digest of `data`: the result of `sha1::Sha1`.
pub uninterp spec fn sha1_digest(data: Seq<u8>) -> Seq<u8>;

/// `sha1::Sha1`, fed with two pieces by `chain_update` and brought to its end by `finalize`. The
/// claim is that the digest is that of the two pieces in one, and is 20 bytes long.
#[verifier::external_body]
pub(crate) fn sha1_of_two(first: &[u8], second: &[u8]) -> (digest: Vec<u8>)
    ensures
        digest@ == sha1_digest(first@ + second@),
        digest@.len() == 20,
{
    let hasher = <sha1::Sha1 as sha2::Digest>::new();
    let hasher = sha2::Digest::chain_update(hasher, first);
    let hasher = sha2::Digest::chain_update(hasher, second);
    sha2::Digest::finalize(hasher).to_vec()
}

/// The number that `bytes` write, the first byte in the highest place.
pub open spec fn big_endian(bytes: Seq<u8>) -> nat
    decreases bytes.len(),
{
    if bytes.len() == 0 {
        0
    } else {
        big_endian(bytes.drop_last()) * 256 + bytes.last() as nat
    }
}

/// The number that `bytes` write in two's complement, the first byte in the highest place.
pub open spec fn signed_big_endian(bytes: Seq<u8>) -> int {
    if bytes.len() > 0 && bytes[0] >= 0x80 {
        big_endian(bytes) - vstd::arithmetic::power::pow(256, bytes.len())
    } else {
        big_endian(bytes) as int
    }
}

/// The digit that stands for `value`: `0` to `9`, then `a` to `z`.
pub open spec fn digit(value: nat) -> char {
    if value < 10 {
        ('0' as u32 + value) as char
    } else {
        ('a' as u32 + value - 10) as char
    }
}

/// The digits of `number` in the given radix, without leading zeros.
pub open spec fn digits(number: nat, radix: nat) -> Seq<char>
    decreases number,
{
    if radix < 2 || number < radix {
        seq![digit(number)]
    } else {
        proof {
            vstd::arithmetic::div_mod::lemma_div_decreases(number as int, radix as int);
        }
        digits(number / radix, radix).push(digit(number % radix))
    }
}

/// `number` in the given radix, with a minus sign where it is negative.
pub open spec fn signed_digits(number: int, radix: nat) -> Seq<char> {
    if number < 0 {
        seq!['-'] + digits(-number as nat, radix)
    } else {
        digits(number as nat, radix)
    }
}

/// `num_bigint::BigInt::from_signed_bytes_be`, and `num_bigint::BigInt::to_str_radix` on what it
/// returns: the number that the bytes write in two's complement, written out in a radix.
#[verifier::external_body]
pub(crate) fn signed_bytes_to_str_radix(bytes: &[u8], radix: u32) -> (text: String)
    requires
        2 <= radix <= 36,
    ensures
        text@ == signed_digits(signed_big_endian(bytes@), radix as nat),
{
    num_bigint::BigInt::from_signed_bytes_be(bytes).to_str_radix(radix)
}

/// `subtle::ConstantTimeEq::ct_eq` on bytes, which compares slices of one length in a time that does
/// not depend on what they hold. The claim is that it tells whether the slices are equal; the time
/// it takes is left unsaid.
#[verifier::external_body]
pub(crate) fn constant_time_eq(left: &[u8], right: &[u8]) -> (equal: bool)
    ensures
        equal == (left@ == right@),
{
    subtle::ConstantTimeEq::ct_eq(left, right).into()
}

} // verus!
