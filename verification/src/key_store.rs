//! The key pair with which the server encrypts logins.

use vstd::prelude::*;

use crate::outside::{
    encode_public_half, generate_rsa_key, rsa_decrypt, rsa_key_bits, sha1_of_two,
    signed_bytes_to_str_radix,
};

verus! {

/// The size of the server's key in bits.
pub const KEY_BITS: usize = 2048;

/// The radix of a digest as text.
pub const DIGEST_RADIX: u32 = 16;

/// Why an encrypted message of a client is turned down.
#[derive(Clone, Copy, Debug, PartialEq, Eq, Structural)]
pub enum EncryptionError {
    FailedDecrypt,
}

/// The request to a client to encrypt its connection.
pub struct CEncryptionRequest<'a> {
    pub server_id: &'a str,
    pub public_key: &'a [u8],
    pub verify_token: &'a [u8],
    pub should_authenticate: bool,
}

/// The server's RSA key pair: the private key in PKCS #8, the public key in SPKI, both in DER.
pub struct KeyStore {
    private_key: Vec<u8>,
    public_key_der: Vec<u8>,
}

impl KeyStore {
    /// The private key holds as many bits as it should, and the public key belongs to it.
    #[verifier::type_invariant]
    spec fn is_key_pair(self) -> bool {
        &&& crate::outside::private_key_bits(self.private_key@) == KEY_BITS
        &&& self.public_key_der@ == crate::outside::public_half(self.private_key@)
        &&& self.public_key_der@.len() > 0
    }

    /// The private key.
    pub closed spec fn secret(&self) -> Seq<u8> {
        self.private_key@
    }

    /// Makes a new key pair.
    pub fn new() -> (store: Self)
        ensures
            crate::outside::private_key_bits(store.secret()) == KEY_BITS,
    {
        let private_key = Self::generate_private_key();
        let public_key_der = encode_public_half(private_key.as_slice());
        KeyStore { private_key, public_key_der }
    }

    /// Makes a new private key.
    pub fn generate_private_key() -> (key: Vec<u8>)
        ensures
            crate::outside::private_key_bits(key@) == KEY_BITS,
    {
        generate_rsa_key(KEY_BITS)
    }

    /// The private key in PKCS #8.
    pub fn private_key(&self) -> (key: &[u8])
        ensures
            key@ == self.secret(),
    {
        self.private_key.as_slice()
    }

    /// The public key in SPKI.
    pub fn public_key_der(&self) -> (der: &[u8])
        ensures
            der@ == crate::outside::public_half(self.secret()),
            der@.len() > 0,
    {
        proof {
            use_type_invariant(self);
        }
        self.public_key_der.as_slice()
    }

    /// The size of the key in bits.
    pub fn key_bits(&self) -> (bits: u32)
        ensures
            bits == KEY_BITS,
            bits == crate::outside::private_key_bits(self.secret()),
    {
        proof {
            use_type_invariant(self);
        }
        rsa_key_bits(self.private_key.as_slice())
    }

    /// The request to a client to encrypt its connection with this key.
    pub fn encryption_request<'a>(
        &'a self,
        server_id: &'a str,
        verification_token: &'a [u8; 4],
        should_authenticate: bool,
    ) -> (request: CEncryptionRequest<'a>)
        ensures
            request.server_id@ == server_id@,
            request.public_key@ == crate::outside::public_half(self.secret()),
            request.verify_token@ == verification_token@,
            request.should_authenticate == should_authenticate,
    {
        CEncryptionRequest {
            server_id,
            public_key: self.public_key_der(),
            verify_token: verification_token.as_slice(),
            should_authenticate,
        }
    }

    /// Decrypts what a client encrypted with the public key. A message that comes out is the one
    /// that the client encrypted, and the error comes only where the decryption fails.
    pub fn decrypt(&self, data: &[u8]) -> (message: Result<Vec<u8>, EncryptionError>)
        ensures
            exists|decrypted: Result<Vec<u8>, rsa::Error>| #[trigger]
                can_decrypt_to(self.secret(), data@, decrypted) && message == message_of(decrypted)
                    && (decrypted is Ok ==> message is Ok && message->Ok_0@ == decrypted->Ok_0@) && (
                decrypted is Err ==> message == Err::<Vec<u8>, _>(EncryptionError::FailedDecrypt)),
            message is Ok ==> crate::outside::rsa_message(self.secret(), data@) == Some(
                message->Ok_0@,
            ),
            message is Ok ==> forall|text: Seq<u8>| #[trigger]
                crate::outside::is_encryption(
                    crate::outside::public_half(self.secret()),
                    text,
                    data@,
                ) ==> message->Ok_0@ == text,
            data@.len() != KEY_BITS / 8 ==> message == Err::<Vec<u8>, _>(
                EncryptionError::FailedDecrypt,
            ),
    {
        proof {
            use_type_invariant(self);
        }
        let decrypted = rsa_decrypt(self.private_key.as_slice(), data);
        assert(can_decrypt_to(self.secret(), data@, decrypted));
        read_decrypted(decrypted)
    }

    /// The digest of a shared secret and the public key, as the authentication service knows it: at
    /// most forty digits behind a sign.
    pub fn get_digest(&self, secret: &[u8]) -> (digest: String)
        ensures
            digest@ == digest_text(
                crate::outside::sha1_digest(
                    secret@ + crate::outside::public_half(self.secret()),
                ),
            ),
            digest@.len() <= 41,
    {
        let digest = sha1_of_two(secret, self.public_key_der());
        proof {
            crate::digest_laws::law_digest_text_is_short(digest@);
        }
        auth_digest(digest.as_slice())
    }
}

/// Whether the decryption of `data` with the private key `key` can come to `decrypted`: whether
/// `rsa_decrypt` can return it.
pub closed spec fn can_decrypt_to(
    key: Seq<u8>,
    data: Seq<u8>,
    decrypted: Result<Vec<u8>, rsa::Error>,
) -> bool {
    exists|key_bytes: &[u8], data_bytes: &[u8]|
        key_bytes@ == key && data_bytes@ == data && #[trigger] call_ensures(
            rsa_decrypt,
            (key_bytes, data_bytes),
            decrypted,
        )
}

/// What the decryption of data with a key can come to is what a call on just that key and that data
/// can return.
pub(crate) proof fn law_decryption_is_of_the_key_and_the_data(
    key: Seq<u8>,
    data: Seq<u8>,
    decrypted: Result<Vec<u8>, rsa::Error>,
)
    ensures
        can_decrypt_to(key, data, decrypted) <==> exists|key_bytes: &[u8], data_bytes: &[u8]|
            key_bytes@ == key && data_bytes@ == data && #[trigger] call_ensures(
                rsa_decrypt,
                (key_bytes, data_bytes),
                decrypted,
            ),
{
}

/// A decryption comes to no other message than the one that the data holds under the key, which is
/// the encrypted one if the data is an encryption, and data of another length than the key comes to
/// none.
pub proof fn law_decryption_gives_the_message(
    key: Seq<u8>,
    data: Seq<u8>,
    decrypted: Result<Vec<u8>, rsa::Error>,
    text: Seq<u8>,
)
    requires
        can_decrypt_to(key, data, decrypted),
    ensures
        decrypted is Ok ==> crate::outside::rsa_message(key, data) == Some(decrypted->Ok_0@),
        decrypted is Ok && crate::outside::is_encryption(
            crate::outside::public_half(key),
            text,
            data,
        ) ==> decrypted->Ok_0@ == text,
        data.len() != (crate::outside::private_key_bits(key) + 7) / 8 ==> decrypted is Err,
{
}

/// What a decryption comes to: the message, or the one error there is.
pub open spec fn message_of(decrypted: Result<Vec<u8>, rsa::Error>) -> Result<
    Vec<u8>,
    EncryptionError,
> {
    match decrypted {
        Ok(message) => Ok(message),
        Err(_) => Err(EncryptionError::FailedDecrypt),
    }
}

/// The message that came out of a decryption. Whatever went wrong is the same error, so that
/// nothing can be learned from it.
pub fn read_decrypted(decrypted: Result<Vec<u8>, rsa::Error>) -> (message: Result<
    Vec<u8>,
    EncryptionError,
>)
    ensures
        message == message_of(decrypted),
        decrypted is Ok ==> message is Ok && message->Ok_0@ == decrypted->Ok_0@,
        decrypted is Err ==> message == Err::<Vec<u8>, _>(EncryptionError::FailedDecrypt),
{
    match decrypted {
        Ok(message) => Ok(message),
        Err(_) => Err(EncryptionError::FailedDecrypt),
    }
}

/// A digest as text: the number that its bytes write in two's complement, in hexadecimal.
pub open spec fn digest_text(bytes: Seq<u8>) -> Seq<char> {
    crate::outside::signed_digits(
        crate::outside::signed_big_endian(bytes),
        DIGEST_RADIX as nat,
    )
}

/// A digest as text: the number that its bytes write in two's complement, in hexadecimal.
pub fn auth_digest(bytes: &[u8]) -> (text: String)
    ensures
        text@ == digest_text(bytes@),
{
    signed_bytes_to_str_radix(bytes, DIGEST_RADIX)
}

} // verus!
