//! What the key store gives out, and what it makes of what clients send.

use vstd::prelude::*;

use crate::key_store::{read_decrypted, CEncryptionRequest, EncryptionError, KeyStore};

verus! {

/// A message that came out of a decryption is handed on as it is, byte by byte and whatever its
/// length; the one error there is comes only from a decryption that failed.
pub proof fn law_decrypted_message_is_handed_on(
    decrypted: Result<Vec<u8>, rsa::Error>,
    message: Result<Vec<u8>, EncryptionError>,
)
    requires
        call_ensures(read_decrypted, (decrypted,), message),
    ensures
        message is Ok <==> decrypted is Ok,
        decrypted is Ok ==> message->Ok_0@.len() == decrypted->Ok_0@.len() && forall|i: int|
            0 <= i < decrypted->Ok_0@.len() ==> message->Ok_0@[i] == decrypted->Ok_0@[i],
        decrypted is Err ==> message->Err_0 == EncryptionError::FailedDecrypt,
{
}

/// A decryption comes to a message if and only if it came out of it, and to that message.
pub proof fn law_decryption_comes_to_its_message(decrypted: Result<Vec<u8>, rsa::Error>)
    ensures
        crate::key_store::message_of(decrypted) is Ok <==> decrypted is Ok,
        decrypted is Ok ==> crate::key_store::message_of(decrypted)->Ok_0@ == decrypted->Ok_0@,
        decrypted is Err ==> crate::key_store::message_of(decrypted)->Err_0
            == EncryptionError::FailedDecrypt,
{
}

/// What the store decrypts comes to what a decryption with its private key can come to: to its
/// message where there is one, whatever its length, and to the error only where it failed. The
/// message is the one that was encrypted with the store's public key.
pub proof fn law_store_decrypts_with_its_key(
    store: KeyStore,
    private_key: &[u8],
    public_key: &[u8],
    data: &[u8],
    message: Result<Vec<u8>, EncryptionError>,
    text: Seq<u8>,
)
    requires
        call_ensures(KeyStore::private_key, (&store,), private_key),
        call_ensures(KeyStore::public_key_der, (&store,), public_key),
        call_ensures(KeyStore::decrypt, (&store, data), message),
    ensures
        exists|decrypted: Result<Vec<u8>, rsa::Error>| #[trigger]
            crate::key_store::can_decrypt_to(private_key@, data@, decrypted) && {
                &&& message is Ok <==> decrypted is Ok
                &&& decrypted is Ok ==> message->Ok_0@ == decrypted->Ok_0@
            },
        message is Ok ==> crate::outside::rsa_message(private_key@, data@) == Some(
            message->Ok_0@,
        ),
        message is Ok && crate::outside::is_encryption(public_key@, text, data@)
            ==> message->Ok_0@ == text,
        data@.len() != 256 ==> message is Err,
        message is Err ==> message->Err_0 == EncryptionError::FailedDecrypt,
{
}

/// The keys of a new store have 2048 bits, and its public key belongs to its private key and is not
/// empty.
pub proof fn law_new_store_has_a_key_pair(
    store: KeyStore,
    generated: Vec<u8>,
    private_key: &[u8],
    public_key: &[u8],
    bits: u32,
)
    requires
        call_ensures(KeyStore::new, (), store),
        call_ensures(KeyStore::generate_private_key, (), generated),
        call_ensures(KeyStore::private_key, (&store,), private_key),
        call_ensures(KeyStore::public_key_der, (&store,), public_key),
        call_ensures(KeyStore::key_bits, (&store,), bits),
    ensures
        bits == 2048,
        crate::outside::private_key_bits(private_key@) == 2048,
        crate::outside::private_key_bits(generated@) == 2048,
        public_key@ == crate::outside::public_half(private_key@),
        public_key@.len() > 0,
{
}

/// The request to encrypt a connection has what was given for it and the store's public key.
pub proof fn law_request_has_the_public_key(
    store: KeyStore,
    public_key: &[u8],
    server_id: &str,
    verification_token: &[u8; 4],
    should_authenticate: bool,
    request: CEncryptionRequest<'static>,
)
    requires
        call_ensures(KeyStore::public_key_der, (&store,), public_key),
        call_ensures(
            KeyStore::encryption_request,
            (&store, server_id, verification_token, should_authenticate),
            request,
        ),
    ensures
        request.server_id@ == server_id@,
        request.public_key@ == public_key@,
        request.verify_token@ == verification_token@,
        request.should_authenticate == should_authenticate,
{
}

} // verus!
