//! What holds of digests as text.

use vstd::arithmetic::power::*;
use vstd::prelude::*;

use crate::key_store::{auth_digest, KeyStore, DIGEST_RADIX};

verus! {

/// Bytes write a number below the power of 256 of their length.
proof fn lemma_big_endian_bound(bytes: Seq<u8>)
    ensures
        crate::outside::big_endian(bytes) < pow(256, bytes.len()),
    decreases bytes.len(),
{
    reveal(pow);
    if bytes.len() > 0 {
        lemma_big_endian_bound(bytes.drop_last());
    }
}

/// Each digit in the radix of digests is one of sixteen characters, none of which is a minus sign.
proof fn lemma_digits_are_hex(number: nat)
    ensures
        crate::outside::digits(number, DIGEST_RADIX as nat).len() > 0,
        forall|i: int|
            0 <= i < crate::outside::digits(number, DIGEST_RADIX as nat).len() ==> is_hex_digit(
                #[trigger] crate::outside::digits(number, DIGEST_RADIX as nat)[i],
            ),
    decreases number,
{
    if number >= DIGEST_RADIX {
        lemma_digits_are_hex(number / DIGEST_RADIX as nat);
    }
}

/// Whether `c` is a hexadecimal digit in lower case.
pub open spec fn is_hex_digit(c: char) -> bool {
    '0' <= c <= '9' || 'a' <= c <= 'f'
}

/// Different digits stand for different values.
proof fn lemma_digit_is_injective(left: nat, right: nat)
    requires
        left < DIGEST_RADIX,
        right < DIGEST_RADIX,
        crate::outside::digit(left) == crate::outside::digit(right),
    ensures
        left == right,
{
}

/// Different numbers have different digits.
proof fn lemma_digits_are_injective(left: nat, right: nat)
    requires
        crate::outside::digits(left, DIGEST_RADIX as nat) == crate::outside::digits(
            right,
            DIGEST_RADIX as nat,
        ),
    ensures
        left == right,
    decreases left,
{
    let radix = DIGEST_RADIX as nat;
    let left_digits = crate::outside::digits(left, radix);
    let right_digits = crate::outside::digits(right, radix);
    lemma_digits_are_hex(left / radix);
    lemma_digits_are_hex(right / radix);
    assert(left_digits.last() == crate::outside::digit(left % radix));
    assert(right_digits.last() == crate::outside::digit(right % radix));
    lemma_digit_is_injective(left % radix, right % radix);
    if left >= radix {
        assert(left_digits.drop_last() =~= crate::outside::digits(left / radix, radix));
        assert(right_digits.drop_last() =~= crate::outside::digits(right / radix, radix));
        lemma_digits_are_injective(left / radix, right / radix);
    }
}

/// Different bytes of one length write different numbers.
proof fn lemma_big_endian_is_injective(left: Seq<u8>, right: Seq<u8>)
    requires
        left.len() == right.len(),
        crate::outside::big_endian(left) == crate::outside::big_endian(right),
    ensures
        left == right,
    decreases left.len(),
{
    if left.len() > 0 {
        lemma_big_endian_is_injective(left.drop_last(), right.drop_last());
        assert(left =~= left.drop_last().push(left.last()));
        assert(right =~= right.drop_last().push(right.last()));
    } else {
        assert(left =~= right);
    }
}

/// The text of a digest is hexadecimal digits, behind a minus sign if and only if the first bit of
/// the digest is set.
pub proof fn law_digest_text_is_signed_hex(bytes: Seq<u8>)
    ensures
        ({
            let text = crate::key_store::digest_text(bytes);
            let negative = bytes.len() > 0 && bytes[0] >= 0x80;
            let start: int = if negative {
                1
            } else {
                0
            };
            &&& text.len() > start
            &&& text[0] == '-' <==> negative
            &&& forall|i: int| start <= i < text.len() ==> is_hex_digit(#[trigger] text[i])
        }),
{
    let number = crate::outside::signed_big_endian(bytes);
    lemma_big_endian_bound(bytes);
    let magnitude = if number < 0 {
        -number
    } else {
        number
    };
    lemma_digits_are_hex(magnitude as nat);
    assert(number < 0 <==> bytes.len() > 0 && bytes[0] >= 0x80);
}

/// The digits of a number do not begin with a zero, unless the number is zero.
proof fn lemma_no_leading_zero(number: nat)
    requires
        number > 0,
    ensures
        crate::outside::digits(number, DIGEST_RADIX as nat).len() > 0,
        crate::outside::digits(number, DIGEST_RADIX as nat)[0] != '0',
    decreases number,
{
    if number >= DIGEST_RADIX {
        lemma_no_leading_zero(number / DIGEST_RADIX as nat);
    }
}

/// The text of a digest has no leading zeros: its first digit is a zero only where the digest is the
/// number zero.
pub proof fn law_digest_text_has_no_leading_zero(bytes: Seq<u8>)
    requires
        crate::outside::signed_big_endian(bytes) != 0,
    ensures
        ({
            let text = crate::key_store::digest_text(bytes);
            &&& text[0] != '0'
            &&& text[0] == '-' ==> text.len() > 1 && text[1] != '0'
        }),
{
    let number = crate::outside::signed_big_endian(bytes);
    if number < 0 {
        lemma_no_leading_zero(-number as nat);
    } else {
        lemma_no_leading_zero(number as nat);
        lemma_digits_are_hex(number as nat);
    }
}

/// Two digests, whatever their lengths, have the same text only if they write the same number.
pub proof fn law_digest_text_tells_numbers_apart(left: Seq<u8>, right: Seq<u8>)
    requires
        crate::key_store::digest_text(left) == crate::key_store::digest_text(right),
    ensures
        crate::outside::signed_big_endian(left) == crate::outside::signed_big_endian(right),
{
    law_digest_text_is_signed_hex(left);
    law_digest_text_is_signed_hex(right);
    let radix = DIGEST_RADIX as nat;
    let left_number = crate::outside::signed_big_endian(left);
    let right_number = crate::outside::signed_big_endian(right);
    lemma_big_endian_bound(left);
    lemma_big_endian_bound(right);
    if left_number < 0 {
        let text = crate::key_store::digest_text(left);
        assert(text.skip(1) =~= crate::outside::digits(-left_number as nat, radix));
        assert(text.skip(1) =~= crate::outside::digits(-right_number as nat, radix));
        lemma_digits_are_injective(-left_number as nat, -right_number as nat);
    } else {
        lemma_digits_are_injective(left_number as nat, right_number as nat);
    }
}

/// Two digests of one length have the same text only if they are the same digest.
pub proof fn law_digest_text_tells_digests_apart(left: Seq<u8>, right: Seq<u8>)
    requires
        left.len() == right.len(),
        crate::key_store::digest_text(left) == crate::key_store::digest_text(right),
    ensures
        left == right,
{
    law_digest_text_is_signed_hex(left);
    law_digest_text_is_signed_hex(right);
    law_digest_text_tells_numbers_apart(left, right);
    lemma_big_endian_is_injective(left, right);
}

/// A number below a power of 256 has at most two hexadecimal digits for each of its bytes.
proof fn lemma_digits_are_few(number: nat, bytes: nat)
    requires
        bytes > 0,
        number < pow(256, bytes),
    ensures
        crate::outside::digits(number, DIGEST_RADIX as nat).len() <= 2 * bytes,
    decreases bytes,
{
    let radix = DIGEST_RADIX as nat;
    reveal(pow);
    reveal_with_fuel(crate::outside::digits, 3);
    if bytes > 1 && number >= 256 {
        assert(number / radix / radix == number / 256);
        assert(number / 256 < pow(256, (bytes - 1) as nat));
        lemma_digits_are_few(number / 256, (bytes - 1) as nat);
    } else {
        assert(pow(256, 0) == 1);
        assert(bytes == 1 ==> pow(256, 1) == 256);
    }
}

/// The text of a digest has at most two characters for each byte, and one more.
pub proof fn law_digest_text_is_short(bytes: Seq<u8>)
    ensures
        crate::key_store::digest_text(bytes).len() <= 2 * bytes.len() + 1,
{
    let number = crate::outside::signed_big_endian(bytes);
    lemma_big_endian_bound(bytes);
    if bytes.len() > 0 {
        let magnitude = if number < 0 {
            -number
        } else {
            number
        };
        if number < 0 {
            lemma_big_endian_is_positive(bytes);
        }
        lemma_digits_are_few(magnitude as nat, bytes.len());
    } else {
        assert(number == 0);
    }
}

/// Bytes the first of which is not zero write a number other than zero.
proof fn lemma_big_endian_is_positive(bytes: Seq<u8>)
    requires
        bytes.len() > 0,
        bytes[0] > 0,
    ensures
        crate::outside::big_endian(bytes) > 0,
    decreases bytes.len(),
{
    if bytes.len() > 1 {
        lemma_big_endian_is_positive(bytes.drop_last());
    }
}

/// The number that `bytes` write, the first byte in the highest place.
pub open spec fn number_of(bytes: Seq<u8>) -> int
    decreases bytes.len(),
{
    if bytes.len() == 0 {
        0
    } else {
        bytes[0] * pow(256, (bytes.len() - 1) as nat) + number_of(bytes.skip(1))
    }
}

/// The number that `bytes` write in two's complement: the one that they write, and where their
/// first bit is set, that less the power of 256 of their length.
pub open spec fn signed_number_of(bytes: Seq<u8>) -> int {
    if bytes.len() > 0 && bytes[0] >= 128 {
        number_of(bytes) - pow(256, bytes.len())
    } else {
        number_of(bytes)
    }
}

/// The value of a hexadecimal digit in lower case.
pub open spec fn digit_value(c: char) -> int {
    if '0' <= c <= '9' {
        c as int - '0' as int
    } else {
        c as int - 'a' as int + 10
    }
}

/// The number that `text` writes in hexadecimal.
pub open spec fn hex_value(text: Seq<char>) -> int
    decreases text.len(),
{
    if text.len() == 0 {
        0
    } else {
        hex_value(text.drop_last()) * 16 + digit_value(text.last())
    }
}

/// The number that `text` writes in hexadecimal, behind a minus sign where it has one.
pub open spec fn signed_hex_value(text: Seq<char>) -> int {
    if text.len() > 0 && text[0] == '-' {
        -hex_value(text.skip(1))
    } else {
        hex_value(text)
    }
}

/// Both ways of reading bytes as a number give the same number.
proof fn lemma_number_is_big_endian(bytes: Seq<u8>)
    ensures
        number_of(bytes) == crate::outside::big_endian(bytes),
    decreases bytes.len(),
{
    if bytes.len() > 0 {
        lemma_number_is_big_endian(bytes.skip(1));
        lemma_first_byte_is_highest(bytes);
    }
}

/// The first byte counts for itself times the power of 256 of what comes after it.
proof fn lemma_first_byte_is_highest(bytes: Seq<u8>)
    requires
        bytes.len() > 0,
    ensures
        crate::outside::big_endian(bytes) == bytes[0] * pow(256, (bytes.len() - 1) as nat)
            + crate::outside::big_endian(bytes.skip(1)),
    decreases bytes.len(),
{
    reveal(pow);
    if bytes.len() == 1 {
        assert(bytes.skip(1) =~= Seq::<u8>::empty());
        assert(bytes.drop_last() =~= Seq::<u8>::empty());
    } else {
        let front = bytes.drop_last();
        lemma_first_byte_is_highest(front);
        assert(front.skip(1) =~= bytes.skip(1).drop_last());
        let power = pow(256, (front.len() - 1) as nat);
        let first = bytes[0] as int;
        assert(first * power * 256 == first * (256 * power)) by (nonlinear_arith);
    }
}

/// The digits of a number write that number.
proof fn lemma_digits_write_the_number(number: nat)
    ensures
        hex_value(crate::outside::digits(number, DIGEST_RADIX as nat)) == number,
    decreases number,
{
    let radix = DIGEST_RADIX as nat;
    let text = crate::outside::digits(number, radix);
    assert(digit_value(crate::outside::digit(number % radix)) == number % radix);
    if number < radix {
        assert(text.drop_last() =~= Seq::<char>::empty());
        assert(hex_value(text.drop_last()) == 0);
        assert(number % radix == number);
    } else {
        lemma_digits_write_the_number(number / radix);
        assert(text.drop_last() =~= crate::outside::digits(number / radix, radix));
    }
    assert(text.last() == crate::outside::digit(number % radix));
}

/// The text of a digest writes, in hexadecimal and with a sign, the number that its bytes write in
/// two's complement.
pub proof fn law_digest_text_writes_its_number(bytes: Seq<u8>)
    ensures
        signed_hex_value(crate::key_store::digest_text(bytes)) == signed_number_of(bytes),
{
    let number = crate::outside::signed_big_endian(bytes);
    let text = crate::key_store::digest_text(bytes);
    lemma_number_is_big_endian(bytes);
    law_digest_text_is_signed_hex(bytes);
    lemma_big_endian_bound(bytes);
    if number < 0 {
        lemma_digits_write_the_number(-number as nat);
        assert(text.skip(1) =~= crate::outside::digits(-number as nat, DIGEST_RADIX as nat));
    } else {
        lemma_digits_write_the_number(number as nat);
    }
}

/// What `auth_digest` returns for bytes is the one text in hexadecimal digits of lower case, behind
/// a minus sign where the number is negative and without leading zeros, that writes the number of
/// the bytes in two's complement.
pub proof fn law_auth_digest_writes_its_number(bytes: &[u8], text: String)
    requires
        call_ensures(auth_digest, (bytes,), text),
    ensures
        signed_hex_value(text@) == signed_number_of(bytes@),
        text@.len() > 0,
        text@[0] == '-' <==> signed_number_of(bytes@) < 0,
        forall|i: int| 1 <= i < text@.len() ==> is_hex_digit(#[trigger] text@[i]),
        text@[0] != '-' ==> is_hex_digit(text@[0]),
        signed_number_of(bytes@) != 0 ==> text@[0] != '0' && (text@[0] == '-' ==> text@.len() > 1
            && text@[1] != '0'),
        signed_number_of(bytes@) == 0 ==> text@ == seq!['0'],
        text@.len() <= 2 * bytes@.len() + 1,
{
    law_digest_text_writes_its_number(bytes@);
    law_digest_text_is_signed_hex(bytes@);
    law_digest_text_is_short(bytes@);
    lemma_number_is_big_endian(bytes@);
    lemma_big_endian_bound(bytes@);
    if signed_number_of(bytes@) != 0 {
        law_digest_text_has_no_leading_zero(bytes@);
    }
}

/// The digest of a secret is the text of the SHA-1 of the secret with the public key behind it; two
/// stores with the same public key give the same digest for the same secret.
pub proof fn law_digest_is_of_secret_and_public_key(
    store: KeyStore,
    other: KeyStore,
    secret: &[u8],
    public_key: &[u8],
    digest: String,
    other_digest: String,
)
    requires
        call_ensures(KeyStore::public_key_der, (&store,), public_key),
        call_ensures(KeyStore::public_key_der, (&other,), public_key),
        call_ensures(KeyStore::get_digest, (&store, secret), digest),
        call_ensures(KeyStore::get_digest, (&other, secret), other_digest),
    ensures
        signed_hex_value(digest@) == signed_number_of(
            crate::outside::sha1_digest(secret@ + public_key@),
        ),
        digest@.len() <= 41,
        digest@ == other_digest@,
{
    law_digest_text_writes_its_number(crate::outside::sha1_digest(secret@ + public_key@));
}

} // verus!
