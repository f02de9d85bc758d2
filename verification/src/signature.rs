use vstd::prelude::*;
use vstd::slice::slice_subrange;
use vstd::string::StringSliceAdditionalSpecFns;
use hmac::Mac;

verus! {

/// Whether the byte `c` is a hexadecimal digit, in either case.
pub open spec fn is_hex_digit(c: u8) -> bool {
    (0x30 <= c && c <= 0x39) || (0x61 <= c && c <= 0x66) || (0x41 <= c && c <= 0x46)
}

/// Value of the hexadecimal digit `c`; 0 where `c` is no such digit.
pub open spec fn hex_digit(c: u8) -> u8 {
    if 0x30 <= c && c <= 0x39 {
        (c - 0x30) as u8
    } else if 0x61 <= c && c <= 0x66 {
        (c - 0x57) as u8
    } else if 0x41 <= c && c <= 0x46 {
        (c - 0x37) as u8
    } else {
        0
    }
}

/// Whether `text` spells whole bytes in hexadecimal: an even number of
/// hexadecimal digits.
pub open spec fn is_hex_text(text: Seq<u8>) -> bool {
    &&& text.len() % 2 == 0
    &&& forall|i: int| 0 <= i < text.len() ==> is_hex_digit(#[trigger] text[i])
}

/// Bytes that a hexadecimal `text` spells, two digits to the byte, the high
/// digit first.
pub open spec fn hex_bytes(text: Seq<u8>) -> Seq<u8> {
    Seq::new(
        text.len() / 2,
        |i: int| (16 * hex_digit(text[2 * i]) + hex_digit(text[2 * i + 1])) as u8,
    )
}

/// Bytes that `text` spells in hexadecimal, and `None` where it spells none.
pub open spec fn hex_decoded(text: Seq<u8>) -> Option<Seq<u8>> {
    if is_hex_text(text) {
        Some(hex_bytes(text))
    } else {
        None
    }
}

/// Lower-case hexadecimal digit of a value below 16.
pub open spec fn hex_char(value: u8) -> u8 {
    if value < 10 {
        (0x30 + value) as u8
    } else {
        (0x57 + value) as u8
    }
}

/// Lower-case hexadecimal spelling of `bytes`, two digits to the byte.
pub open spec fn hex_text(bytes: Seq<u8>) -> Seq<u8> {
    Seq::new(
        2 * bytes.len(),
        |i: int| if i % 2 == 0 { hex_char(bytes[i / 2] / 16) } else { hex_char(bytes[i / 2] % 16) },
    )
}

/// The bytes `sha256=`, which open every signature header.
pub open spec fn signature_prefix() -> Seq<u8> {
    seq![0x73u8, 0x68u8, 0x61u8, 0x32u8, 0x35u8, 0x36u8, 0x3du8]
}

/// Digest that a signature header carries: the bytes spelled in hexadecimal
/// behind the prefix `sha256=`. `None` where the prefix is missing or what
/// follows it is no hexadecimal text.
pub open spec fn signature_digest(signature: Seq<u8>) -> Option<Seq<u8>> {
    if signature.len() >= 7 && signature.subrange(0, 7) == signature_prefix() {
        hex_decoded(signature.subrange(7, signature.len() as int))
    } else {
        None
    }
}

/// Whether a signature header carries exactly `digest`.
pub open spec fn signature_accepts(signature: Seq<u8>, digest: Seq<u8>) -> bool {
    signature_digest(signature) == Some(digest)
}

/// The HMAC-SHA256 authentication code of `message` under `key`, as the
/// crates `hmac` and `sha2` compute it.
pub uninterp spec fn hmac_sha256(key: Seq<u8>, message: Seq<u8>) -> Seq<u8>;

/// Whether `signature` authenticates `body` under `secret`: it carries the
/// authentication code of `body` keyed by `secret`.
pub open spec fn signature_valid(secret: Seq<u8>, signature: Seq<u8>, body: Seq<u8>) -> bool {
    signature_accepts(signature, hmac_sha256(secret, body))
}

/// Signature header that a sender holding `secret` attaches to `body`.
pub open spec fn expected_signature(secret: Seq<u8>, body: Seq<u8>) -> Seq<u8> {
    signature_prefix() + hex_text(hmac_sha256(secret, body))
}

/// `byte` with the bit of weight `2^bit` inverted.
pub open spec fn flip_bit(byte: u8, bit: u8) -> u8 {
    byte ^ (1u8 << bit)
}

/// `hex::FromHexError`, the error of `hex::decode`; nothing is read from it.
#[verifier::external_type_specification]
#[verifier::external_body]
pub struct ExFromHexError(hex::FromHexError);

/// `hmac::digest::InvalidLength`, the error of `Mac::new_from_slice`; nothing
/// is read from it.
#[verifier::external_type_specification]
#[verifier::external_body]
pub struct ExInvalidLength(hmac::digest::InvalidLength);

/// Calls `hex::decode`. Believed of it: it succeeds exactly on an even
/// number of hexadecimal digits, of either case and mixed at will, and then
/// returns the bytes they spell, two digits to the byte with the high digit
/// first; on anything else it returns an error.
#[verifier::external_body]
fn decode_hex(text: &[u8]) -> (decoded: Result<Vec<u8>, hex::FromHexError>)
    ensures
        decoded is Ok == is_hex_text(text@),
        decoded matches Ok(bytes) ==> bytes@ == hex_bytes(text@),
{
    hex::decode(text)
}

/// Computes a code with `hmac::Hmac<sha2::Sha256>`: `Mac::new_from_slice`
/// with `key`, `Mac::update` with `message`, `Mac::finalize`. Believed of
/// them: the keying takes a key of any length, so the result is `Ok`, and
/// the bytes that come out are the HMAC-SHA256 authentication code of
/// `message` under `key`, a function of the two alone.
#[verifier::external_body]
fn authentication_code(key: &[u8], message: &[u8]) -> (code: Result<Vec<u8>, hmac::digest::InvalidLength>)
    ensures
        code is Ok,
        code matches Ok(bytes) ==> bytes@ == hmac_sha256(key@, message@),
{
    let mut mac = hmac::Hmac::<sha2::Sha256>::new_from_slice(key)?;
    mac.update(message);
    Ok(mac.finalize().into_bytes().to_vec())
}

/// Whether two byte strings are equal. Strings of one length are compared to
/// the end whatever they hold, so the time taken tells nothing of where they
/// differ.
pub fn constant_time_eq(left: &[u8], right: &[u8]) -> (equal: bool)
    ensures
        equal == (left@ == right@),
{
    if left.len() != right.len() {
        return false;
    }
    let mut difference: u8 = 0;
    let mut index: usize = 0;
    while index < left.len()
        invariant
            left@.len() == right@.len(),
            index <= left@.len(),
            difference == 0 <==> forall|k: int| 0 <= k < index ==> left@[k] == right@[k],
        decreases left@.len() - index,
    {
        let a = left[index];
        let b = right[index];
        let ghost before = difference;
        difference = difference | (a ^ b);
        assert((before | (a ^ b)) == 0 <==> (before == 0 && a == b)) by (bit_vector);
        index += 1;
    }
    proof {
        if difference == 0 {
            assert(left@ =~= right@);
        }
    }
    difference == 0
}

/// Whether `signature` opens with the prefix `sha256=`.
fn has_signature_prefix(signature: &[u8]) -> (found: bool)
    ensures
        found == (signature@.len() >= 7 && signature@.subrange(0, 7) == signature_prefix()),
{
    if signature.len() < 7 {
        return false;
    }
    let found = signature[0] == 0x73 && signature[1] == 0x68 && signature[2] == 0x61
        && signature[3] == 0x32 && signature[4] == 0x35 && signature[5] == 0x36
        && signature[6] == 0x3d;
    proof {
        let head = signature@.subrange(0, 7);
        if found {
            assert(head =~= signature_prefix());
        } else {
            assert(head[0] == signature@[0] && head[1] == signature@[1] && head[2] == signature@[2]
                && head[3] == signature@[3] && head[4] == signature@[4] && head[5] == signature@[5]
                && head[6] == signature@[6]);
        }
    }
    found
}

/// Whether the signature header `signature` carries exactly `digest`.
pub fn digest_matches(signature: &[u8], digest: &[u8]) -> (accepted: bool)
    ensures
        accepted == signature_accepts(signature@, digest@),
{
    if !has_signature_prefix(signature) {
        return false;
    }
    let spelled = slice_subrange(signature, 7, signature.len());
    match decode_hex(spelled) {
        Ok(carried) => constant_time_eq(carried.as_slice(), digest),
        Err(_) => false,
    }
}

/// Whether the signature header `signature` authenticates `body` under the
/// shared `secret`. A header without the prefix, or with anything but
/// hexadecimal digits behind it, authenticates nothing.
pub fn check_signature(secret: &str, signature: &[u8], body: &[u8]) -> (valid: bool)
    ensures
        valid == signature_valid(secret.spec_bytes(), signature@, body@),
{
    match authentication_code(secret.as_bytes(), body) {
        Ok(code) => digest_matches(signature, code.as_slice()),
        Err(_) => false,
    }
}

/// A lower-case digit is read back as the value it was written for.
proof fn lemma_hex_char_decodes(value: u8)
    by (bit_vector)
    requires
        value < 16,
    ensures
        is_hex_digit(hex_char(value)),
        hex_digit(hex_char(value)) == value,
        (0x30 <= hex_char(value) && hex_char(value) <= 0x39) || (0x61 <= hex_char(value)
            && hex_char(value) <= 0x66),
{
}

/// Inverting one bit of a byte changes the byte.
proof fn lemma_flip_changes(byte: u8, bit: u8)
    by (bit_vector)
    requires
        bit < 8,
    ensures
        flip_bit(byte, bit) != byte,
{
}

/// Inverting one bit of a lower-case hexadecimal digit gives a byte that is
/// no hexadecimal digit or a digit of another value, unless the bit is the
/// one that tells the two cases of a letter apart.
proof fn lemma_flipped_digit(c: u8, bit: u8)
    by (bit_vector)
    requires
        bit < 8,
        (0x30 <= c && c <= 0x39) || (0x61 <= c && c <= 0x66),
        !(0x61 <= c && c <= 0x66 && bit == 5),
    ensures
        !is_hex_digit(flip_bit(c, bit)) || hex_digit(flip_bit(c, bit)) != hex_digit(c),
{
}

/// The value of a hexadecimal digit is below 16.
proof fn lemma_hex_digit_bound(c: u8)
    by (bit_vector)
    ensures
        hex_digit(c) < 16,
{
}

/// Decoding undoes encoding: the lower-case spelling of any bytes is
/// hexadecimal text that spells those bytes.
pub proof fn lemma_hex_round_trip(bytes: Seq<u8>)
    ensures
        is_hex_text(hex_text(bytes)),
        hex_decoded(hex_text(bytes)) == Some(bytes),
{
    let text = hex_text(bytes);
    assert forall|i: int| 0 <= i < text.len() implies is_hex_digit(#[trigger] text[i]) by {
        lemma_hex_char_decodes(bytes[i / 2] / 16);
        lemma_hex_char_decodes(bytes[i / 2] % 16);
    }
    assert forall|i: int| 0 <= i < bytes.len() implies hex_bytes(text)[i] == bytes[i] by {
        lemma_hex_char_decodes(bytes[i] / 16);
        lemma_hex_char_decodes(bytes[i] % 16);
        assert((2 * i) / 2 == i && (2 * i + 1) / 2 == i);
        assert(text[2 * i] == hex_char(bytes[i] / 16));
        assert(text[2 * i + 1] == hex_char(bytes[i] % 16));
    }
    assert(hex_bytes(text) =~= bytes);
}

/// What lies behind the prefix of an expected signature is the spelling of
/// the authentication code.
proof fn lemma_expected_signature_parts(secret: Seq<u8>, body: Seq<u8>)
    ensures
        expected_signature(secret, body).len() == 7 + 2 * hmac_sha256(secret, body).len(),
        expected_signature(secret, body).subrange(0, 7) == signature_prefix(),
        expected_signature(secret, body).subrange(7, expected_signature(secret, body).len() as int)
            == hex_text(hmac_sha256(secret, body)),
        signature_digest(expected_signature(secret, body)) == Some(hmac_sha256(secret, body)),
{
    let signature = expected_signature(secret, body);
    assert(signature.subrange(0, 7) =~= signature_prefix());
    assert(signature.subrange(7, signature.len() as int) =~= hex_text(hmac_sha256(secret, body)));
    lemma_hex_round_trip(hmac_sha256(secret, body));
}

/// The signature that a sender holding the secret attaches to a body
/// authenticates that body under that secret.
pub proof fn lemma_signature_verifies(secret: Seq<u8>, body: Seq<u8>)
    ensures
        signature_valid(secret, expected_signature(secret, body), body),
{
    lemma_expected_signature_parts(secret, body);
}

/// The signature made for one body authenticates another body exactly when
/// the two bodies have the same authentication code under the secret.
pub proof fn lemma_signature_binds_code(secret: Seq<u8>, body: Seq<u8>, other: Seq<u8>)
    ensures
        signature_valid(secret, expected_signature(secret, body), other) == (hmac_sha256(
            secret,
            other,
        ) == hmac_sha256(secret, body)),
{
    lemma_expected_signature_parts(secret, body);
}

/// Whether inverting bit `bit` of byte `index` of `signature` only turns a
/// lower-case hexadecimal letter behind the prefix into its upper-case form,
/// which spells the same digit.
pub open spec fn changes_letter_case(signature: Seq<u8>, index: int, bit: u8) -> bool {
    index >= 7 && 0x61 <= signature[index] && signature[index] <= 0x66 && bit == 5
}

/// A signature with one bit inverted no longer authenticates the body it was
/// made for, wherever the bit lies, unless the change only turns a
/// hexadecimal letter into its other case.
pub proof fn lemma_altered_signature_is_rejected(
    secret: Seq<u8>,
    body: Seq<u8>,
    index: int,
    bit: u8,
)
    requires
        0 <= index < expected_signature(secret, body).len(),
        bit < 8,
        !changes_letter_case(expected_signature(secret, body), index, bit),
    ensures
        !signature_valid(
            secret,
            expected_signature(secret, body).update(
                index,
                flip_bit(expected_signature(secret, body)[index], bit),
            ),
            body,
        ),
{
    let code = hmac_sha256(secret, body);
    let signature = expected_signature(secret, body);
    let flipped = flip_bit(signature[index], bit);
    let altered = signature.update(index, flipped);
    lemma_expected_signature_parts(secret, body);
    lemma_flip_changes(signature[index], bit);
    if index < 7 {
        assert(altered.subrange(0, 7)[index] == flipped);
        assert(signature.subrange(0, 7)[index] == signature[index]);
    } else {
        let text = hex_text(code);
        let tail = altered.subrange(7, altered.len() as int);
        let at = index - 7;
        let byte = at / 2;
        assert(altered.subrange(0, 7) =~= signature.subrange(0, 7));
        assert(tail =~= text.update(at, flipped));
        assert(text[at] == signature[index]);
        lemma_hex_round_trip(code);
        lemma_hex_char_decodes(code[byte] / 16);
        lemma_hex_char_decodes(code[byte] % 16);
        lemma_flipped_digit(text[at], bit);
        if is_hex_text(tail) {
            assert(is_hex_digit(tail[at]));
            lemma_hex_digit_bound(tail[2 * byte]);
            lemma_hex_digit_bound(tail[2 * byte + 1]);
            lemma_hex_digit_bound(text[2 * byte]);
            lemma_hex_digit_bound(text[2 * byte + 1]);
            assert(hex_bytes(text)[byte] == code[byte]);
            assert(hex_bytes(tail)[byte] != hex_bytes(text)[byte]);
        }
    }
}

} // verus!
