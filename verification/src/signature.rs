//! Verification of the signature that the platform puts on each webhook
//! request: an HMAC-SHA256 of the raw request body under the secret shared
//! with the platform, sent as `sha256=` followed by the tag in lower-case
//! hexadecimal.

use orion::hazardous::mac::hmac::sha256::{HmacSha256, SecretKey};
use vstd::prelude::*;
use vstd::slice::slice_to_vec;
use vstd::string::StringSliceAdditionalSpecFns;

verus! {

/// The HMAC-SHA256 tag of `message` under `key`, as RFC 2104 defines it over
/// SHA-256. Keys of any length count: a key longer than a block is hashed
/// first, a shorter one is padded with zeros.
pub uninterp spec fn hmac_sha256(key: Seq<u8>, message: Seq<u8>) -> Seq<u8>;

/// Longest key, in bytes, that a tag can be computed under. SHA-256 counts
/// the bits of its input in 64 bits.
pub const MAX_KEY_LEN: u64 = 0x1fff_ffff_ffff_ffff;

/// Longest message, in bytes, that a tag can be computed of: the key's block
/// is hashed in front of the message.
pub const MAX_MESSAGE_LEN: u64 = 0x1fff_ffff_ffff_ffbf;

/// Length of a tag in bytes.
pub const TAG_LEN: usize = 32;

/// Computes a tag with orion: `SecretKey::from_slice` makes the key, which
/// hashes or pads it to one block, and `HmacSha256::hmac` computes the tag of
/// `message` under it in one call. Within the two length limits neither of
/// them fails, and the tag is the 32 bytes that `hmac_sha256` names.
#[verifier::external_body]
fn hmac_sha256_tag(key: &[u8], message: &[u8]) -> (tag: Option<Vec<u8>>)
    requires
        key@.len() <= MAX_KEY_LEN,
        message@.len() <= MAX_MESSAGE_LEN,
    ensures
        tag is Some,
        tag.unwrap()@ == hmac_sha256(key@, message@),
        tag.unwrap()@.len() == TAG_LEN,
{
    let secret_key = SecretKey::from_slice(key).ok()?;
    let tag = HmacSha256::hmac(&secret_key, message).ok()?;
    Some(tag.unprotected_as_bytes().to_vec())
}

/// Compares two byte strings with orion's `util::secure_cmp`, which reports
/// equality and takes the same time wherever two strings of one length differ.
#[verifier::external_body]
fn constant_time_eq(a: &[u8], b: &[u8]) -> (equal: bool)
    ensures
        equal == (a@ == b@),
{
    orion::util::secure_cmp(a, b).is_ok()
}

/// The lower-case hexadecimal digit of a value below 16, as an ASCII byte.
pub open spec fn hex_digit(nibble: int) -> u8 {
    if nibble < 10 {
        (0x30 + nibble) as u8
    } else {
        (0x57 + nibble) as u8
    }
}

/// The digit at place `index` of the hexadecimal text of `bytes`: two digits
/// stand for each byte, the higher half first.
pub open spec fn hex_digit_at(bytes: Seq<u8>, index: int) -> u8 {
    if index % 2 == 0 {
        hex_digit(bytes[index / 2] as int / 16)
    } else {
        hex_digit(bytes[index / 2] as int % 16)
    }
}

/// The lower-case hexadecimal text of `bytes`, in ASCII.
pub open spec fn hex_encode(bytes: Seq<u8>) -> Seq<u8> {
    Seq::new(2 * bytes.len(), |index: int| hex_digit_at(bytes, index))
}

/// What every signature header starts with: `sha256=` in ASCII.
pub open spec fn signature_prefix() -> Seq<u8> {
    seq![0x73u8, 0x68u8, 0x61u8, 0x32u8, 0x35u8, 0x36u8, 0x3du8]
}

/// The signature header that the platform sends with `body` when it shares
/// `secret`.
pub open spec fn signature_header(secret: Seq<u8>, body: Seq<u8>) -> Seq<u8> {
    signature_prefix() + hex_encode(hmac_sha256(secret, body))
}

/// Whether a request with this body and this signature header, if it has one,
/// is taken as sent by the platform. A missing header, one in another form
/// and one with another tag all fail alike.
pub open spec fn verifies(secret: Seq<u8>, body: Seq<u8>, header: Option<Seq<u8>>) -> bool {
    &&& body.len() <= MAX_MESSAGE_LEN
    &&& header == Some(signature_header(secret, body))
}

/// The bytes of a header value, if there is one.
pub open spec fn header_bytes(header: Option<&str>) -> Option<Seq<u8>> {
    match header {
        Some(text) => Some(text.spec_bytes()),
        None => None,
    }
}

/// The secret shared with the platform.
pub struct WebhookSecret {
    bytes: Vec<u8>,
}

impl View for WebhookSecret {
    type V = Seq<u8>;

    closed spec fn view(&self) -> Seq<u8> {
        self.bytes@
    }
}

impl WebhookSecret {
    #[verifier::type_invariant]
    spec fn within_limit(&self) -> bool {
        self.bytes@.len() <= MAX_KEY_LEN
    }

    /// Keeps `secret` as the shared secret. Only a secret too long to compute
    /// a tag under is refused.
    pub fn from_slice(secret: &[u8]) -> (kept: Option<WebhookSecret>)
        ensures
            match kept {
                Some(k) => secret@.len() <= MAX_KEY_LEN && k@ == secret@,
                None => secret@.len() > MAX_KEY_LEN,
            },
    {
        if secret.len() as u64 > MAX_KEY_LEN {
            None
        } else {
            Some(WebhookSecret { bytes: slice_to_vec(secret) })
        }
    }
}

fn hex_digit_of(nibble: u8) -> (digit: u8)
    requires
        nibble < 16,
    ensures
        digit == hex_digit(nibble as int),
{
    if nibble < 10 {
        0x30 + nibble
    } else {
        0x57 + nibble
    }
}

/// Appends the lower-case hexadecimal text of `bytes` to `out`.
fn push_hex(out: &mut Vec<u8>, bytes: &[u8])
    ensures
        final(out)@ == old(out)@ + hex_encode(bytes@),
{
    let ghost before = out@;
    let mut i: usize = 0;
    while i < bytes.len()
        invariant
            i <= bytes.len(),
            out@.len() == before.len() + 2 * i,
            forall|k: int| 0 <= k < before.len() ==> out@[k] == before[k],
            forall|k: int| 0 <= k < 2 * i ==> out@[before.len() + k] == hex_digit_at(bytes@, k),
        decreases bytes.len() - i,
    {
        let byte = bytes[i];
        out.push(hex_digit_of(byte / 16));
        out.push(hex_digit_of(byte % 16));
        i = i + 1;
    }
    assert(out@ =~= before + hex_encode(bytes@));
}

/// The header that signs a body whose tag is `tag`.
fn header_for_tag(tag: &[u8]) -> (header: Vec<u8>)
    ensures
        header@ == signature_prefix() + hex_encode(tag@),
{
    let mut header: Vec<u8> = Vec::new();
    header.push(0x73);
    header.push(0x68);
    header.push(0x61);
    header.push(0x32);
    header.push(0x35);
    header.push(0x36);
    header.push(0x3d);
    assert(header@ =~= signature_prefix());
    push_hex(&mut header, tag);
    header
}

/// Tells whether `header` signs `body` under `secret`.
///
/// The tag of the body is computed, written as the header that the platform
/// would send, and compared with the header that came, in time that does not
/// depend on where the two differ.
pub fn verify(secret: &WebhookSecret, body: &[u8], header: Option<&str>) -> (ok: bool)
    ensures
        ok == verifies(secret@, body@, header_bytes(header)),
{
    proof {
        use_type_invariant(secret);
    }
    let supplied = match header {
        Some(text) => text.as_bytes(),
        None => {
            return false;
        },
    };
    if body.len() as u64 > MAX_MESSAGE_LEN {
        return false;
    }
    match hmac_sha256_tag(secret.bytes.as_slice(), body) {
        Some(tag) => {
            let expected = header_for_tag(tag.as_slice());
            constant_time_eq(supplied, expected.as_slice())
        },
        None => false,
    }
}

/// `bytes` with one bit of the byte at `index` turned over.
pub open spec fn flip_bit(bytes: Seq<u8>, index: int, bit: u8) -> Seq<u8> {
    bytes.update(index, bytes[index] ^ (1u8 << bit))
}

proof fn lemma_hex_digit_injective(a: int, b: int)
    requires
        0 <= a < 16,
        0 <= b < 16,
        hex_digit(a) == hex_digit(b),
    ensures
        a == b,
{
}

/// Two byte strings with the same hexadecimal text are the same.
pub proof fn lemma_hex_encode_injective(a: Seq<u8>, b: Seq<u8>)
    requires
        hex_encode(a) == hex_encode(b),
    ensures
        a == b,
{
    assert(hex_encode(a).len() == 2 * a.len());
    assert(hex_encode(b).len() == 2 * b.len());
    assert forall|i: int| 0 <= i < a.len() implies a[i] == b[i] by {
        assert(hex_encode(a)[2 * i] == hex_digit_at(a, 2 * i));
        assert(hex_encode(b)[2 * i] == hex_digit_at(b, 2 * i));
        assert(hex_encode(a)[2 * i + 1] == hex_digit_at(a, 2 * i + 1));
        assert(hex_encode(b)[2 * i + 1] == hex_digit_at(b, 2 * i + 1));
        lemma_hex_digit_injective(a[i] as int / 16, b[i] as int / 16);
        lemma_hex_digit_injective(a[i] as int % 16, b[i] as int % 16);
    }
    assert(a =~= b);
}

/// A body verifies against the header that signs it: what the platform sends
/// is accepted.
pub proof fn lemma_signed_body_verifies(secret: Seq<u8>, body: Seq<u8>)
    requires
        body.len() <= MAX_MESSAGE_LEN,
    ensures
        verifies(secret, body, Some(signature_header(secret, body))),
{
}

/// Turning over any one bit of the header that signs a body makes the
/// verification fail, in the prefix as in the digits of the tag.
pub proof fn lemma_flipped_header_fails(secret: Seq<u8>, body: Seq<u8>, index: int, bit: u8)
    requires
        0 <= index < signature_header(secret, body).len(),
        bit < 8,
    ensures
        !verifies(secret, body, Some(flip_bit(signature_header(secret, body), index, bit))),
{
    let header = signature_header(secret, body);
    let byte = header[index];
    assert(byte ^ (1u8 << bit) != byte) by (bit_vector)
        requires
            bit < 8,
    ;
    assert(flip_bit(header, index, bit)[index] != header[index]);
}

/// A header that signs one body verifies no body with another tag. This is
/// what protects a body against change: a changed body verifies only where
/// its tag is that of the body which was signed.
pub proof fn lemma_other_body_fails(secret: Seq<u8>, signed: Seq<u8>, body: Seq<u8>)
    requires
        hmac_sha256(secret, body) != hmac_sha256(secret, signed),
    ensures
        !verifies(secret, body, Some(signature_header(secret, signed))),
{
    if signature_header(secret, body) == signature_header(secret, signed) {
        let a = hex_encode(hmac_sha256(secret, body));
        let b = hex_encode(hmac_sha256(secret, signed));
        assert(a =~= signature_header(secret, body).subrange(7, 7 + a.len() as int));
        assert(b =~= signature_header(secret, signed).subrange(7, 7 + b.len() as int));
        assert(signature_header(secret, body).len() == 7 + a.len());
        assert(signature_header(secret, signed).len() == 7 + b.len());
        lemma_hex_encode_injective(hmac_sha256(secret, body), hmac_sha256(secret, signed));
    }
}

} // verus!
