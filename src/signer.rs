use vstd::prelude::*;
use vstd::string::*;
use vstd::utf8::encode_utf8;
use base64::Engine;
use hmac::Mac;

verus! {

/// What base64's standard engine (standard alphabet, with padding) makes of
/// the given bytes.
pub uninterp spec fn base64_of(bytes: Seq<u8>) -> Seq<char>;

/// The 64-byte HMAC-SHA512 tag of `message` under `key`.
pub uninterp spec fn hmac_sha512_of(key: Seq<u8>, message: Seq<u8>) -> Seq<u8>;

/// The sixteen lowercase hexadecimal digits, by value.
pub open spec fn hex_digits() -> Seq<char> {
    seq!['0', '1', '2', '3', '4', '5', '6', '7', '8', '9', 'a', 'b', 'c', 'd', 'e', 'f']
}

/// Two lowercase hex digits for each byte, high nibble first.
pub open spec fn hex_text(bytes: Seq<u8>) -> Seq<char>
    decreases bytes.len(),
{
    if bytes.len() == 0 {
        Seq::empty()
    } else {
        let b = bytes.last();
        hex_text(bytes.drop_last()) + seq![hex_digits()[(b / 16) as int], hex_digits()[(b % 16) as int]]
    }
}

/// The payload header: base64 of the canonical text's UTF-8 bytes.
pub open spec fn payload_of(canonical: Seq<char>) -> Seq<char> {
    base64_of(encode_utf8(canonical))
}

/// The signature header: lowercase hex of HMAC-SHA512, keyed by the secret,
/// over the UTF-8 bytes of the payload header (not of the canonical text).
pub open spec fn signature_of(canonical: Seq<char>, secret: Seq<char>) -> Seq<char> {
    hex_text(hmac_sha512_of(encode_utf8(secret), encode_utf8(payload_of(canonical))))
}

/// Relies on base64 0.21's `general_purpose::STANDARD.encode`: the result is a
/// function of the input bytes alone.
#[verifier::external_body]
fn base64_encode(bytes: &[u8]) -> (r: String)
    ensures
        r@ == base64_of(bytes@),
{
    base64::engine::general_purpose::STANDARD.encode(bytes)
}

/// Relies on hmac 0.12's `Hmac<Sha512>`: `new_from_slice` accepts a key of
/// any length (longer keys are hashed, shorter ones padded), and `finalize`
/// yields the 64-byte tag of all bytes given to `update`.
#[verifier::external_body]
fn hmac_sha512(key: &[u8], message: &[u8]) -> (r: Vec<u8>)
    ensures
        r@ == hmac_sha512_of(key@, message@),
        r@.len() == 64,
{
    let mut mac = <hmac::Hmac<sha2::Sha512> as Mac>::new_from_slice(key).expect("HMAC can take key of any size");
    mac.update(message);
    mac.finalize().into_bytes().to_vec()
}

/// Renders bytes as lowercase hex, two digits per byte.
pub fn to_lower_hex(bytes: &Vec<u8>) -> (r: String)
    ensures
        r@ == hex_text(bytes@),
{
    let digits: &str = "0123456789abcdef";
    proof {
        reveal_strlit("0123456789abcdef");
        assert(digits@ =~= hex_digits());
        assert(digits.is_ascii());
    }
    let mut out = String::new();
    let mut i: usize = 0;
    while i < bytes.len()
        invariant
            i <= bytes@.len(),
            digits@ == hex_digits(),
            digits.is_ascii(),
            out@ == hex_text(bytes@.subrange(0, i as int)),
        decreases bytes@.len() - i,
    {
        let b = bytes[i];
        let hi = (b / 16) as usize;
        let lo = (b % 16) as usize;
        out.append(digits.substring_ascii(hi, hi + 1));
        out.append(digits.substring_ascii(lo, lo + 1));
        proof {
            let s = bytes@.subrange(0, i + 1);
            assert(s.drop_last() =~= bytes@.subrange(0, i as int));
            assert(s.last() == b);
        }
        i = i + 1;
    }
    assert(bytes@.subrange(0, bytes@.len() as int) =~= bytes@);
    out
}

/// The three values of a signed call: the body that is sent, and the
/// payload and signature headers derived from it.
pub struct SignedPayload {
    pub body: String,
    pub payload: String,
    pub signature: String,
}

/// Signs the canonical text with the secret: the payload header is the base64
/// of the text, the signature is the hex HMAC-SHA512 of the payload header.
pub fn sign(canonical: String, secret: &str) -> (r: SignedPayload)
    ensures
        r.body@ == canonical@,
        r.payload@ == payload_of(canonical@),
        r.signature@ == signature_of(canonical@, secret@),
        r.signature@.len() == 128,
{
    let payload = base64_encode(canonical.as_str().as_bytes());
    let tag = hmac_sha512(secret.as_bytes(), payload.as_str().as_bytes());
    let signature = to_lower_hex(&tag);
    proof {
        lemma_hex_text_length(tag@);
    }
    SignedPayload { body: canonical, payload, signature }
}

/// Signing is deterministic: the same canonical text under the same secret
/// gives the same payload and signature headers.
pub proof fn lemma_signing_deterministic(
    canonical1: Seq<char>,
    canonical2: Seq<char>,
    secret1: Seq<char>,
    secret2: Seq<char>,
)
    requires
        canonical1 == canonical2,
        secret1 == secret2,
    ensures
        payload_of(canonical1) == payload_of(canonical2),
        signature_of(canonical1, secret1) == signature_of(canonical2, secret2),
{
}

/// Hex text is twice as long as the bytes it renders.
pub proof fn lemma_hex_text_length(bytes: Seq<u8>)
    ensures
        hex_text(bytes).len() == 2 * bytes.len(),
    decreases bytes.len(),
{
    if bytes.len() > 0 {
        lemma_hex_text_length(bytes.drop_last());
    }
}

} // verus!
