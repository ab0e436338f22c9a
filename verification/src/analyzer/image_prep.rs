//! Image preparation for the vision models.

use vstd::prelude::*;
use crate::text::{decimal, decimal_chars, push_all, push_str, string_of};

verus! {

broadcast use vstd::string::group_string_axioms;

/// Longest side an image is resized to before it is sent.
pub const MAX_IMAGE_DIMENSION: u32 = 1024;

/// Shortest side an image needs for a reliable analysis.
pub const MIN_IMAGE_DIMENSION: u32 = 200;

/// The media type of every image sent to a vision model (they are all
/// re-encoded as JPEG).
pub fn image_media_type() -> (r: &'static str)
    ensures
        r@ == "image/jpeg"@,
{
    "image/jpeg"
}

/// The refusal of an image whose shorter side is under the minimum.
pub open spec fn too_small_message(width: u32, height: u32) -> Seq<char> {
    "Image too small for reliable analysis: "@ + decimal(width as nat) + "x"@ + decimal(height as nat)
        + ". Minimum dimension is "@ + decimal(MIN_IMAGE_DIMENSION as nat) + "px."@
}

/// Checks that an image is large enough to analyse: its shorter side must
/// be at least `MIN_IMAGE_DIMENSION` pixels.
pub fn check_image_size(width: u32, height: u32) -> (r: Result<(), String>)
    ensures
        r is Ok <==> (width >= MIN_IMAGE_DIMENSION && height >= MIN_IMAGE_DIMENSION),
        r matches Err(e) ==> e@ == too_small_message(width, height),
{
    let min_side = if width < height { width } else { height };
    if min_side < MIN_IMAGE_DIMENSION {
        let mut v: Vec<char> = Vec::new();
        push_str(&mut v, "Image too small for reliable analysis: ");
        push_all(&mut v, &decimal_chars(width as u64));
        push_str(&mut v, "x");
        push_all(&mut v, &decimal_chars(height as u64));
        push_str(&mut v, ". Minimum dimension is ");
        push_all(&mut v, &decimal_chars(MIN_IMAGE_DIMENSION as u64));
        push_str(&mut v, "px.");
        Err(string_of(&v))
    } else {
        Ok(())
    }
}

// ---------------------------------------------------------------------------
// Base64 payloads
// ---------------------------------------------------------------------------

/// A character of the standard base64 alphabet (RFC 4648): `A`-`Z`,
/// `a`-`z`, `0`-`9`, `+`, `/` for 0 to 63.
pub open spec fn b64_digit(n: int) -> char {
    if n < 26 {
        (65 + n) as char
    } else if n < 52 {
        (97 + n - 26) as char
    } else if n < 62 {
        (48 + n - 52) as char
    } else if n == 62 {
        '+'
    } else {
        '/'
    }
}

/// The standard base64 text of some bytes, with `=` padding: each group of
/// three bytes as four digits of six bits, a last group of one or two bytes
/// padded with zero bits and `=`.
pub open spec fn base64_of(b: Seq<u8>) -> Seq<char>
    decreases b.len(),
{
    if b.len() == 0 {
        Seq::empty()
    } else if b.len() == 1 {
        let n = (b[0] as int) * 16;
        seq![b64_digit(n / 64), b64_digit(n % 64), '=', '=']
    } else if b.len() == 2 {
        let n = (b[0] as int) * 1024 + (b[1] as int) * 4;
        seq![b64_digit(n / 4096), b64_digit((n / 64) % 64), b64_digit(n % 64), '=']
    } else {
        let n = (b[0] as int) * 65536 + (b[1] as int) * 256 + (b[2] as int);
        seq![b64_digit(n / 262144), b64_digit((n / 4096) % 64), b64_digit((n / 64) % 64), b64_digit(n % 64)]
            + base64_of(b.skip(3))
    }
}

/// What standard base64 decoding makes of a text: its bytes, or the
/// message of its error.
pub uninterp spec fn base64_decoded_of(text: Seq<char>) -> Result<Seq<u8>, Seq<char>>;

/// The length of a padded base64 text for `n` bytes fits in memory (the
/// crate panics otherwise).
pub open spec fn encodable_len(n: nat) -> bool {
    (n / 3) * 4 + (if n % 3 > 0 {
        4int
    } else {
        0int
    }) <= usize::MAX
}

/// `base64`'s `STANDARD.encode`: the standard base64 text of the bytes
/// (`base64_of`), four characters for every three bytes or part of three.
#[verifier::external_body]
fn base64_encode(bytes: &Vec<u8>) -> (r: String)
    requires
        encodable_len(bytes@.len()),
    ensures
        r@ == base64_of(bytes@),
        r@.len() == 4 * ((bytes@.len() + 2) / 3),
{
    base64::engine::Engine::encode(&base64::engine::general_purpose::STANDARD, bytes.as_slice())
}

/// `base64`'s `STANDARD.decode`, the error as its message. Claimed beyond
/// the name: the text `STANDARD.encode` wrote for some bytes decodes to
/// them.
#[verifier::external_body]
fn base64_decode(text: &str) -> (r: Result<Vec<u8>, String>)
    ensures
        match r {
            Ok(v) => base64_decoded_of(text@) == Ok::<Seq<u8>, Seq<char>>(v@),
            Err(e) => base64_decoded_of(text@) == Err::<Seq<u8>, Seq<char>>(e@),
        },
        forall|b: Seq<u8>| #[trigger] base64_of(b) == text@ ==> (r is Ok && r->Ok_0@ == b),
{
    match base64::engine::Engine::decode(&base64::engine::general_purpose::STANDARD, text) {
        Ok(v) => Ok(v),
        Err(e) => Err(e.to_string()),
    }
}

/// The base64 text in which an encoded image is sent to a vision model.
pub fn image_payload(jpeg: &Vec<u8>) -> (r: String)
    requires
        encodable_len(jpeg@.len()),
    ensures
        r@ == base64_of(jpeg@),
{
    base64_encode(jpeg)
}

/// The image bytes of a base64 payload; a text that is not base64 is
/// refused with the decoder's message.
pub fn image_from_payload(payload: &str) -> (r: Result<Vec<u8>, String>)
    ensures
        match base64_decoded_of(payload@) {
            Ok(b) => r matches Ok(v) && v@ == b,
            Err(e) => r matches Err(m) && m@ == "Invalid base64 image data: "@ + e,
        },
        forall|b: Seq<u8>| #[trigger] base64_of(b) == payload@ ==> (r matches Ok(v) && v@ == b),
{
    match base64_decode(payload) {
        Ok(v) => Ok(v),
        Err(e) => {
            let mut m: Vec<char> = Vec::new();
            push_str(&mut m, "Invalid base64 image data: ");
            push_str(&mut m, e.as_str());
            Err(string_of(&m))
        },
    }
}

} // verus!
