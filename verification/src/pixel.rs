//! Derives the tracking pixel of a message: an image element whose address
//! holds the message identifier in base64.

use crate::error::{result_view, ReconstructError};
use crate::message::Message;
use base64::Engine;
use vstd::prelude::*;
use vstd::utf8::encode_utf8;

verus! {

/// What stands between the base address and the encoded identifier.
pub const PIXEL_PATH: &'static str = "/image/";

/// What follows the encoded identifier in the address.
pub const PIXEL_SUFFIX: &'static str = ".gif";

/// The image element up to the address.
pub const PIXEL_HEAD: &'static str = r#"
        <img src=""#;

/// The image element after the address.
pub const PIXEL_TAIL: &'static str = r#"" alt="Open pixel" style="border: 0px; width: 0px; max-width: 1px;" />
        "#;

/// The character that stands for six bits in base64: `A` to `Z` for 0 to 25,
/// `a` to `z` for 26 to 51, `0` to `9` for 52 to 61, then `+` and `/`.
pub open spec fn sextet_char(bits: int) -> char {
    if bits < 26 {
        (bits + 65) as char
    } else if bits < 52 {
        (bits + 71) as char
    } else if bits < 62 {
        (bits - 4) as char
    } else if bits == 62 {
        '+'
    } else {
        '/'
    }
}

/// `bytes` in base64 with the standard alphabet and without padding: each
/// three bytes give four characters, one byte at the end gives two, and two
/// bytes at the end give three.
pub open spec fn base64_no_pad(bytes: Seq<u8>) -> Seq<char>
    decreases bytes.len(),
{
    if bytes.len() == 0 {
        Seq::empty()
    } else if bytes.len() == 1 {
        let a = bytes[0] as int;
        seq![sextet_char(a / 4), sextet_char(a % 4 * 16)]
    } else if bytes.len() == 2 {
        let a = bytes[0] as int;
        let b = bytes[1] as int;
        seq![sextet_char(a / 4), sextet_char(a % 4 * 16 + b / 16), sextet_char(b % 16 * 4)]
    } else {
        let a = bytes[0] as int;
        let b = bytes[1] as int;
        let c = bytes[2] as int;
        seq![
            sextet_char(a / 4),
            sextet_char(a % 4 * 16 + b / 16),
            sextet_char(b % 16 * 4 + c / 64),
            sextet_char(c % 64),
        ] + base64_no_pad(bytes.skip(3))
    }
}

/// The part of the pixel's address that stands for the identifier `id`: its
/// bytes in base64.
pub open spec fn encoded_id(id: Seq<char>) -> Seq<char> {
    base64_no_pad(encode_utf8(id))
}

/// The image element for a base address and an encoded identifier.
pub open spec fn pixel_element(base_url: Seq<char>, encoded: Seq<char>) -> Seq<char> {
    PIXEL_HEAD@ + base_url + PIXEL_PATH@ + encoded + PIXEL_SUFFIX@ + PIXEL_TAIL@
}

/// The six bits behind a character of the alphabet are determined by it.
pub proof fn lemma_sextet_char_injective(a: int, b: int)
    requires
        0 <= a < 64,
        0 <= b < 64,
        sextet_char(a) == sextet_char(b),
    ensures
        a == b,
{
    assert(sextet_char(a) as int == sextet_char(b) as int);
}

/// The length of the encoding tells the length of what was encoded.
pub proof fn lemma_base64_len(bytes: Seq<u8>)
    ensures
        base64_no_pad(bytes).len() == (4 * bytes.len() + 2) / 3,
    decreases bytes.len(),
{
    if bytes.len() >= 3 {
        lemma_base64_len(bytes.skip(3));
    }
}

/// Different bytes have different encodings.
pub proof fn lemma_base64_injective(first: Seq<u8>, second: Seq<u8>)
    requires
        base64_no_pad(first) == base64_no_pad(second),
    ensures
        first == second,
    decreases first.len(),
{
    lemma_base64_len(first);
    lemma_base64_len(second);
    assert(first.len() == second.len());
    let x = base64_no_pad(first);
    let y = base64_no_pad(second);
    if first.len() == 0 {
    } else if first.len() == 1 {
        let (a, p) = (first[0] as int, second[0] as int);
        assert(x[0] == y[0] && x[1] == y[1]);
        lemma_sextet_char_injective(a / 4, p / 4);
        lemma_sextet_char_injective(a % 4 * 16, p % 4 * 16);
    } else if first.len() == 2 {
        let (a, p) = (first[0] as int, second[0] as int);
        let (b, q) = (first[1] as int, second[1] as int);
        assert(x[0] == y[0] && x[1] == y[1] && x[2] == y[2]);
        lemma_sextet_char_injective(a / 4, p / 4);
        lemma_sextet_char_injective(a % 4 * 16 + b / 16, p % 4 * 16 + q / 16);
        lemma_sextet_char_injective(b % 16 * 4, q % 16 * 4);
    } else {
        let (a, p) = (first[0] as int, second[0] as int);
        let (b, q) = (first[1] as int, second[1] as int);
        let (c, r) = (first[2] as int, second[2] as int);
        assert(x[0] == y[0] && x[1] == y[1] && x[2] == y[2] && x[3] == y[3]);
        lemma_sextet_char_injective(a / 4, p / 4);
        lemma_sextet_char_injective(a % 4 * 16 + b / 16, p % 4 * 16 + q / 16);
        lemma_sextet_char_injective(b % 16 * 4 + c / 64, q % 16 * 4 + r / 64);
        lemma_sextet_char_injective(c % 64, r % 64);
        assert(x.skip(4) == base64_no_pad(first.skip(3)));
        assert(y.skip(4) == base64_no_pad(second.skip(3)));
        lemma_base64_injective(first.skip(3), second.skip(3));
        assert forall|i: int| 0 <= i < first.len() implies first[i] == second[i] by {
            if i >= 3 {
                assert(first[i] == first.skip(3)[i - 3]);
                assert(second[i] == second.skip(3)[i - 3]);
            }
        }
    }
    assert(first =~= second);
}

/// `encode` of the engine `STANDARD_NO_PAD` of the `base64` crate: the
/// standard alphabet, without padding.
#[verifier::external_body]
pub(crate) fn encode_no_pad(bytes: &[u8]) -> (result: String)
    ensures
        result@ == base64_no_pad(bytes@),
{
    base64::engine::general_purpose::STANDARD_NO_PAD.encode(bytes)
}

/// Sets a base address and an encoded identifier into the image element.
pub fn wrap_pixel(base_url: &str, encoded: &str) -> (result: String)
    ensures
        result@ == pixel_element(base_url@, encoded@),
{
    let mut result = String::from_str(PIXEL_HEAD);
    result.append(base_url);
    result.append(PIXEL_PATH);
    result.append(encoded);
    result.append(PIXEL_SUFFIX);
    result.append(PIXEL_TAIL);
    result
}

/// What `get_pixel_element` returns for a base address and a message: the
/// image element for the identifier of the message, or the refusal of a
/// message without an identifier.
pub open spec fn pixel_derived(
    tracking_url: Seq<char>,
    message_id: Option<Seq<char>>,
    result: Result<Seq<char>, ReconstructError>,
) -> bool {
    match message_id {
        Some(id) => result == Ok::<Seq<char>, ReconstructError>(
            pixel_element(tracking_url, encoded_id(id)),
        ),
        None => result == Err::<Seq<char>, ReconstructError>(ReconstructError::MissingMessageId),
    }
}

/// The tracking pixel of `message`: an image element without size or border
/// whose address is the base address `tracking_url`, `/image/`, the
/// identifier of the message in base64 and `.gif`. No request is made.
pub fn get_pixel_element(tracking_url: &str, message: &Message) -> (result: Result<
    String,
    ReconstructError,
>)
    ensures
        pixel_derived(tracking_url@, message@.message_id, result_view(result)),
{
    match &message.message_id {
        Some(id) => {
            let encoded = encode_no_pad(id.as_str().as_bytes());
            Ok(wrap_pixel(tracking_url, encoded.as_str()))
        },
        None => Err(ReconstructError::MissingMessageId),
    }
}

/// The pixel is a function of the base address and the identifier: what was
/// derived from the same two is the same each time.
pub proof fn lemma_pixel_is_deterministic(
    tracking_url: Seq<char>,
    message_id: Option<Seq<char>>,
    first: Result<Seq<char>, ReconstructError>,
    second: Result<Seq<char>, ReconstructError>,
)
    requires
        pixel_derived(tracking_url, message_id, first),
        pixel_derived(tracking_url, message_id, second),
    ensures
        first == second,
{
}

/// Identifiers that differ, be it in one character, have encoded parts that
/// differ, and so have pixels that differ for any base address.
pub proof fn lemma_pixel_tells_identifiers_apart(
    tracking_url: Seq<char>,
    first: Seq<char>,
    second: Seq<char>,
)
    requires
        first != second,
    ensures
        encoded_id(first) != encoded_id(second),
        pixel_element(tracking_url, encoded_id(first)) != pixel_element(
            tracking_url,
            encoded_id(second),
        ),
{
    if encoded_id(first) == encoded_id(second) {
        lemma_base64_injective(encode_utf8(first), encode_utf8(second));
        vstd::utf8::encode_utf8_decode_utf8(first);
        vstd::utf8::encode_utf8_decode_utf8(second);
        assert(false);
    }
    let head = PIXEL_HEAD@ + tracking_url + PIXEL_PATH@;
    let tail = PIXEL_SUFFIX@ + PIXEL_TAIL@;
    let a = encoded_id(first);
    let b = encoded_id(second);
    if pixel_element(tracking_url, a) == pixel_element(tracking_url, b) {
        lemma_base64_len(encode_utf8(first));
        lemma_base64_len(encode_utf8(second));
        let x = head + a + tail;
        let y = head + b + tail;
        assert(x == pixel_element(tracking_url, a));
        assert(y == pixel_element(tracking_url, b));
        assert(x.len() == y.len());
        assert(a.len() == b.len());
        assert(a == x.subrange(head.len() as int, head.len() as int + a.len()));
        assert(b == y.subrange(head.len() as int, head.len() as int + b.len()));
        assert(false);
    }
}

} // verus!
