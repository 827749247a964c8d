//! Calls into outside crates: hashing, base64, time ranges, random ids and
//! image processing. Each item here states what the crate's documentation
//! or source promises of the call, and no more.
use vstd::prelude::*;
use vstd::utf8::{valid_utf8, decode_utf8};
use crate::numeric::parse_i64_spec;
use base64::Engine;
use sha2::Digest;

verus! {

/// The SHA-256 digest of `data`.
pub uninterp spec fn sha256_of(data: Seq<u8>) -> Seq<u8>;

/// The base64 digit of the six-bit value `v` (RFC 4648): `A`-`Z`, `a`-`z`,
/// `0`-`9`, then `+` and `/`, or `-` and `_` in the URL-safe alphabet.
pub open spec fn base64_digit(v: int, url_safe: bool) -> char {
    if v < 26 {
        (65 + v) as char
    } else if v < 52 {
        (97 + v - 26) as char
    } else if v < 62 {
        (48 + v - 52) as char
    } else if v == 62 {
        if url_safe { '-' } else { '+' }
    } else {
        if url_safe { '_' } else { '/' }
    }
}

/// The base64 text of `data` (RFC 4648): each three bytes become four
/// digits; a final two bytes become three digits and a final byte two, each
/// followed by `=` to four when `padded`.
pub open spec fn base64_of(data: Seq<u8>, url_safe: bool, padded: bool) -> Seq<char>
    decreases data.len(),
{
    if data.len() == 0 {
        Seq::empty()
    } else if data.len() == 1 {
        let a = data[0] as int;
        seq![base64_digit(a / 4, url_safe), base64_digit((a % 4) * 16, url_safe)]
            + if padded { seq!['=', '='] } else { Seq::empty() }
    } else if data.len() == 2 {
        let a = data[0] as int;
        let b = data[1] as int;
        seq![
            base64_digit(a / 4, url_safe),
            base64_digit((a % 4) * 16 + b / 16, url_safe),
            base64_digit((b % 16) * 4, url_safe),
        ] + if padded { seq!['='] } else { Seq::empty() }
    } else {
        let a = data[0] as int;
        let b = data[1] as int;
        let c = data[2] as int;
        seq![
            base64_digit(a / 4, url_safe),
            base64_digit((a % 4) * 16 + b / 16, url_safe),
            base64_digit((b % 16) * 4 + c / 64, url_safe),
            base64_digit(c % 64, url_safe),
        ] + base64_of(data.subrange(3, data.len() as int), url_safe, padded)
    }
}

/// The standard (padded) base64 text of `data`.
pub open spec fn base64_standard_of(data: Seq<u8>) -> Seq<char> {
    base64_of(data, false, true)
}

/// The URL-safe unpadded base64 text of `data`.
pub open spec fn base64_url_nopad_of(data: Seq<u8>) -> Seq<char> {
    base64_of(data, true, false)
}

/// The bytes that standard base64 `text` decodes to, if it is valid.
pub uninterp spec fn base64_standard_decoded(text: Seq<char>) -> Option<Seq<u8>>;

/// Whether chrono represents the UNIX timestamp `secs` as a date: it lies
/// between the first second of -262143-01-01 (`NaiveDate::MIN`) and the
/// last second of +262142-12-31 (`NaiveDate::MAX`).
pub open spec fn chrono_timestamp_valid(secs: i64) -> bool {
    -8_334_601_228_800 <= secs <= 8_210_266_876_799
}

/// `sha2::Sha256::digest`: the 32-byte SHA-256 digest of `data`.
#[verifier::external_body]
pub(crate) fn sha256_digest(data: &[u8]) -> (r: Vec<u8>)
    ensures
        r@ == sha256_of(data@),
        r@.len() == 32,
{
    sha2::Sha256::digest(data).to_vec()
}

/// `base64::engine::general_purpose::STANDARD.encode`: the padded base64
/// text of `data`, which the same engine decodes back to `data`.
#[verifier::external_body]
pub(crate) fn base64_standard_encode(data: &[u8]) -> (r: String)
    requires
        data@.len() <= usize::MAX / 2,
    ensures
        r@ == base64_standard_of(data@),
        base64_standard_decoded(r@) == Some(data@),
{
    base64::engine::general_purpose::STANDARD.encode(data)
}

/// `base64::engine::general_purpose::URL_SAFE_NO_PAD.encode`: the URL-safe
/// unpadded base64 text of `data`.
#[verifier::external_body]
pub(crate) fn base64_url_nopad_encode(data: &[u8]) -> (r: String)
    requires
        data@.len() <= usize::MAX / 2,
    ensures
        r@ == base64_url_nopad_of(data@),
{
    base64::engine::general_purpose::URL_SAFE_NO_PAD.encode(data)
}

/// The message of the error that standard base64 decoding gives `text`.
pub uninterp spec fn base64_decode_message(text: Seq<char>) -> Seq<char>;

/// `base64::engine::general_purpose::STANDARD.decode`: the bytes that the
/// text decodes to, or the decoder's error message.
#[verifier::external_body]
pub(crate) fn base64_standard_decode(text: &str) -> (r: Result<Vec<u8>, String>)
    ensures
        r.is_ok() == base64_standard_decoded(text@).is_some(),
        r.is_ok() ==> r->Ok_0@ == base64_standard_decoded(text@).unwrap(),
        r.is_err() ==> r->Err_0@ == base64_decode_message(text@),
{
    match base64::engine::general_purpose::STANDARD.decode(text.as_bytes()) {
        Ok(v) => Ok(v),
        Err(e) => Err(e.to_string()),
    }
}

/// The message of the error that `String::from_utf8` gives `bytes`.
pub uninterp spec fn utf8_error_message(bytes: Seq<u8>) -> Seq<char>;

/// `String::from_utf8`: the text that valid UTF-8 bytes encode, or the
/// error's message.
#[verifier::external_body]
pub(crate) fn text_from_utf8(bytes: Vec<u8>) -> (r: Result<String, String>)
    ensures
        r.is_ok() == valid_utf8(bytes@),
        r.is_ok() ==> r->Ok_0@ == decode_utf8(bytes@),
        r.is_err() ==> r->Err_0@ == utf8_error_message(bytes@),
{
    match String::from_utf8(bytes) {
        Ok(s) => Ok(s),
        Err(e) => Err(e.to_string()),
    }
}

/// `chrono::DateTime::from_timestamp(secs, 0).is_some()`: whether chrono
/// can represent the timestamp.
#[verifier::external_body]
pub(crate) fn timestamp_in_range(secs: i64) -> (r: bool)
    ensures
        r == chrono_timestamp_valid(secs),
{
    chrono::DateTime::from_timestamp(secs, 0).is_some()
}

/// Whether chrono represents `millis` milliseconds after the UNIX epoch as
/// a date: the second it falls in is one that `chrono_timestamp_valid`
/// accepts.
pub open spec fn chrono_millis_valid(millis: i64) -> bool {
    -8_334_601_228_800_000 <= millis <= 8_210_266_876_799_999
}

/// `chrono::DateTime::from_timestamp_millis`, read back with
/// `timestamp_millis`: `Some(millis)` when chrono represents the time (the
/// two calls round-trip, as chrono documents), `None` when it is out of range.
#[verifier::external_body]
pub(crate) fn datetime_from_millis(millis: i64) -> (r: Option<i64>)
    ensures
        r.is_some() == chrono_millis_valid(millis),
        r.is_some() ==> r == Some(millis),
{
    chrono::DateTime::from_timestamp_millis(millis).map(|d| d.timestamp_millis())
}

/// The message of the error that `str::parse::<i64>` gives `text`.
pub uninterp spec fn i64_parse_message(text: Seq<char>) -> Seq<char>;

/// `str::parse::<i64>`: the integer that `text` writes in decimal (an
/// optional sign, then digits, within the range of `i64`), or the message
/// of the parse error.
#[verifier::external_body]
pub(crate) fn i64_parse(text: &str) -> (r: Result<i64, String>)
    ensures
        r.is_ok() == parse_i64_spec(text@).is_some(),
        r.is_ok() ==> r->Ok_0 == parse_i64_spec(text@).unwrap(),
        r.is_err() ==> r->Err_0@ == i64_parse_message(text@),
{
    match text.parse::<i64>() {
        Ok(n) => Ok(n),
        Err(e) => Err(e.to_string()),
    }
}

/// The shape of a hyphenated lowercase UUID: 36 characters, hyphens at
/// positions 8, 13, 18 and 23, lowercase hex digits elsewhere.
pub open spec fn uuid_text_shape(s: Seq<char>) -> bool {
    &&& s.len() == 36
    &&& forall|i: int|
        0 <= i < 36 ==> if i == 8 || i == 13 || i == 18 || i == 23 {
            #[trigger] s[i] == '-'
        } else {
            ('0' <= s[i] <= '9') || ('a' <= s[i] <= 'f')
        }
}

/// The marks of a version-4 UUID in hyphenated form: the version digit `4`
/// at position 14 and an RFC 4122 variant digit (`8` to `b`) at position 19.
pub open spec fn uuid_v4_marks(s: Seq<char>) -> bool {
    &&& s[14] == '4'
    &&& (s[19] == '8' || s[19] == '9' || s[19] == 'a' || s[19] == 'b')
}

/// `uuid::Uuid::new_v4().to_string()`: a random version-4 UUID in its
/// hyphenated lowercase form. Which random bits it holds is not stated.
#[verifier::external_body]
pub(crate) fn new_uuid_v4() -> (r: String)
    ensures
        uuid_text_shape(r@),
        uuid_v4_marks(r@),
{
    uuid::Uuid::new_v4().to_string()
}

/// Whether the `image` crate decodes `bytes` as an image in a format it
/// recognises (`image::load_from_memory` succeeds).
pub uninterp spec fn image_decodes(bytes: Seq<u8>) -> bool;

/// The JPEG bytes of the image that `bytes` encode, scaled to cover
/// `width` x `height` and cropped to it, when decoding and encoding succeed.
pub uninterp spec fn jpeg_fill(bytes: Seq<u8>, width: u32, height: u32) -> Option<Seq<u8>>;

/// The JPEG encoder's error message for the image that `bytes` encode,
/// scaled to cover `width` x `height` and cropped to it.
pub uninterp spec fn jpeg_fill_error(bytes: Seq<u8>, width: u32, height: u32) -> Seq<char>;

/// The JPEG bytes of the image that `bytes` encode, scaled to fit within
/// `width` x `height` keeping its aspect ratio, when decoding and encoding
/// succeed.
pub uninterp spec fn jpeg_fit(bytes: Seq<u8>, width: u32, height: u32) -> Option<Seq<u8>>;

/// The JPEG encoder's error message for the image that `bytes` encode,
/// scaled to fit within `width` x `height`.
pub uninterp spec fn jpeg_fit_error(bytes: Seq<u8>, width: u32, height: u32) -> Seq<char>;

/// `image::load_from_memory`, then `DynamicImage::resize_to_fill` with the
/// Lanczos3 filter, then `DynamicImage::write_to` as JPEG: the JPEG bytes;
/// `Err(None)` when the bytes are not an image the crate decodes, and
/// `Err(Some(message))` when the encoder fails.
#[verifier::external_body]
pub(crate) fn jpeg_fill_thumbnail(bytes: &[u8], width: u32, height: u32) -> (r: Result<Vec<u8>, Option<String>>)
    requires
        width > 0 && height > 0,
    ensures
        r.is_ok() == jpeg_fill(bytes@, width, height).is_some(),
        r.is_ok() ==> r->Ok_0@ == jpeg_fill(bytes@, width, height).unwrap(),
        (r matches Err(None)) == !image_decodes(bytes@),
        r matches Err(Some(m)) ==> m@ == jpeg_fill_error(bytes@, width, height),
{
    let img = match image::load_from_memory(bytes) {
        Ok(img) => img,
        Err(_) => return Err(None),
    };
    let mut buffer: Vec<u8> = Vec::new();
    let resized = img.resize_to_fill(width, height, image::imageops::FilterType::Lanczos3);
    match resized.write_to(&mut std::io::Cursor::new(&mut buffer), image::ImageFormat::Jpeg) {
        Ok(()) => Ok(buffer),
        Err(e) => Err(Some(e.to_string())),
    }
}

/// `image::load_from_memory`, then `DynamicImage::resize` with the Lanczos3
/// filter, then `DynamicImage::write_to` as JPEG: the JPEG bytes;
/// `Err(None)` when the bytes are not an image the crate decodes, and
/// `Err(Some(message))` when the encoder fails.
#[verifier::external_body]
pub(crate) fn jpeg_fit_thumbnail(bytes: &[u8], width: u32, height: u32) -> (r: Result<Vec<u8>, Option<String>>)
    requires
        width > 0 && height > 0,
    ensures
        r.is_ok() == jpeg_fit(bytes@, width, height).is_some(),
        r.is_ok() ==> r->Ok_0@ == jpeg_fit(bytes@, width, height).unwrap(),
        (r matches Err(None)) == !image_decodes(bytes@),
        r matches Err(Some(m)) ==> m@ == jpeg_fit_error(bytes@, width, height),
{
    let img = match image::load_from_memory(bytes) {
        Ok(img) => img,
        Err(_) => return Err(None),
    };
    let mut buffer: Vec<u8> = Vec::new();
    let resized = img.resize(width, height, image::imageops::FilterType::Lanczos3);
    match resized.write_to(&mut std::io::Cursor::new(&mut buffer), image::ImageFormat::Jpeg) {
        Ok(()) => Ok(buffer),
        Err(e) => Err(Some(e.to_string())),
    }
}

} // verus!
