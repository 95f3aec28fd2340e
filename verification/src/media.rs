//! The media codec: a payload that is raw base64 or a data URI is stripped of
//! its prefix, decoded, and classified by the signature of its bytes.

use vstd::prelude::*;
use vstd::string::StringExecFns;
use crate::text::{
    decimal_text, push_decimal, same_text, starts_with, trim_start_matches, trimmed_start,
};

verus! {

pub const JPEG_PREFIX: &'static str = "data:image/jpeg;base64,";

pub const PNG_PREFIX: &'static str = "data:image/png;base64,";

pub const GIF_PREFIX: &'static str = "data:image/gif;base64,";

pub const WEBP_PREFIX: &'static str = "data:image/webp;base64,";

pub const MP4_PREFIX: &'static str = "data:video/mp4;base64,";

pub const QUICKTIME_PREFIX: &'static str = "data:video/quicktime;base64,";

pub const WEBM_PREFIX: &'static str = "data:video/webm;base64,";

/// The MIME type given to bytes that carry no known signature.
pub const OCTET_STREAM: &'static str = "application/octet-stream";

/// Why a payload is not base64 text.
#[derive(Clone, Copy, Debug, PartialEq, Eq, Structural)]
pub enum DecodeError {
    /// A byte outside the alphabet, with its offset and its value.
    InvalidByte(usize, u8),
    /// The text has a length that no encoding has.
    InvalidLength,
    /// The last symbol, at the given offset, carries bits that would be lost.
    InvalidLastSymbol(usize, u8),
    /// The padding is missing or is not canonical.
    InvalidPadding,
}

/// Whether `p` is one of the data-URI prefixes that the codec removes.
pub open spec fn is_data_uri_prefix(p: Seq<char>) -> bool {
    ||| p == JPEG_PREFIX@
    ||| p == PNG_PREFIX@
    ||| p == GIF_PREFIX@
    ||| p == WEBP_PREFIX@
    ||| p == MP4_PREFIX@
    ||| p == QUICKTIME_PREFIX@
    ||| p == WEBM_PREFIX@
}

/// Whether `s` begins with one of the data-URI prefixes.
pub open spec fn has_data_uri_prefix(s: Seq<char>) -> bool {
    ||| JPEG_PREFIX@.is_prefix_of(s)
    ||| PNG_PREFIX@.is_prefix_of(s)
    ||| GIF_PREFIX@.is_prefix_of(s)
    ||| WEBP_PREFIX@.is_prefix_of(s)
    ||| MP4_PREFIX@.is_prefix_of(s)
    ||| QUICKTIME_PREFIX@.is_prefix_of(s)
    ||| WEBM_PREFIX@.is_prefix_of(s)
}

/// The payload without its data-URI prefix. The prefixes are taken in a fixed
/// order, each one as often as it leads the text, and none is tried again
/// once a later one has had its turn.
pub open spec fn stripped(s: Seq<char>) -> Seq<char> {
    let s1 = trimmed_start(s, JPEG_PREFIX@);
    let s2 = trimmed_start(s1, PNG_PREFIX@);
    let s3 = trimmed_start(s2, GIF_PREFIX@);
    let s4 = trimmed_start(s3, WEBP_PREFIX@);
    let s5 = trimmed_start(s4, MP4_PREFIX@);
    let s6 = trimmed_start(s5, QUICKTIME_PREFIX@);
    trimmed_start(s6, WEBM_PREFIX@)
}

/// Removes the data-URI prefix of a payload, if it has one.
pub fn strip_data_uri_prefix<'a>(payload: &'a str) -> (r: &'a str)
    ensures
        r@ == stripped(payload@),
{
    let s1 = trim_start_matches(payload, JPEG_PREFIX);
    let s2 = trim_start_matches(s1, PNG_PREFIX);
    let s3 = trim_start_matches(s2, GIF_PREFIX);
    let s4 = trim_start_matches(s3, WEBP_PREFIX);
    let s5 = trim_start_matches(s4, MP4_PREFIX);
    let s6 = trim_start_matches(s5, QUICKTIME_PREFIX);
    trim_start_matches(s6, WEBM_PREFIX)
}

/// What the standard base64 alphabet, with canonical padding, makes of `text`:
/// the bytes that it encodes, or the reason why it encodes none.
pub uninterp spec fn base64_decoding(text: Seq<char>) -> Result<Seq<u8>, DecodeError>;

/// A decoding result with its bytes taken as a sequence.
pub open spec fn decoded_view(r: Result<Vec<u8>, DecodeError>) -> Result<Seq<u8>, DecodeError> {
    match r {
        Ok(bytes) => Ok(bytes@),
        Err(e) => Err(e),
    }
}

/// A sniffing result with its text taken as a sequence.
pub open spec fn mime_view(r: Option<String>) -> Option<Seq<char>> {
    match r {
        Some(mime) => Some(mime@),
        None => None,
    }
}

/// `base64::decode`, the standard engine. The result is a function of the
/// text alone; its error is handed on variant by variant. Nothing is claimed
/// here of which texts decode to which bytes.
#[verifier::external_body]
#[allow(deprecated)]
fn decode_standard(text: &str) -> (r: Result<Vec<u8>, DecodeError>)
    ensures
        decoded_view(r) == base64_decoding(text@),
{
    match base64::decode(text) {
        Ok(bytes) => Ok(bytes),
        Err(base64::DecodeError::InvalidByte(at, byte)) => Err(DecodeError::InvalidByte(at, byte)),
        Err(base64::DecodeError::InvalidLength) => Err(DecodeError::InvalidLength),
        Err(base64::DecodeError::InvalidLastSymbol(at, byte)) => Err(
            DecodeError::InvalidLastSymbol(at, byte),
        ),
        Err(base64::DecodeError::InvalidPadding) => Err(DecodeError::InvalidPadding),
    }
}

/// The bytes of a payload: the decoding of what is left of it without its
/// data-URI prefix.
pub open spec fn payload_bytes(payload: Seq<char>) -> Result<Seq<u8>, DecodeError> {
    base64_decoding(stripped(payload))
}

/// Decodes a payload that is raw base64 or a data URI.
pub fn decode_payload(payload: &str) -> (r: Result<Vec<u8>, DecodeError>)
    ensures
        decoded_view(r) == payload_bytes(payload@),
{
    decode_standard(strip_data_uri_prefix(payload))
}

/// The MIME type whose signature the bytes carry, if they carry a known one.
pub uninterp spec fn sniffed_mime(bytes: Seq<u8>) -> Option<Seq<char>>;

/// `infer::get`, followed by `Type::mime_type`: the first signature in the
/// crate's table that the bytes match. The result is a function of the bytes
/// alone; nothing is claimed here of which bytes carry which signature.
#[verifier::external_body]
fn sniff(bytes: &[u8]) -> (r: Option<String>)
    ensures
        mime_view(r) == sniffed_mime(bytes@),
{
    match infer::get(bytes) {
        Some(kind) => Some(kind.mime_type().to_string()),
        None => None,
    }
}

/// The MIME type of the bytes: the sniffed one, or the octet stream.
pub open spec fn mime_of(bytes: Seq<u8>) -> Seq<char> {
    match sniffed_mime(bytes) {
        Some(mime) => mime,
        None => OCTET_STREAM@,
    }
}

/// Classifies bytes by their signature, whatever label came with them.
pub fn detect_mime_type(bytes: &[u8]) -> (mime: String)
    ensures
        mime@ == mime_of(bytes@),
{
    match sniff(bytes) {
        Some(mime) => mime,
        None => String::from_str(OCTET_STREAM),
    }
}

/// A decoded payload: its bytes and the MIME type that they were given.
pub struct DecodedMedia {
    pub bytes: Vec<u8>,
    pub mime_type: String,
}

/// What the codec makes of a payload: the bytes with their MIME type, or the
/// reason why the payload is not base64 text.
pub open spec fn media_of(payload: Seq<char>) -> Result<(Seq<u8>, Seq<char>), DecodeError> {
    match payload_bytes(payload) {
        Ok(bytes) => Ok((bytes, mime_of(bytes))),
        Err(e) => Err(e),
    }
}

/// A codec result with its bytes and its text taken as sequences.
pub open spec fn media_view(r: Result<DecodedMedia, DecodeError>) -> Result<
    (Seq<u8>, Seq<char>),
    DecodeError,
> {
    match r {
        Ok(media) => Ok((media.bytes@, media.mime_type@)),
        Err(e) => Err(e),
    }
}

/// Decodes a payload and classifies its bytes. The label inside a data-URI
/// prefix plays no part in the classification.
pub fn decode_media(payload: &str) -> (r: Result<DecodedMedia, DecodeError>)
    ensures
        media_view(r) == media_of(payload@),
{
    match decode_payload(payload) {
        Ok(bytes) => {
            let mime_type = detect_mime_type(bytes.as_slice());
            Ok(DecodedMedia { bytes, mime_type })
        },
        Err(e) => Err(e),
    }
}

pub const IMAGE: &'static str = "image";

pub const VIDEO: &'static str = "video";

/// The coarse kind of a MIME type: `video` for the video types, `image` for
/// the image types and for every other type.
pub open spec fn coarse_kind(mime: Seq<char>) -> Seq<char> {
    if "image/"@.is_prefix_of(mime) {
        IMAGE@
    } else if "video/"@.is_prefix_of(mime) {
        VIDEO@
    } else {
        IMAGE@
    }
}

/// The coarse kind of a MIME type, from its top-level category.
pub fn coarse_type(mime_type: &str) -> (kind: &'static str)
    ensures
        kind@ == coarse_kind(mime_type@),
{
    if starts_with(mime_type, "image/") {
        IMAGE
    } else if starts_with(mime_type, "video/") {
        VIDEO
    } else {
        IMAGE
    }
}

/// The file extension that goes with a MIME type.
pub open spec fn extension_of(mime: Seq<char>) -> Seq<char> {
    if mime == "image/jpeg"@ {
        "jpeg"@
    } else if mime == "image/png"@ {
        "png"@
    } else if mime == "image/gif"@ {
        "gif"@
    } else if mime == "image/webp"@ {
        "webp"@
    } else if mime == "video/mp4"@ {
        "mp4"@
    } else if mime == "video/quicktime"@ {
        "mov"@
    } else if mime == "video/webm"@ {
        "webm"@
    } else {
        "unknown"@
    }
}

/// The file extension of one of the seven media types; `unknown` for any
/// other text.
pub fn get_file_extension(mime_type: &str) -> (extension: &'static str)
    ensures
        extension@ == extension_of(mime_type@),
{
    if same_text(mime_type, "image/jpeg") {
        "jpeg"
    } else if same_text(mime_type, "image/png") {
        "png"
    } else if same_text(mime_type, "image/gif") {
        "gif"
    } else if same_text(mime_type, "image/webp") {
        "webp"
    } else if same_text(mime_type, "video/mp4") {
        "mp4"
    } else if same_text(mime_type, "video/quicktime") {
        "mov"
    } else if same_text(mime_type, "video/webm") {
        "webm"
    } else {
        "unknown"
    }
}

impl DecodeError {
    /// The error in words.
    pub open spec fn message_text(self) -> Seq<char> {
        match self {
            DecodeError::InvalidByte(at, byte) => "Invalid byte "@ + decimal_text(byte as nat)
                + ", offset "@ + decimal_text(at as nat) + "."@,
            DecodeError::InvalidLength => "Encoded text cannot have a 6-bit remainder."@,
            DecodeError::InvalidLastSymbol(at, byte) => "Invalid last symbol "@ + decimal_text(
                byte as nat,
            ) + ", offset "@ + decimal_text(at as nat) + "."@,
            DecodeError::InvalidPadding => "Invalid padding"@,
        }
    }

    /// The error in words, as it is reported to the caller of the service.
    pub fn message(&self) -> (text: String)
        ensures
            text@ == self.message_text(),
    {
        match *self {
            DecodeError::InvalidByte(at, byte) => {
                let mut text = String::from_str("Invalid byte ");
                push_decimal(&mut text, byte as usize);
                text.append(", offset ");
                push_decimal(&mut text, at);
                text.append(".");
                text
            },
            DecodeError::InvalidLength => String::from_str(
                "Encoded text cannot have a 6-bit remainder.",
            ),
            DecodeError::InvalidLastSymbol(at, byte) => {
                let mut text = String::from_str("Invalid last symbol ");
                push_decimal(&mut text, byte as usize);
                text.append(", offset ");
                push_decimal(&mut text, at);
                text.append(".");
                text
            },
            DecodeError::InvalidPadding => String::from_str("Invalid padding"),
        }
    }
}

/// Whether `c` is a symbol of the standard base64 alphabet or its padding.
pub open spec fn is_base64_char(c: char) -> bool {
    ||| ('A' <= c && c <= 'Z')
    ||| ('a' <= c && c <= 'z')
    ||| ('0' <= c && c <= '9')
    ||| c == '+'
    ||| c == '/'
    ||| c == '='
}

/// Whether `s` is made of base64 symbols alone, as every encoding is.
pub open spec fn is_base64_text(s: Seq<char>) -> bool {
    forall|i: int| 0 <= i < s.len() ==> is_base64_char(#[trigger] s[i])
}

proof fn lemma_reveal_prefixes()
    ensures
        JPEG_PREFIX@.len() == 23 && JPEG_PREFIX@[4] == ':' && JPEG_PREFIX@[5] == 'i'
            && JPEG_PREFIX@[11] == 'j',
        PNG_PREFIX@.len() == 22 && PNG_PREFIX@[4] == ':' && PNG_PREFIX@[5] == 'i'
            && PNG_PREFIX@[11] == 'p',
        GIF_PREFIX@.len() == 22 && GIF_PREFIX@[4] == ':' && GIF_PREFIX@[5] == 'i'
            && GIF_PREFIX@[11] == 'g',
        WEBP_PREFIX@.len() == 23 && WEBP_PREFIX@[4] == ':' && WEBP_PREFIX@[5] == 'i'
            && WEBP_PREFIX@[11] == 'w',
        MP4_PREFIX@.len() == 22 && MP4_PREFIX@[4] == ':' && MP4_PREFIX@[5] == 'v'
            && MP4_PREFIX@[11] == 'm',
        QUICKTIME_PREFIX@.len() == 28 && QUICKTIME_PREFIX@[4] == ':' && QUICKTIME_PREFIX@[5]
            == 'v' && QUICKTIME_PREFIX@[11] == 'q',
        WEBM_PREFIX@.len() == 23 && WEBM_PREFIX@[4] == ':' && WEBM_PREFIX@[5] == 'v'
            && WEBM_PREFIX@[11] == 'w',
{
    reveal_strlit("data:image/jpeg;base64,");
    reveal_strlit("data:image/png;base64,");
    reveal_strlit("data:image/gif;base64,");
    reveal_strlit("data:image/webp;base64,");
    reveal_strlit("data:video/mp4;base64,");
    reveal_strlit("data:video/quicktime;base64,");
    reveal_strlit("data:video/webm;base64,");
}

/// A text that differs from `q` at a place that both have does not begin
/// with `q`, so trimming by `q` leaves it as it is.
proof fn lemma_trim_other(t: Seq<char>, q: Seq<char>, d: int)
    requires
        0 <= d < q.len(),
        d < t.len(),
        t[d] != q[d],
    ensures
        !q.is_prefix_of(t),
        trimmed_start(t, q) == t,
{
    if q.len() <= t.len() {
        assert(t.subrange(0, q.len() as int)[d] == t[d]);
    }
}

/// Trimming `p + s` by `p` leaves `s`, where `s` does not begin with `p`.
proof fn lemma_trim_own(p: Seq<char>, s: Seq<char>)
    requires
        p.len() > 0,
        !p.is_prefix_of(s),
    ensures
        trimmed_start(p + s, p) == s,
{
    let t = p + s;
    assert(t.subrange(0, p.len() as int) =~= p);
    assert(t.skip(p.len() as int) =~= s);
    assert(trimmed_start(s, p) == s);
}

/// A payload made of one supported prefix and a text that begins with none
/// is stripped to that text.
pub proof fn lemma_strip_removes_prefix(p: Seq<char>, s: Seq<char>)
    requires
        is_data_uri_prefix(p),
        !has_data_uri_prefix(s),
    ensures
        stripped(p + s) == s,
{
    lemma_reveal_prefixes();
    let t = p + s;
    assert(forall|i: int| 0 <= i < p.len() ==> t[i] == p[i]);
    if p == JPEG_PREFIX@ {
        lemma_trim_own(p, s);
    } else if p == PNG_PREFIX@ {
        lemma_trim_other(t, JPEG_PREFIX@, 11);
        lemma_trim_own(p, s);
    } else if p == GIF_PREFIX@ {
        lemma_trim_other(t, JPEG_PREFIX@, 11);
        lemma_trim_other(t, PNG_PREFIX@, 11);
        lemma_trim_own(p, s);
    } else if p == WEBP_PREFIX@ {
        lemma_trim_other(t, JPEG_PREFIX@, 11);
        lemma_trim_other(t, PNG_PREFIX@, 11);
        lemma_trim_other(t, GIF_PREFIX@, 11);
        lemma_trim_own(p, s);
    } else if p == MP4_PREFIX@ {
        lemma_trim_other(t, JPEG_PREFIX@, 5);
        lemma_trim_other(t, PNG_PREFIX@, 5);
        lemma_trim_other(t, GIF_PREFIX@, 5);
        lemma_trim_other(t, WEBP_PREFIX@, 5);
        lemma_trim_own(p, s);
    } else if p == QUICKTIME_PREFIX@ {
        lemma_trim_other(t, JPEG_PREFIX@, 5);
        lemma_trim_other(t, PNG_PREFIX@, 5);
        lemma_trim_other(t, GIF_PREFIX@, 5);
        lemma_trim_other(t, WEBP_PREFIX@, 5);
        lemma_trim_other(t, MP4_PREFIX@, 11);
        lemma_trim_own(p, s);
    } else {
        lemma_trim_other(t, JPEG_PREFIX@, 5);
        lemma_trim_other(t, PNG_PREFIX@, 5);
        lemma_trim_other(t, GIF_PREFIX@, 5);
        lemma_trim_other(t, WEBP_PREFIX@, 5);
        lemma_trim_other(t, MP4_PREFIX@, 11);
        lemma_trim_other(t, QUICKTIME_PREFIX@, 11);
        lemma_trim_own(p, s);
    }
}

/// A text that begins with no supported prefix is stripped to itself.
pub proof fn lemma_strip_keeps_bare_text(s: Seq<char>)
    requires
        !has_data_uri_prefix(s),
    ensures
        stripped(s) == s,
{
}

/// No base64 text begins with a data-URI prefix: each prefix holds a colon,
/// which is no base64 symbol.
pub proof fn lemma_base64_text_is_bare(s: Seq<char>)
    requires
        is_base64_text(s),
    ensures
        !has_data_uri_prefix(s),
{
    lemma_reveal_prefixes();
    if s.len() > 4 {
        assert(is_base64_char(s[4]));
        lemma_trim_other(s, JPEG_PREFIX@, 4);
        lemma_trim_other(s, PNG_PREFIX@, 4);
        lemma_trim_other(s, GIF_PREFIX@, 4);
        lemma_trim_other(s, WEBP_PREFIX@, 4);
        lemma_trim_other(s, MP4_PREFIX@, 4);
        lemma_trim_other(s, QUICKTIME_PREFIX@, 4);
        lemma_trim_other(s, WEBM_PREFIX@, 4);
    }
}

/// Stripping and then decoding gives back the bytes that were encoded:
/// where `s` is base64 text that encodes `bytes`, a payload made of any
/// supported prefix and `s` decodes to `bytes`, and so does `s` alone.
pub proof fn lemma_prefixed_payload_recovers_bytes(p: Seq<char>, s: Seq<char>, bytes: Seq<u8>)
    requires
        is_data_uri_prefix(p),
        is_base64_text(s),
        base64_decoding(s) == Ok::<Seq<u8>, DecodeError>(bytes),
    ensures
        payload_bytes(p + s) == Ok::<Seq<u8>, DecodeError>(bytes),
        payload_bytes(s) == Ok::<Seq<u8>, DecodeError>(bytes),
{
    lemma_base64_text_is_bare(s);
    lemma_strip_removes_prefix(p, s);
    lemma_strip_keeps_bare_text(s);
}

/// The classification of a payload does not depend on the prefix that it
/// claims: with any supported prefix, with another one, or with none, base64
/// text gives the same bytes and the same MIME type, that of the bytes.
pub proof fn lemma_mime_ignores_claimed_prefix(p: Seq<char>, q: Seq<char>, s: Seq<char>)
    requires
        is_data_uri_prefix(p),
        is_data_uri_prefix(q),
        is_base64_text(s),
    ensures
        media_of(p + s) == media_of(s),
        media_of(q + s) == media_of(p + s),
        base64_decoding(s) matches Ok(bytes) ==> media_of(p + s) == Ok::<
            (Seq<u8>, Seq<char>),
            DecodeError,
        >((bytes, mime_of(bytes))),
{
    lemma_base64_text_is_bare(s);
    lemma_strip_removes_prefix(p, s);
    lemma_strip_removes_prefix(q, s);
    lemma_strip_keeps_bare_text(s);
}

} // verus!
