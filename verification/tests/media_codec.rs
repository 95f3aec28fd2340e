use backend::media::{
    coarse_type, decode_media, decode_payload, detect_mime_type, get_file_extension,
    strip_data_uri_prefix, DecodeError, GIF_PREFIX, JPEG_PREFIX, MP4_PREFIX, OCTET_STREAM,
    PNG_PREFIX, QUICKTIME_PREFIX, WEBM_PREFIX, WEBP_PREFIX,
};

fn prefixes() -> [&'static str; 7] {
    [
        JPEG_PREFIX,
        PNG_PREFIX,
        GIF_PREFIX,
        WEBP_PREFIX,
        MP4_PREFIX,
        QUICKTIME_PREFIX,
        WEBM_PREFIX,
    ]
}

fn jpeg_bytes() -> Vec<u8> {
    vec![0xFF, 0xD8, 0xFF, 0xE0, 0x00, 0x10, b'J', b'F', b'I', b'F', 0x00]
}

fn png_bytes() -> Vec<u8> {
    vec![0x89, 0x50, 0x4E, 0x47, 0x0D, 0x0A, 0x1A, 0x0A, 0x00, 0x00]
}

fn mp4_bytes() -> Vec<u8> {
    let mut bytes = vec![0x00, 0x00, 0x00, 0x18];
    bytes.extend_from_slice(b"ftypmp42");
    bytes.extend_from_slice(&[0x00, 0x00, 0x00, 0x00]);
    bytes.extend_from_slice(b"mp42isom");
    bytes
}

fn quicktime_bytes() -> Vec<u8> {
    let mut bytes = vec![0x00, 0x00, 0x00, 0x14];
    bytes.extend_from_slice(b"ftypqt  ");
    bytes.extend_from_slice(&[0x00, 0x00, 0x00, 0x00, 0x00, 0x00, 0x00, 0x00]);
    bytes
}

fn webm_bytes() -> Vec<u8> {
    let mut bytes = vec![0x1A, 0x45, 0xDF, 0xA3];
    bytes.extend_from_slice(&[0x42, 0x82, 0x84]);
    bytes.extend_from_slice(b"webm");
    bytes.resize(300, 0);
    bytes
}

#[allow(deprecated)]
fn encoded(bytes: &[u8]) -> String {
    base64::encode(bytes)
}

#[allow(deprecated)]
fn outside_error(text: &str) -> base64::DecodeError {
    base64::decode(text).unwrap_err()
}

fn same_variant(ours: DecodeError, theirs: &base64::DecodeError) -> bool {
    match (ours, theirs) {
        (DecodeError::InvalidByte(a, b), base64::DecodeError::InvalidByte(c, d)) => {
            a == *c && b == *d
        }
        (DecodeError::InvalidLength, base64::DecodeError::InvalidLength) => true,
        (DecodeError::InvalidLastSymbol(a, b), base64::DecodeError::InvalidLastSymbol(c, d)) => {
            a == *c && b == *d
        }
        (DecodeError::InvalidPadding, base64::DecodeError::InvalidPadding) => true,
        _ => false,
    }
}

#[test]
fn the_prefixes_are_the_seven_data_uris() {
    assert_eq!(
        prefixes(),
        [
            "data:image/jpeg;base64,",
            "data:image/png;base64,",
            "data:image/gif;base64,",
            "data:image/webp;base64,",
            "data:video/mp4;base64,",
            "data:video/quicktime;base64,",
            "data:video/webm;base64,",
        ]
    );
}

#[test]
fn stripping_removes_each_supported_prefix() {
    for prefix in prefixes() {
        let payload = format!("{}aGVsbG8=", prefix);
        assert_eq!(strip_data_uri_prefix(&payload), "aGVsbG8=");
    }
    assert_eq!(strip_data_uri_prefix("aGVsbG8="), "aGVsbG8=");
    assert_eq!(strip_data_uri_prefix(""), "");
}

#[test]
fn stripping_leaves_other_prefixes() {
    assert_eq!(
        strip_data_uri_prefix("data:image/bmp;base64,AAAA"),
        "data:image/bmp;base64,AAAA"
    );
    assert_eq!(
        strip_data_uri_prefix("data:image/png;base64"),
        "data:image/png;base64"
    );
    assert_eq!(
        strip_data_uri_prefix(" data:image/png;base64,AAAA"),
        " data:image/png;base64,AAAA"
    );
}

#[test]
fn stripping_takes_the_prefixes_in_their_order() {
    // A repeated prefix goes as often as it leads the text.
    assert_eq!(
        strip_data_uri_prefix("data:image/png;base64,data:image/png;base64,QQ=="),
        "QQ=="
    );
    // A later prefix behind an earlier one goes too.
    assert_eq!(
        strip_data_uri_prefix("data:image/jpeg;base64,data:video/webm;base64,QQ=="),
        "QQ=="
    );
    // An earlier prefix behind a later one stays: its turn is over.
    assert_eq!(
        strip_data_uri_prefix("data:video/webm;base64,data:image/jpeg;base64,QQ=="),
        "data:image/jpeg;base64,QQ=="
    );
}

#[test]
fn stripping_then_decoding_recovers_the_encoded_bytes() {
    let samples: Vec<Vec<u8>> = vec![
        Vec::new(),
        vec![0],
        vec![1, 2],
        vec![1, 2, 3],
        b"hello world".to_vec(),
        jpeg_bytes(),
        png_bytes(),
        (0..=255).collect(),
    ];
    for bytes in samples {
        let text = encoded(&bytes);
        assert_eq!(decode_payload(&text), Ok(bytes.clone()));
        for prefix in prefixes() {
            let payload = format!("{}{}", prefix, text);
            assert_eq!(decode_payload(&payload), Ok(bytes.clone()));
        }
    }
}

#[test]
fn decoding_gives_the_known_bytes() {
    assert_eq!(decode_payload("aGVsbG8="), Ok(b"hello".to_vec()));
    assert_eq!(
        decode_payload("data:image/png;base64,aGVsbG8gd29ybGQ="),
        Ok(b"hello world".to_vec())
    );
    assert_eq!(decode_payload(""), Ok(Vec::new()));
}

#[test]
fn decoding_reports_an_invalid_byte() {
    assert_eq!(
        decode_payload("!!!!"),
        Err(DecodeError::InvalidByte(0, b'!'))
    );
    assert_eq!(
        decode_payload("data:image/png;base64,aGV bG8="),
        Err(DecodeError::InvalidByte(3, b' '))
    );
    // A prefix that is not supported is not removed, and is no base64.
    assert_eq!(
        decode_payload("data:image/bmp;base64,AAAA"),
        Err(DecodeError::InvalidByte(4, b':'))
    );
}

#[test]
fn decoding_reports_each_kind_of_error_as_the_decoder_does() {
    let texts = ["!!!!", "a", "abcde", "ab==", "aGVsbG8", "aGVsbG8==", "QQ=", "Q===", "=AAA"];
    let mut seen = [false; 4];
    for text in texts {
        let theirs = outside_error(text);
        let ours = decode_payload(text).unwrap_err();
        assert!(same_variant(ours, &theirs), "{:?}: {:?} {:?}", text, ours, theirs);
        assert_eq!(ours.message(), theirs.to_string(), "{:?}", text);
        match ours {
            DecodeError::InvalidByte(_, _) => seen[0] = true,
            DecodeError::InvalidLength => seen[1] = true,
            DecodeError::InvalidLastSymbol(_, _) => seen[2] = true,
            DecodeError::InvalidPadding => seen[3] = true,
        }
    }
    assert_eq!(seen, [true; 4]);
}

#[test]
fn the_messages_of_the_errors() {
    assert_eq!(
        DecodeError::InvalidByte(12, 61).message(),
        "Invalid byte 61, offset 12."
    );
    assert_eq!(
        DecodeError::InvalidLength.message(),
        "Encoded text cannot have a 6-bit remainder."
    );
    assert_eq!(
        DecodeError::InvalidLastSymbol(1, 98).message(),
        "Invalid last symbol 98, offset 1."
    );
    assert_eq!(DecodeError::InvalidPadding.message(), "Invalid padding");
    assert_eq!(
        DecodeError::InvalidByte(0, 0).message(),
        base64::DecodeError::InvalidByte(0, 0).to_string()
    );
    assert_eq!(
        DecodeError::InvalidLastSymbol(usize::MAX, 255).message(),
        base64::DecodeError::InvalidLastSymbol(usize::MAX, 255).to_string()
    );
}

#[test]
fn classification_goes_by_the_signature() {
    assert_eq!(detect_mime_type(&jpeg_bytes()), "image/jpeg");
    assert_eq!(detect_mime_type(&png_bytes()), "image/png");
    assert_eq!(detect_mime_type(b"GIF89a\x01\x00\x01\x00"), "image/gif");
    assert_eq!(detect_mime_type(b"RIFF\x24\x00\x00\x00WEBPVP8 "), "image/webp");
    assert_eq!(detect_mime_type(&mp4_bytes()), "video/mp4");
    assert_eq!(detect_mime_type(&quicktime_bytes()), "video/quicktime");
    assert_eq!(detect_mime_type(&webm_bytes()), "video/webm");
}

#[test]
fn bytes_without_signature_are_an_octet_stream() {
    assert_eq!(OCTET_STREAM, "application/octet-stream");
    assert_eq!(detect_mime_type(b"hello world"), "application/octet-stream");
    assert_eq!(detect_mime_type(&[]), "application/octet-stream");
    assert_eq!(detect_mime_type(&[0xFF]), "application/octet-stream");
    assert_eq!(detect_mime_type(&[0xFF, 0xD8]), "application/octet-stream");
}

#[test]
fn classification_ignores_the_claimed_prefix() {
    let samples = [
        (jpeg_bytes(), "image/jpeg"),
        (png_bytes(), "image/png"),
        (mp4_bytes(), "video/mp4"),
        (b"plain".to_vec(), "application/octet-stream"),
    ];
    for (bytes, mime) in samples {
        let text = encoded(&bytes);
        let bare = decode_media(&text).unwrap();
        assert_eq!(bare.bytes, bytes);
        assert_eq!(bare.mime_type, mime);
        for prefix in prefixes() {
            let media = decode_media(&format!("{}{}", prefix, text)).unwrap();
            assert_eq!(media.bytes, bytes);
            assert_eq!(media.mime_type, mime);
        }
    }
}

#[test]
fn classification_is_stable() {
    let text = format!("{}{}", PNG_PREFIX, encoded(&jpeg_bytes()));
    let first = decode_media(&text).unwrap();
    let second = decode_media(&text).unwrap();
    assert_eq!(first.mime_type, "image/jpeg");
    assert_eq!(first.mime_type, second.mime_type);
    assert_eq!(first.bytes, second.bytes);
}

#[test]
fn decode_media_hands_on_the_decoding_error() {
    assert_eq!(
        decode_media("data:image/png;base64,a").err(),
        Some(DecodeError::InvalidLength)
    );
    assert_eq!(
        decode_media("not base64").err(),
        Some(DecodeError::InvalidByte(3, b' '))
    );
}

#[test]
fn the_coarse_type_follows_the_top_level_category() {
    assert_eq!(coarse_type("image/png"), "image");
    assert_eq!(coarse_type("image/"), "image");
    assert_eq!(coarse_type("video/mp4"), "video");
    assert_eq!(coarse_type("video/quicktime"), "video");
    assert_eq!(coarse_type("application/octet-stream"), "image");
    assert_eq!(coarse_type("audio/mpeg"), "image");
    assert_eq!(coarse_type("video"), "image");
    assert_eq!(coarse_type(""), "image");
}

#[test]
fn the_file_extensions() {
    assert_eq!(get_file_extension("image/jpeg"), "jpeg");
    assert_eq!(get_file_extension("image/png"), "png");
    assert_eq!(get_file_extension("image/gif"), "gif");
    assert_eq!(get_file_extension("image/webp"), "webp");
    assert_eq!(get_file_extension("video/mp4"), "mp4");
    assert_eq!(get_file_extension("video/quicktime"), "mov");
    assert_eq!(get_file_extension("video/webm"), "webm");
    assert_eq!(get_file_extension("application/octet-stream"), "unknown");
    assert_eq!(get_file_extension("image/jpg"), "unknown");
    assert_eq!(get_file_extension("IMAGE/PNG"), "unknown");
    assert_eq!(get_file_extension(""), "unknown");
}

#[test]
fn classification_takes_any_bytes() {
    let samples = [
        jpeg_bytes(),
        png_bytes(),
        mp4_bytes(),
        quicktime_bytes(),
        webm_bytes(),
        b"RIFF\x24\x00\x00\x00WEBPVP8 ".to_vec(),
        b"PK\x03\x04mimetypeapplication/epub+zip".to_vec(),
        b"\x7FELF\x02\x01\x01".to_vec(),
        b"<?xml version=\"1.0\"?><svg>".to_vec(),
    ];
    for sample in samples {
        for cut in 0..=sample.len() {
            let mime = detect_mime_type(&sample[..cut]);
            assert!(mime.contains('/'), "{:?}", mime);
        }
    }
    let mut state: u32 = 12345;
    for round in 0..2000 {
        let mut bytes = Vec::new();
        for _ in 0..(round % 40) {
            state = state.wrapping_mul(1664525).wrapping_add(1013904223);
            bytes.push((state >> 24) as u8);
        }
        let mime = detect_mime_type(&bytes);
        assert!(mime.contains('/'), "{:?}", mime);
        assert_eq!(detect_mime_type(&bytes), mime);
    }
}
