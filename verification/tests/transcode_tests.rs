use charset_codec::{encode_with_buffer, validate_utf8, CodecError, Direction};

fn unsupported(label: &str) -> CodecError {
    CodecError::UnsupportedLabel { label: label.to_string() }
}

fn unmappable(label: &str, direction: Direction) -> CodecError {
    CodecError::UnmappableCharacter { label: label.to_string(), direction }
}

#[test]
fn same_label_passthrough_skips_validation() {
    // 0xff is not valid GBK, but a same-encoding transcode never looks at it.
    assert_eq!(encode_with_buffer(&[0xff, 0x00], "gbk", "GBK"), Ok(vec![0xff, 0x00]));
}

#[test]
fn aliased_labels_take_the_identity_shortcut() {
    // 0xff alone is valid Latin-1 but the point is the alias pair.
    assert_eq!(encode_with_buffer(&[0xff], "latin1", "ISO-8859-1"), Ok(vec![0xff]));
    // A lone 0x81 is invalid under GB18030, so only the shortcut can succeed.
    assert_eq!(encode_with_buffer(&[0x81], "GB2312", "gb18030"), Ok(vec![0x81]));
    assert_eq!(encode_with_buffer(&[0xff], "UTF-8", "utf8"), Ok(vec![0xff]));
}

#[test]
fn ascii_content_is_byte_identical_from_utf8_to_gbk() {
    let payload = b"hello, world! 123".to_vec();
    assert_eq!(encode_with_buffer(&payload, "utf-8", "gbk"), Ok(payload.clone()));
}

#[test]
fn transcode_utf8_to_gbk() {
    // "中" is e4 b8 ad in UTF-8 and d6 d0 in GBK.
    assert_eq!(encode_with_buffer(&[0xe4, 0xb8, 0xad], "utf-8", "gbk"), Ok(vec![0xd6, 0xd0]));
}

#[test]
fn transcode_gbk_to_big5() {
    assert_eq!(encode_with_buffer(&[0xd6, 0xd0], "gbk", "big5"), Ok(vec![0xa4, 0xa4]));
}

#[test]
fn transcode_big5_to_latin1_reports_the_encode_side() {
    assert_eq!(
        encode_with_buffer(&[0xa4, 0xa4], "big5", "latin1"),
        Err(unmappable("latin1", Direction::Encode))
    );
}

#[test]
fn transcode_invalid_source_reports_the_decode_side() {
    assert_eq!(
        encode_with_buffer(&[0xff], "gbk", "latin1"),
        Err(unmappable("gbk", Direction::Decode))
    );
}

#[test]
fn transcode_checks_the_source_label_first() {
    assert_eq!(encode_with_buffer(&[], "bogus", "alsobogus"), Err(unsupported("bogus")));
    assert_eq!(encode_with_buffer(&[], "gbk", "alsobogus"), Err(unsupported("alsobogus")));
}

#[test]
fn validate_utf8_rejects_malformed_sequences() {
    assert!(validate_utf8(&[]));
    assert!(validate_utf8("中 a\u{1F680}".as_bytes()));
    assert!(validate_utf8(&[0xf4, 0x8f, 0xbf, 0xbf])); // U+10FFFF
    assert!(!validate_utf8(&[0xc0, 0x80])); // overlong
    assert!(!validate_utf8(&[0xe0, 0x80, 0x80])); // overlong
    assert!(!validate_utf8(&[0xed, 0xa0, 0x80])); // surrogate
    assert!(!validate_utf8(&[0xf4, 0x90, 0x80, 0x80])); // above U+10FFFF
    assert!(!validate_utf8(&[0xe4, 0xb8])); // truncated
    assert!(!validate_utf8(&[0x80])); // stray continuation
    assert!(!validate_utf8(&[0xf8])); // no such leading byte
}
