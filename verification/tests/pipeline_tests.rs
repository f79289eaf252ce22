use charset_codec::{decode, encode, encode_with_buffer, CodecError, Direction};

fn unsupported(label: &str) -> CodecError {
    CodecError::UnsupportedLabel { label: label.to_string() }
}

fn unmappable(label: &str, direction: Direction) -> CodecError {
    CodecError::UnmappableCharacter { label: label.to_string(), direction }
}

#[test]
fn encode_utf8_returns_the_utf8_bytes() {
    let r = encode("héllo 日", "utf-8");
    assert_eq!(r, Ok("héllo 日".as_bytes().to_vec()));
}

#[test]
fn encode_latin1_exact_bytes() {
    assert_eq!(encode("café", "latin1"), Ok(vec![0x63, 0x61, 0x66, 0xe9]));
}

#[test]
fn encode_gbk_exact_bytes() {
    assert_eq!(encode("中文", "GBK"), Ok(vec![0xd6, 0xd0, 0xce, 0xc4]));
}

#[test]
fn encode_gb2312_label_uses_gb18030_definition() {
    assert_eq!(encode("中", "GB2312"), Ok(vec![0xd6, 0xd0]));
    assert_eq!(encode("中", "gb18030"), Ok(vec![0xd6, 0xd0]));
}

#[test]
fn encode_big5_exact_bytes() {
    assert_eq!(encode("中", "big5"), Ok(vec![0xa4, 0xa4]));
}

#[test]
fn encode_unsupported_label_fails_with_the_label() {
    assert_eq!(encode("x", "ebcdic"), Err(unsupported("ebcdic")));
}

#[test]
fn encode_unmappable_character_fails_strictly() {
    assert_eq!(encode("日", "latin1"), Err(unmappable("latin1", Direction::Encode)));
    assert_eq!(encode("abc日", "ISO-8859-1"), Err(unmappable("ISO-8859-1", Direction::Encode)));
}

#[test]
fn encode_gbk_rejects_gb18030_extensions() {
    let gothic = "\u{10348}";
    assert_eq!(encode(gothic, "gbk"), Err(unmappable("gbk", Direction::Encode)));
    assert!(encode(gothic, "gb18030").is_ok());
}

#[test]
fn decode_utf8_valid_bytes() {
    assert_eq!(decode(&[0x68, 0xc3, 0xa9], "UTF8"), Ok("hé".to_string()));
}

#[test]
fn decode_utf8_invalid_bytes_fail() {
    assert_eq!(decode(&[0xff], "utf-8"), Err(unmappable("utf-8", Direction::Decode)));
    assert_eq!(decode(&[0xc0, 0x80], "utf8"), Err(unmappable("utf8", Direction::Decode)));
}

#[test]
fn decode_gbk_exact_text() {
    assert_eq!(decode(&[0xd6, 0xd0], "gbk"), Ok("中".to_string()));
}

#[test]
fn decode_gbk_lone_byte_fails() {
    assert_eq!(decode(&[0xff], "GBK"), Err(unmappable("GBK", Direction::Decode)));
}

#[test]
fn decode_latin1_never_fails_on_content() {
    assert_eq!(decode(&[0x41, 0xff, 0xe9], "ISO-8859-1"), Ok("Aÿé".to_string()));
}

#[test]
fn decode_big5_exact_text() {
    assert_eq!(decode(&[0xa4, 0xa4], "Big5"), Ok("中".to_string()));
}

#[test]
fn decode_unsupported_label_fails_with_the_label() {
    assert_eq!(decode(&[0x41], "utf-16"), Err(unsupported("utf-16")));
}

#[test]
fn round_trip_utf8() {
    let text = "中文 héllo \u{1F680}";
    let bytes = encode(text, "utf-8").unwrap();
    assert_eq!(decode(&bytes, "utf-8"), Ok(text.to_string()));
}

#[test]
fn round_trip_latin1() {
    let text = "café ÿ±";
    let bytes = encode(text, "latin1").unwrap();
    assert_eq!(decode(&bytes, "latin1"), Ok(text.to_string()));
}

#[test]
fn round_trip_gbk() {
    let text = "中文abc";
    let bytes = encode(text, "gbk").unwrap();
    assert_eq!(decode(&bytes, "gbk"), Ok(text.to_string()));
}

#[test]
fn round_trip_big5() {
    let text = "中abc";
    let bytes = encode(text, "big5").unwrap();
    assert_eq!(decode(&bytes, "big5"), Ok(text.to_string()));
}

#[test]
fn round_trip_gb18030() {
    let text = "中\u{10348}";
    let bytes = encode(text, "gb18030").unwrap();
    assert_eq!(decode(&bytes, "gb18030"), Ok(text.to_string()));
}

#[test]
fn empty_inputs_succeed() {
    assert_eq!(encode("", "gbk"), Ok(vec![]));
    assert_eq!(decode(&[], "big5"), Ok(String::new()));
    assert_eq!(encode_with_buffer(&[], "utf-8", "gbk"), Ok(vec![]));
}

#[test]
fn errors_carry_the_offending_label() {
    let e = encode("x", "ebcdic").unwrap_err();
    assert_eq!(e.label().as_str(), "ebcdic");
    let e = decode(&[0xff], "gbk").unwrap_err();
    assert_eq!(e.label().as_str(), "gbk");
}
