use charset_codec::{resolve, Charset};

#[test]
fn resolve_is_case_insensitive() {
    assert_eq!(resolve("GBK"), Some(Charset::Gbk));
    assert_eq!(resolve("gbk"), Some(Charset::Gbk));
    assert_eq!(resolve("Gbk"), Some(Charset::Gbk));
    assert_eq!(resolve("GBK"), resolve("gbk"));
    assert_eq!(resolve("gbk"), resolve("Gbk"));
}

#[test]
fn resolve_accepts_canonical_names_and_aliases() {
    assert_eq!(resolve("ISO-8859-1"), Some(Charset::Latin1));
    assert_eq!(resolve("iso88591"), Some(Charset::Latin1));
    assert_eq!(resolve("latin1"), Some(Charset::Latin1));
    assert_eq!(resolve("UTF-8"), Some(Charset::Utf8));
    assert_eq!(resolve("utf8"), Some(Charset::Utf8));
    assert_eq!(resolve("big5"), Some(Charset::Big5));
    assert_eq!(resolve("gb18030"), Some(Charset::Gb18030));
}

#[test]
fn resolve_treats_gb2312_as_gb18030_alias() {
    assert_eq!(resolve("GB2312"), Some(Charset::Gb18030));
    assert_eq!(resolve("gb2312"), resolve("GB18030"));
}

#[test]
fn resolve_rejects_unknown_labels() {
    assert_eq!(resolve("shift-jis"), None);
    assert_eq!(resolve("koi8-r"), None);
    assert_eq!(resolve(""), None);
    assert_eq!(resolve("gbk "), None);
    assert_eq!(resolve("latin-1"), None);
}
