use kstring2::{KString, KStringWriter};

#[test]
fn test_kstringwriter_new() {
    let writer = KStringWriter::new();
    assert!(matches!(writer, KStringWriter::Inline(_)));
}

#[test]
fn test_kstringwriter_push_char_inline() {
    let mut writer = KStringWriter::new();
    writer.push('a');
    assert_eq!(writer.as_ref(), "a");
}

#[test]
fn test_kstringwriter_push_str_inline() {
    let mut writer = KStringWriter::new();
    writer.push_str("abc");
    assert_eq!(writer.as_ref(), "abc");
}

#[test]
fn test_kstringwriter_push_char_to_owned() {
    let mut writer = KStringWriter::new();
    for _ in 0..=KString::MAX_INLINE_LEN {
        writer.push('a');
    }
    assert!(matches!(writer, KStringWriter::Owned(_)));
    assert_eq!(writer.as_ref(), "a".repeat(KString::MAX_INLINE_LEN + 1));
}

#[test]
fn test_kstringwriter_push_str_to_owned() {
    let mut writer = KStringWriter::new();
    for _ in 0..=KString::MAX_INLINE_LEN / 3 {
        writer.push_str("abc");
    }
    assert!(matches!(writer, KStringWriter::Owned(_)));
    assert_eq!(
        writer.as_ref(),
        "abc".repeat(KString::MAX_INLINE_LEN / 3 + 1)
    );
}

#[test]
fn test_kstringwriter_reserve_inline() {
    let mut writer = KStringWriter::new();
    writer.reserve(KString::MAX_INLINE_LEN);
    assert!(matches!(writer, KStringWriter::Inline(_)));

    let mut writer = KStringWriter::new();
    writer.push('a');
    writer.reserve(KString::MAX_INLINE_LEN - 1);
    assert!(matches!(writer, KStringWriter::Inline(_)));
}

#[test]
fn test_kstringwriter_reserve_to_owned() {
    let mut writer = KStringWriter::new();
    writer.reserve(KString::MAX_INLINE_LEN + 1);
    assert!(matches!(writer, KStringWriter::Owned(_)));

    let mut writer = KStringWriter::new();
    writer.push('a');
    writer.reserve(KString::MAX_INLINE_LEN);
    assert!(matches!(writer, KStringWriter::Owned(_)));
}

#[test]
fn test_kstringwriter_from_writer_inline() {
    let mut writer = KStringWriter::new();
    writer.push_str("abc");
    let kstring: KString = writer.into();
    assert_eq!(&kstring, "abc");
}

#[test]
fn test_kstringwriter_from_writer_owned() {
    let mut writer = KStringWriter::new();
    for _ in 0..=KString::MAX_INLINE_LEN / 3 {
        writer.push_str("abc");
    }
    let kstring: KString = writer.into();
    assert_eq!(&kstring, &"abc".repeat(KString::MAX_INLINE_LEN / 3 + 1));
}

#[test]
fn test_kstringwriter_extend_char() {
    let mut writer = KStringWriter::new();
    writer.extend("hello".chars());
    assert_eq!(writer.as_ref(), "hello");
}

#[test]
fn test_kstringwriter_extend_str() {
    let mut writer = KStringWriter::new();
    writer.extend(["he", "ll", "o"]);
    assert_eq!(writer.as_ref(), "hello");
}
