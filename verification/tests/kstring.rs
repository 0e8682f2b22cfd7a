use kstring2::backend::{ArcStr, BoxedStr, RcStr};
use kstring2::{KString, KStringCow, KStringRef, KStringWriter, StackString};
use std::borrow::Cow;
use std::collections::HashMap;
use std::fmt::Write;

#[test]
fn stack_try_new_fits_or_not() {
    let s = StackString::<3>::try_new("foo");
    assert_eq!(s.as_ref().map(|s| s.as_str()), Some("foo"));
    let s = StackString::<3>::try_new("foobar");
    assert!(s.is_none());
}

#[test]
fn stack_len_counts_bytes() {
    let a = StackString::<3>::try_new("foo").unwrap();
    assert_eq!(a.len(), 3);
    let fancy_f = StackString::<4>::try_new("ƒoo").unwrap();
    assert_eq!(fancy_f.len(), 4);
    assert_eq!(fancy_f.as_str().chars().count(), 3);
}

#[test]
fn stack_empty_clear_truncate() {
    let v = StackString::<20>::empty();
    assert!(v.is_empty());
    let mut s = StackString::<3>::new("foo");
    assert!(!s.is_empty());
    s.clear();
    assert!(s.is_empty());
    assert_eq!(s.len(), 0);
    let mut s = StackString::<5>::new("hello");
    s.truncate(2);
    assert_eq!(s, "he");
    s.truncate(10);
    assert_eq!(s, "he");
}

#[test]
fn stack_push_and_try_push() {
    let mut s = StackString::<6>::new("foo");
    assert!(s.try_push("bar"));
    assert_eq!(s, "foobar");
    assert!(!s.try_push("baz"));
    assert_eq!(s, "foobar");
    let mut s = StackString::<5>::new("Hell");
    assert!(s.try_push_char('o'));
    assert_eq!(s, "Hello");
    assert!(!s.try_push_char('b'));
    let mut s = StackString::<6>::new("foo");
    s.push("bar");
    assert_eq!(s.as_str(), "foobar");
    let mut s = StackString::<4>::new("x");
    s.push_char('ƒ');
    assert_eq!(s.len(), 3);
    assert_eq!(s, "xƒ");
}

#[test]
fn stack_truncate_undoes_push() {
    let mut s = StackString::<10>::new("añb");
    let before = s;
    let n = s.len();
    s.push("çd");
    s.truncate(n);
    assert_eq!(s, before);
}

#[test]
fn stack_try_from_and_into_string() {
    let s: StackString<5> = StackString::try_from("abc").unwrap();
    assert_eq!(String::from(s), "abc");
    assert_eq!(String::from(&s), "abc");
    assert!(StackString::<2>::try_from("abc").is_err());
    assert_eq!(StackString::<300>::try_from("abc").unwrap(), "abc");
    assert!(StackString::<300>::try_from("x".repeat(256).as_str()).is_err());
    assert!(StackString::<300>::try_from("x".repeat(255).as_str()).is_ok());
    assert!(StackString::<3>::try_from(String::from("abc")).is_ok());
}

#[test]
fn stack_order_and_eq() {
    let a = StackString::<5>::new("abc");
    let b = StackString::<7>::new("abd");
    assert!(a < b);
    assert!(a != b);
    assert_eq!(a, StackString::<3>::new("abc"));
    assert!(a == String::from("abc"));
}

#[test]
fn kstring_constructors_read_back() {
    let long = "this is longer than fifteen bytes";
    assert_eq!(<KString>::from_static("literal"), "literal");
    assert_eq!(<KString>::from_ref("stack"), "stack");
    assert_eq!(<KString>::from_ref(long), long);
    assert_eq!(<KString>::from_string(long.to_string()), long);
    assert_eq!(<KString>::from_string("short".to_string()), "short");
    assert_eq!(<KString>::from_boxed(Box::from("boxed")), "boxed");
    assert_eq!(<KString>::new(), "");
    assert_eq!(<KString>::default(), "");
    assert!(<KString>::try_inline("stack").is_some());
    assert!(<KString>::try_inline(long).is_none());
    assert!(<KString>::try_inline("exactly 15 byte").is_some());
    assert!(<KString>::try_inline("exactly 16 bytes").is_none());
    assert_eq!(KString::MAX_INLINE_LEN, 15);
}

#[test]
fn kstring_from_utf8() {
    let sparkle_heart = vec![240, 159, 146, 150];
    let kstr = <KString>::from_utf8(sparkle_heart).unwrap();
    assert_eq!(&kstr, "💖");
    assert!(<KString>::from_utf8(vec![0, 159, 146, 150]).is_err());
    assert_eq!(<KString>::from_utf8_bytes(&[240, 159, 146, 150]).unwrap(), "💖");
    assert!(<KString>::from_utf8_bytes(&[0xC0, 0x80]).is_none());
}

#[test]
fn kstring_from_utf16() {
    let sparkle_heart = [0xD83D, 0xDC96];
    let kstr = <KString>::from_utf16(&sparkle_heart).unwrap();
    assert_eq!(&kstr, "💖");
    assert!(<KString>::from_utf16(&[0xD83D, 0x0061]).is_err());
    assert_eq!(<KString>::from_utf16(&[0x0061, 0x00e9]).unwrap(), "aé");
}

#[test]
fn kstring_conversions_out() {
    let long = "this is longer than fifteen bytes";
    assert_eq!(<KString>::from_ref(long).into_string(), long);
    assert_eq!(&*<KString>::from_ref("abc").into_boxed_str(), "abc");
    assert!(matches!(<KString>::from_static("s").into_cow_str(), Cow::Borrowed("s")));
    let c = <KString>::from_ref("abc").into_cow_str();
    assert!(matches!(c, Cow::Owned(_)));
    assert_eq!(c, "abc");
    let k = <KString>::from_static("static");
    assert_eq!(k.get_ref(), "static");
    assert_eq!(k.clone(), k);
    assert_eq!(k.as_str(), "static");
}

#[test]
fn kstring_equality_ignores_storage() {
    let long = "this is longer than fifteen bytes";
    let a = <KString>::from_static(long);
    let b = <KString>::from_ref(long);
    assert_eq!(a, b);
    assert!(a == long);
    assert!(a == *long);
    assert!(a == long.to_string());
    assert!(<KString>::from_ref("a") < <KString>::from_ref("b"));
    assert!(<KString>::from_ref("ab") > <KString>::from_ref("a"));
    assert_eq!(
        <KString>::from_ref("b").cmp(&<KString>::from_ref("a")),
        std::cmp::Ordering::Greater
    );
}

#[test]
fn kstring_map_key_by_str() {
    let mut map: HashMap<KString, u32> = HashMap::new();
    map.insert(<KString>::from_static("one"), 1);
    map.insert(<KString>::from_ref("a key that lives on the heap"), 2);
    assert_eq!(map.get("one"), Some(&1));
    assert_eq!(map.get("a key that lives on the heap"), Some(&2));
    assert_eq!(map.get("two"), None);
}

#[test]
fn kstring_from_traits() {
    let k: KString = "abc".into();
    assert_eq!(k, "abc");
    let k: KString = String::from("abc").into();
    assert_eq!(k, "abc");
    let k: KString = (&String::from("abc")).into();
    assert_eq!(k, "abc");
    let b: BoxedStr = Box::from("boxed");
    let k: KString = (&b).into();
    assert_eq!(k, "boxed");
    let k: KString = b.into();
    assert_eq!(k, "boxed");
    let k: KString = KStringRef::from_static("r").into();
    assert_eq!(k, "r");
    let k: KString = KStringCow::from_ref("c").into();
    assert_eq!(k, "c");
    let k: KString = "parsed".parse().unwrap();
    assert_eq!(k, "parsed");
    let s = StackString::<15>::new("inline");
    let k: KString = s.into();
    assert_eq!(k, "inline");
}

#[test]
fn kstring_collect() {
    let k: KString = "hello".chars().collect();
    assert_eq!(k, "hello");
    let k: KString = ["he", "ll", "o"].into_iter().collect();
    assert_eq!(k, "hello");
    let k: KString = vec![BoxedStr::from("ab"), BoxedStr::from("cd")].into_iter().collect();
    assert_eq!(k, "abcd");
    let parts = [<KString>::from_ref("x"), <KString>::from_ref("y")];
    let k: KString = parts.iter().collect();
    assert_eq!(k, "xy");
    let k: KString = Vec::<char>::new().into_iter().collect();
    assert_eq!(k, "");
}

#[test]
fn kstring_other_backends() {
    let long = "this is longer than fifteen bytes";
    let a = KString::<ArcStr>::from_ref(long);
    assert_eq!(a.clone(), long);
    let r = KString::<RcStr>::from_boxed(Box::from(long));
    assert_eq!(r.as_str(), long);
}

#[test]
fn cow_roundtrips() {
    let s = String::from("borrowed data");
    let c: KStringCow = KStringCow::from_ref(&s);
    assert_eq!(c, "borrowed data");
    assert!(matches!(c.clone().into_cow_str(), Cow::Borrowed(_)));
    assert_eq!(c.clone().into_owned(), "borrowed data");
    assert_eq!(c.get_ref(), "borrowed data");
    assert_eq!(c.into_string(), "borrowed data");
    let c: KStringCow = KStringCow::from_static("st");
    assert!(matches!(c.clone().into_cow_str(), Cow::Borrowed("st")));
    let c: KStringCow = KStringCow::from_string(String::from("owned"));
    assert!(matches!(c.clone().into_cow_str(), Cow::Owned(_)));
    assert_eq!(&*c.into_boxed_str(), "owned");
    assert_eq!(<KStringCow>::new(), "");
    let k = <KString>::from_ref("k");
    let c: KStringCow = (&k).into();
    assert_eq!(c, "k");
    let c: KStringCow = "parsed".parse().unwrap();
    assert_eq!(c, "parsed");
}

#[test]
fn ref_roundtrips() {
    let r = KStringRef::from_static("static");
    let k: KString = r.to_owned();
    assert_eq!(k, "static");
    assert_eq!(r.into_mut(), String::from("static"));
    let s = String::from("borrowed");
    let r = KStringRef::from_ref(&s);
    assert_eq!(r.as_str(), "borrowed");
    assert_eq!(KStringRef::new(), "");
    assert!(KStringRef::from_ref("a") < KStringRef::from_ref("b"));
    let r: KStringRef = (&s).into();
    assert_eq!(r, "borrowed");
}

#[test]
fn writer_write_str_and_extend() {
    let mut w = KStringWriter::default();
    w.write_str("Hello, ").unwrap();
    w.write_str("world!").unwrap();
    let s: KString = w.into();
    assert_eq!(s, "Hello, world!");
    let mut w = KStringWriter::new();
    w.extend(['a', 'b'].iter());
    w.extend(vec![String::from("cd")]);
    assert_eq!(w.as_str(), "abcd");
    let mut w = KStringWriter::new();
    w.push_str("short");
    w.reserve(100);
    assert!(matches!(w, KStringWriter::Owned(_)));
    assert_eq!(w.as_str(), "short");
    let s: KString = w.into();
    assert_eq!(s, "short");
}

#[test]
fn kstring_heap_clone_and_shared_backends() {
    let long = "another string that is too long to inline";
    let k = <KString>::from_ref(long);
    let c = k.clone();
    assert_eq!(c, long);
    assert_eq!(c.into_boxed_str().len(), long.len());
    let r = KString::<RcStr>::from_ref(long);
    assert_eq!(r.clone().as_str(), long);
    let a = KString::<ArcStr>::from_string(long.to_string());
    assert_eq!(a.into_string(), long);
}

#[test]
fn kstring_collect_cows() {
    let k: KString = Vec::<Cow<str>>::new().into_iter().collect();
    assert!(matches!(k.into_cow_str(), Cow::Borrowed("")));
    let k: KString = vec![Cow::Borrowed("ab"), Cow::Owned(String::from("cd"))]
        .into_iter()
        .collect();
    assert_eq!(k, "abcd");
    let k: KString = vec![Cow::Borrowed("")].into_iter().collect();
    assert!(matches!(k.into_cow_str(), Cow::Owned(_)));
}
