use vstd::prelude::*;
use vstd::utf8::*;
use vstd::string::StringSliceAdditionalSpecFns;
use std::string::{FromUtf8Error, FromUtf16Error};

verus! {

broadcast use vstd::utf8::group_utf8_lib;

/// The number of bytes in the UTF-8 encoding of `chars`.
pub open spec fn utf8_len(chars: Seq<char>) -> nat {
    encode_utf8(chars).len()
}

/// The encoding of a concatenation is the concatenation of the encodings.
pub proof fn lemma_encode_utf8_concat(a: Seq<char>, b: Seq<char>)
    ensures
        encode_utf8(a + b) == encode_utf8(a) + encode_utf8(b),
    decreases a.len(),
{
    if a.len() == 0 {
        assert(a + b =~= b);
        assert(encode_utf8(a) =~= Seq::<u8>::empty());
        assert(encode_utf8(a) + encode_utf8(b) =~= encode_utf8(b));
    } else {
        lemma_encode_utf8_concat(a.drop_first(), b);
        assert((a + b).drop_first() =~= a.drop_first() + b);
        assert((a + b)[0] == a[0]);
        assert(encode_utf8(a + b) =~= encode_scalar(a[0] as u32) + encode_utf8(a.drop_first() + b));
        assert(encode_utf8(a) + encode_utf8(b) =~= encode_scalar(a[0] as u32) + (encode_utf8(
            a.drop_first(),
        ) + encode_utf8(b)));
    }
}

/// Only the empty sequence has an empty encoding.
pub proof fn lemma_utf8_len_zero(a: Seq<char>)
    ensures
        (utf8_len(a) == 0) == (a.len() == 0),
{
    if a.len() > 0 {
        vstd::utf8::char_is_scalar(a[0]);
        assert(encode_scalar(a[0] as u32).len() >= 1);
        assert(encode_utf8(a) == encode_scalar(a[0] as u32) + encode_utf8(a.drop_first()));
    }
}

/// A character is encoded in one to four bytes.
pub proof fn lemma_utf8_len_char(c: char)
    ensures
        1 <= utf8_len(seq![c]) <= 4,
{
    vstd::utf8::char_is_scalar(c);
    assert(seq![c].drop_first() =~= Seq::<char>::empty());
    assert(encode_utf8(seq![c]) =~= encode_scalar(c as u32) + encode_utf8(Seq::<char>::empty()));
}

/// The UTF-8 length of a concatenation is the sum of the lengths.
pub proof fn law_utf8_len_concat(a: Seq<char>, b: Seq<char>)
    ensures
        utf8_len(a + b) == utf8_len(a) + utf8_len(b),
{
    lemma_encode_utf8_concat(a, b);
}

/// Where two valid encodings meet lies a character boundary.
pub proof fn lemma_concat_boundary(x: Seq<u8>, y: Seq<u8>)
    requires
        valid_utf8(x),
        valid_utf8(y),
    ensures
        valid_utf8(x + y),
        is_char_boundary(x + y, x.len() as int),
{
    valid_utf8_concat(x, y);
    if y.len() == 0 {
        assert(x + y =~= x);
        is_char_boundary_start_end_of_seq(x);
    } else {
        is_char_boundary_start_end_of_seq(y);
        is_char_boundary_iff_is_leading_byte(y, 0);
        is_char_boundary_iff_is_leading_byte(x + y, x.len() as int);
        assert((x + y)[x.len() as int] == y[0]);
    }
}

/// ASCII characters take one byte each.
pub proof fn lemma_ascii_utf8_len(chars: Seq<char>)
    requires
        is_ascii_chars(chars),
    ensures
        utf8_len(chars) == chars.len(),
{
    is_ascii_chars_encode_utf8(chars);
}

/// Two texts are equal exactly when their UTF-8 bytes are.
pub proof fn lemma_encode_utf8_injective(a: Seq<char>, b: Seq<char>)
    ensures
        (encode_utf8(a) == encode_utf8(b)) == (a == b),
{
    if encode_utf8(a) == encode_utf8(b) {
        assert(a == decode_utf8(encode_utf8(a)));
        assert(b == decode_utf8(encode_utf8(b)));
    }
}

/// Whether the bytes `x` come before the bytes `y`: `x` is a proper prefix
/// of `y`, or at the first place where they differ `x` has the smaller byte.
pub open spec fn bytes_before(x: Seq<u8>, y: Seq<u8>) -> bool {
    ||| x.len() < y.len() && x == y.take(x.len() as int)
    ||| exists|i: int| 0 <= i < x.len() && i < y.len() && x.take(i) == y.take(i) && x[i] < y[i]
}

/// `bytes_before` decided at the first byte: nothing comes before the empty
/// sequence, the empty sequence comes before every other, and otherwise the
/// first bytes decide unless they are equal, when the rest does.
pub proof fn lemma_bytes_before_step(x: Seq<u8>, y: Seq<u8>)
    ensures
        y.len() == 0 ==> !bytes_before(x, y),
        x.len() == 0 ==> (bytes_before(x, y) == (y.len() > 0)),
        x.len() > 0 && y.len() > 0 ==> (bytes_before(x, y) == (x[0] < y[0] || (x[0] == y[0]
            && bytes_before(x.drop_first(), y.drop_first())))),
{
    if x.len() == 0 && y.len() > 0 {
        assert(x =~= y.take(0));
    }
    if x.len() > 0 && y.len() > 0 {
        let xs = x.drop_first();
        let ys = y.drop_first();
        if x[0] < y[0] {
            assert(x.take(0) =~= y.take(0));
        }
        if bytes_before(x, y) && !(x[0] < y[0]) {
            if x.len() < y.len() && x == y.take(x.len() as int) {
                assert(x[0] == y.take(x.len() as int)[0]);
                assert(xs =~= ys.take(xs.len() as int));
            } else {
                let i = choose|i: int|
                    0 <= i < x.len() && i < y.len() && x.take(i) == y.take(i) && x[i] < y[i];
                assert(i > 0);
                assert(x[0] == x.take(i)[0]);
                assert(y[0] == y.take(i)[0]);
                assert(xs.take(i - 1) =~= ys.take(i - 1)) by {
                    assert forall|j: int| 0 <= j < i - 1 implies #[trigger] xs.take(i - 1)[j] == ys.take(i - 1)[j] by {
                        assert(x.take(i)[j + 1] == y.take(i)[j + 1]);
                    }
                }
                assert(xs[i - 1] == x[i]);
            }
        }
        if x[0] == y[0] && bytes_before(xs, ys) {
            if xs.len() < ys.len() && xs == ys.take(xs.len() as int) {
                assert(x =~= y.take(x.len() as int)) by {
                    assert forall|j: int| 0 <= j < x.len() implies #[trigger] x[j] == y.take(
                        x.len() as int,
                    )[j] by {
                        if j > 0 {
                            assert(xs[j - 1] == ys.take(xs.len() as int)[j - 1]);
                        }
                    }
                }
            } else {
                let i = choose|i: int|
                    0 <= i < xs.len() && i < ys.len() && xs.take(i) == ys.take(i) && xs[i] < ys[i];
                assert(x.take(i + 1) =~= y.take(i + 1)) by {
                    assert forall|j: int| 0 <= j < i + 1 implies #[trigger] x.take(i + 1)[j] == y.take(i + 1)[j] by {
                        if j > 0 {
                            assert(xs.take(i)[j - 1] == ys.take(i)[j - 1]);
                        }
                    }
                }
                assert(x[i + 1] == xs[i]);
            }
        }
    }
}

/// The length of `s` in bytes.
pub(crate) fn byte_len(s: &str) -> (r: usize)
    ensures
        r == utf8_len(s@),
{
    s.as_bytes().len()
}

/// `<str as PartialEq>::eq`: two string slices are equal when they hold the
/// same characters.
#[verifier::external_body]
pub(crate) fn str_eq(a: &str, b: &str) -> (r: bool)
    ensures
        r == (a@ == b@),
{
    a == b
}

/// `core::str::from_utf8`: std documents that it succeeds exactly when the
/// bytes are valid UTF-8, and that the resulting `str` is made of those bytes.
#[verifier::external_body]
pub(crate) fn str_from_utf8(bytes: &[u8]) -> (r: Option<&str>)
    ensures
        r is Some <==> valid_utf8(bytes@),
        r matches Some(s) ==> s.spec_bytes() == bytes@,
{
    core::str::from_utf8(bytes).ok()
}

/// The number of bytes of the character's UTF-8 encoding, as
/// `char::len_utf8` gives it.
pub(crate) fn char_len_utf8(c: char) -> (r: usize)
    ensures
        r == utf8_len(seq![c]),
{
    let u = c as u32;
    proof {
        vstd::utf8::char_is_scalar(c);
        assert(seq![c].drop_first() =~= Seq::<char>::empty());
        assert(encode_utf8(seq![c]) =~= encode_scalar(u) + encode_utf8(Seq::<char>::empty()));
    }
    if u < 0x80 {
        1
    } else if u < 0x800 {
        2
    } else if u < 0x10000 {
        3
    } else {
        4
    }
}

/// `char::encode_utf8`: writes the character's UTF-8 encoding at the start
/// of a four-byte buffer.
#[verifier::external_body]
pub(crate) fn char_encode_utf8(c: char) -> (r: [u8; 4])
    ensures
        r@.take(utf8_len(seq![c]) as int) == encode_utf8(seq![c]),
{
    let mut buf = [0u8; 4];
    c.encode_utf8(&mut buf);
    buf
}

/// The characters that a sequence of UTF-16 code units stands for, or
/// `None` where a surrogate is left unpaired.
pub open spec fn decode_utf16(units: Seq<u16>) -> Option<Seq<char>>
    decreases units.len(),
{
    if units.len() == 0 {
        Some(Seq::<char>::empty())
    } else if units[0] < 0xD800 || units[0] > 0xDFFF {
        match decode_utf16(units.drop_first()) {
            Some(rest) => Some(seq![units[0] as char] + rest),
            None => None,
        }
    } else if units[0] <= 0xDBFF && units.len() >= 2 && 0xDC00 <= units[1] <= 0xDFFF {
        let scalar = 0x10000 + (units[0] - 0xD800) * 0x400 + (units[1] - 0xDC00);
        match decode_utf16(units.subrange(2, units.len() as int)) {
            Some(rest) => Some(seq![scalar as char] + rest),
            None => None,
        }
    } else {
        None
    }
}

#[verifier::external_type_specification]
#[verifier::external_body]
pub struct ExFromUtf8Error(FromUtf8Error);

#[verifier::external_type_specification]
#[verifier::external_body]
pub struct ExFromUtf16Error(FromUtf16Error);

/// `String::from_utf8`: std documents that it fails exactly when the bytes
/// are not valid UTF-8, and otherwise keeps them as the string's bytes.
#[verifier::external_body]
pub(crate) fn string_from_utf8(vec: Vec<u8>) -> (r: Result<String, FromUtf8Error>)
    ensures
        r is Ok <==> valid_utf8(vec@),
        r matches Ok(s) ==> s@ == decode_utf8(vec@),
{
    String::from_utf8(vec)
}

/// `String::from_utf16`: std documents that it decodes UTF-16 and fails
/// where the input holds invalid data (an unpaired surrogate).
#[verifier::external_body]
pub(crate) fn string_from_utf16(v: &[u16]) -> (r: Result<String, FromUtf16Error>)
    ensures
        r is Ok <==> decode_utf16(v@) is Some,
        r matches Ok(s) ==> decode_utf16(v@) == Some(s@),
{
    String::from_utf16(v)
}

/// `String::into_boxed_str`: the same characters, in a box.
#[verifier::external_body]
pub(crate) fn string_into_boxed_str(s: String) -> (r: Box<str>)
    ensures
        r@ == s@,
{
    s.into_boxed_str()
}

/// `<String as From<Box<str>>>::from`: the same characters, as a `String`.
#[verifier::external_body]
pub(crate) fn string_from_boxed_str(s: Box<str>) -> (r: String)
    ensures
        r@ == s@,
{
    String::from(s)
}

/// `String::with_capacity`: an empty string; std documents a panic past
/// `isize::MAX` bytes.
#[verifier::external_body]
pub(crate) fn string_with_capacity(capacity: usize) -> (r: String)
    requires
        capacity <= isize::MAX,
    ensures
        r@ == Seq::<char>::empty(),
{
    String::with_capacity(capacity)
}

/// `String::reserve`: the characters stay as they are; std documents a panic
/// when the needed capacity passes `isize::MAX` bytes.
#[verifier::external_body]
pub(crate) fn string_reserve(s: &mut String, additional: usize)
    requires
        utf8_len(old(s)@) + additional <= isize::MAX,
    ensures
        final(s)@ == old(s)@,
{
    s.reserve(additional)
}

/// `String::push`: appends one character; std documents a panic when the
/// needed capacity passes `isize::MAX` bytes.
#[verifier::external_body]
pub(crate) fn string_push(s: &mut String, c: char)
    requires
        utf8_len(old(s)@) + utf8_len(seq![c]) <= isize::MAX,
    ensures
        final(s)@ == old(s)@.push(c),
{
    s.push(c)
}

/// `String::push_str`: appends a string slice; std documents a panic when
/// the needed capacity passes `isize::MAX` bytes.
#[verifier::external_body]
pub(crate) fn string_push_str(s: &mut String, other: &str)
    requires
        utf8_len(old(s)@) + utf8_len(other@) <= isize::MAX,
    ensures
        final(s)@ == old(s)@ + other@,
{
    s.push_str(other)
}

} // verus!
