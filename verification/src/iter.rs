use vstd::prelude::*;
use std::borrow::Cow;

use crate::backend::{BoxedStr, HeapStr};
use crate::format::{KStringWriter, concat_strs};
use crate::string::KString;
use crate::string_cow::KStringCow;
use crate::string_ref::KStringRef;
use crate::text::utf8_len;

verus! {

impl<B: HeapStr> KString<B> {
    /// The string of the characters of `chars`, built as a `KStringWriter`
    /// builds it.
    pub(crate) fn from_chars(chars: &[char]) -> (r: Self)
        ensures
            utf8_len(chars@) <= isize::MAX ==> r@ == chars@,
            r.is_stored_for(r@),
    {
        let mut writer = KStringWriter::new();
        writer.extend_chars(chars);
        assert(Seq::<char>::empty() + chars@ =~= chars@);
        KString::from(writer)
    }

    /// The string of the strings of `strs`, one after the other, built as a
    /// `KStringWriter` builds it.
    pub(crate) fn from_strs(strs: &[&str]) -> (r: Self)
        ensures
            utf8_len(concat_strs(strs@)) <= isize::MAX ==> r@ == concat_strs(strs@),
            r.is_stored_for(r@),
    {
        let mut writer = KStringWriter::new();
        writer.extend_strs(strs);
        assert(Seq::<char>::empty() + concat_strs(strs@) =~= concat_strs(strs@));
        KString::from(writer)
    }

    /// The string of the strings of `strs`, one after the other: the static
    /// empty string when there are none, else as `from_strs` builds it.
    pub(crate) fn from_cow_strs(strs: &[&str]) -> (r: Self)
        ensures
            strs@.len() == 0 ==> r@ == Seq::<char>::empty() && r.is_static(),
            strs@.len() > 0 ==> r.is_stored_for(r@),
            utf8_len(concat_strs(strs@)) <= isize::MAX ==> r@ == concat_strs(strs@),
    {
        if strs.len() == 0 {
            KString::new()
        } else {
            Self::from_strs(strs)
        }
    }
}

/// Appends the characters in turn, as `KStringWriter::extend_chars` does.
impl Extend<char> for KStringWriter {
    #[verifier::external_body]
    fn extend<I: IntoIterator<Item = char>>(&mut self, iter: I) {
        let items: Vec<char> = iter.into_iter().collect();
        self.extend_chars(&items);
    }
}

/// The characters one after the other, as `KString::from_chars` builds them.
impl<B: HeapStr> FromIterator<char> for KString<B> {
    #[verifier::external_body]
    fn from_iter<I: IntoIterator<Item = char>>(iter: I) -> Self {
        let items: Vec<char> = iter.into_iter().collect();
        Self::from_chars(&items)
    }
}

/// Appends the characters in turn, as `KStringWriter::extend_chars` does.
impl<'a> Extend<&'a char> for KStringWriter {
    #[verifier::external_body]
    fn extend<I: IntoIterator<Item = &'a char>>(&mut self, iter: I) {
        let items: Vec<char> = iter.into_iter().copied().collect();
        self.extend_chars(&items);
    }
}

/// The characters one after the other, as `KString::from_chars` builds them.
impl<'a, B: HeapStr> FromIterator<&'a char> for KString<B> {
    #[verifier::external_body]
    fn from_iter<I: IntoIterator<Item = &'a char>>(iter: I) -> Self {
        let items: Vec<char> = iter.into_iter().copied().collect();
        Self::from_chars(&items)
    }
}

/// Appends the strings in turn, as `KStringWriter::extend_strs` does.
impl<'a> Extend<&'a str> for KStringWriter {
    #[verifier::external_body]
    fn extend<I: IntoIterator<Item = &'a str>>(&mut self, iter: I) {
        let items: Vec<&str> = iter.into_iter().collect();
        self.extend_strs(&items);
    }
}

/// The strings one after the other, as `KString::from_strs` builds them.
impl<'a, B: HeapStr> FromIterator<&'a str> for KString<B> {
    #[verifier::external_body]
    fn from_iter<I: IntoIterator<Item = &'a str>>(iter: I) -> Self {
        let items: Vec<&str> = iter.into_iter().collect();
        Self::from_strs(&items)
    }
}

/// Appends the strings in turn, as `KStringWriter::extend_strs` does.
impl Extend<BoxedStr> for KStringWriter {
    #[verifier::external_body]
    fn extend<I: IntoIterator<Item = BoxedStr>>(&mut self, iter: I) {
        let items: Vec<BoxedStr> = iter.into_iter().collect();
        let strs: Vec<&str> = items.iter().map(|s| -> &str { s }).collect();
        self.extend_strs(&strs);
    }
}

/// The strings one after the other, as `KString::from_strs` builds them.
impl<B: HeapStr> FromIterator<BoxedStr> for KString<B> {
    #[verifier::external_body]
    fn from_iter<I: IntoIterator<Item = BoxedStr>>(iter: I) -> Self {
        let items: Vec<BoxedStr> = iter.into_iter().collect();
        let strs: Vec<&str> = items.iter().map(|s| -> &str { s }).collect();
        Self::from_strs(&strs)
    }
}

/// Appends the strings in turn, as `KStringWriter::extend_strs` does.
impl Extend<String> for KStringWriter {
    #[verifier::external_body]
    fn extend<I: IntoIterator<Item = String>>(&mut self, iter: I) {
        let items: Vec<String> = iter.into_iter().collect();
        let strs: Vec<&str> = items.iter().map(|s| -> &str { s }).collect();
        self.extend_strs(&strs);
    }
}

/// Appends the strings in turn, as `KStringWriter::extend_strs` does.
impl<'a> Extend<Cow<'a, str>> for KStringWriter {
    #[verifier::external_body]
    fn extend<I: IntoIterator<Item = Cow<'a, str>>>(&mut self, iter: I) {
        let items: Vec<Cow<'a, str>> = iter.into_iter().collect();
        let strs: Vec<&str> = items.iter().map(|s| -> &str { s }).collect();
        self.extend_strs(&strs);
    }
}

/// The strings one after the other, as `KString::from_cow_strs` builds them:
/// no strings at all give the static empty string.
impl<'a, B: HeapStr> FromIterator<Cow<'a, str>> for KString<B> {
    #[verifier::external_body]
    fn from_iter<I: IntoIterator<Item = Cow<'a, str>>>(iter: I) -> Self {
        let items: Vec<Cow<'a, str>> = iter.into_iter().collect();
        let strs: Vec<&str> = items.iter().map(|s| -> &str { s }).collect();
        Self::from_cow_strs(&strs)
    }
}

/// Appends the strings in turn, as `KStringWriter::extend_strs` does.
impl<'a, D: HeapStr> Extend<&'a KString<D>> for KStringWriter {
    #[verifier::external_body]
    fn extend<I: IntoIterator<Item = &'a KString<D>>>(&mut self, iter: I) {
        let items: Vec<&'a KString<D>> = iter.into_iter().collect();
        let strs: Vec<&str> = items.iter().map(|s| -> &str { s }).collect();
        self.extend_strs(&strs);
    }
}

/// The strings one after the other, as `KString::from_strs` builds them.
impl<'a, D: HeapStr, B: HeapStr> FromIterator<&'a KString<D>> for KString<B> {
    #[verifier::external_body]
    fn from_iter<I: IntoIterator<Item = &'a KString<D>>>(iter: I) -> Self {
        let items: Vec<&'a KString<D>> = iter.into_iter().collect();
        let strs: Vec<&str> = items.iter().map(|s| -> &str { s }).collect();
        Self::from_strs(&strs)
    }
}

/// Appends the strings in turn, as `KStringWriter::extend_strs` does.
impl<D: HeapStr> Extend<KString<D>> for KStringWriter {
    #[verifier::external_body]
    fn extend<I: IntoIterator<Item = KString<D>>>(&mut self, iter: I) {
        let items: Vec<KString<D>> = iter.into_iter().collect();
        let strs: Vec<&str> = items.iter().map(|s| -> &str { s }).collect();
        self.extend_strs(&strs);
    }
}

/// The strings one after the other, as `KString::from_strs` builds them.
impl<D: HeapStr, B: HeapStr> FromIterator<KString<D>> for KString<B> {
    #[verifier::external_body]
    fn from_iter<I: IntoIterator<Item = KString<D>>>(iter: I) -> Self {
        let items: Vec<KString<D>> = iter.into_iter().collect();
        let strs: Vec<&str> = items.iter().map(|s| -> &str { s }).collect();
        Self::from_strs(&strs)
    }
}

/// Appends the strings in turn, as `KStringWriter::extend_strs` does.
impl<'a, 's, D: HeapStr> Extend<&'a KStringCow<'s, D>> for KStringWriter {
    #[verifier::external_body]
    fn extend<I: IntoIterator<Item = &'a KStringCow<'s, D>>>(&mut self, iter: I) {
        let items: Vec<&'a KStringCow<'s, D>> = iter.into_iter().collect();
        let strs: Vec<&str> = items.iter().map(|s| -> &str { s }).collect();
        self.extend_strs(&strs);
    }
}

/// The strings one after the other, as `KString::from_strs` builds them.
impl<'a, 's, D: HeapStr, B: HeapStr> FromIterator<&'a KStringCow<'s, D>> for KString<B> {
    #[verifier::external_body]
    fn from_iter<I: IntoIterator<Item = &'a KStringCow<'s, D>>>(iter: I) -> Self {
        let items: Vec<&'a KStringCow<'s, D>> = iter.into_iter().collect();
        let strs: Vec<&str> = items.iter().map(|s| -> &str { s }).collect();
        Self::from_strs(&strs)
    }
}

/// Appends the strings in turn, as `KStringWriter::extend_strs` does.
impl<'s, D: HeapStr> Extend<KStringCow<'s, D>> for KStringWriter {
    #[verifier::external_body]
    fn extend<I: IntoIterator<Item = KStringCow<'s, D>>>(&mut self, iter: I) {
        let items: Vec<KStringCow<'s, D>> = iter.into_iter().collect();
        let strs: Vec<&str> = items.iter().map(|s| -> &str { s }).collect();
        self.extend_strs(&strs);
    }
}

/// The strings one after the other, as `KString::from_strs` builds them.
impl<'s, D: HeapStr, B: HeapStr> FromIterator<KStringCow<'s, D>> for KString<B> {
    #[verifier::external_body]
    fn from_iter<I: IntoIterator<Item = KStringCow<'s, D>>>(iter: I) -> Self {
        let items: Vec<KStringCow<'s, D>> = iter.into_iter().collect();
        let strs: Vec<&str> = items.iter().map(|s| -> &str { s }).collect();
        Self::from_strs(&strs)
    }
}

/// Appends the strings in turn, as `KStringWriter::extend_strs` does.
impl<'a, 's> Extend<&'a KStringRef<'s>> for KStringWriter {
    #[verifier::external_body]
    fn extend<I: IntoIterator<Item = &'a KStringRef<'s>>>(&mut self, iter: I) {
        let items: Vec<&'a KStringRef<'s>> = iter.into_iter().collect();
        let strs: Vec<&str> = items.iter().map(|s| -> &str { s }).collect();
        self.extend_strs(&strs);
    }
}

/// The strings one after the other, as `KString::from_strs` builds them.
impl<'a, 's, B: HeapStr> FromIterator<&'a KStringRef<'s>> for KString<B> {
    #[verifier::external_body]
    fn from_iter<I: IntoIterator<Item = &'a KStringRef<'s>>>(iter: I) -> Self {
        let items: Vec<&'a KStringRef<'s>> = iter.into_iter().collect();
        let strs: Vec<&str> = items.iter().map(|s| -> &str { s }).collect();
        Self::from_strs(&strs)
    }
}

/// Appends the strings in turn, as `KStringWriter::extend_strs` does.
impl<'s> Extend<KStringRef<'s>> for KStringWriter {
    #[verifier::external_body]
    fn extend<I: IntoIterator<Item = KStringRef<'s>>>(&mut self, iter: I) {
        let items: Vec<KStringRef<'s>> = iter.into_iter().collect();
        let strs: Vec<&str> = items.iter().map(|s| -> &str { s }).collect();
        self.extend_strs(&strs);
    }
}

/// The strings one after the other, as `KString::from_strs` builds them.
impl<'s, B: HeapStr> FromIterator<KStringRef<'s>> for KString<B> {
    #[verifier::external_body]
    fn from_iter<I: IntoIterator<Item = KStringRef<'s>>>(iter: I) -> Self {
        let items: Vec<KStringRef<'s>> = iter.into_iter().collect();
        let strs: Vec<&str> = items.iter().map(|s| -> &str { s }).collect();
        Self::from_strs(&strs)
    }
}

} // verus!
