use vstd::prelude::*;
use std::borrow::Cow;

use crate::backend::{BoxedStr, DefaultStr, HeapStr, boxed_str_from};
use crate::string::KString;
use crate::string_ref::KStringRef;
use crate::text::string_from_boxed_str;

verus! {

/// A reference to a UTF-8 encoded, immutable string, or an owned one.
pub struct KStringCow<'s, B = DefaultStr> {
    pub(crate) inner: KStringCowInner<'s, B>,
}

pub(crate) enum KStringCowInner<'s, B> {
    Borrowed(&'s str),
    Owned(KString<B>),
}

impl<'s, B: HeapStr> View for KStringCow<'s, B> {
    type V = Seq<char>;

    closed spec fn view(&self) -> Seq<char> {
        self.inner@
    }
}

impl<'s, B: HeapStr> View for KStringCowInner<'s, B> {
    type V = Seq<char>;

    closed spec fn view(&self) -> Seq<char> {
        match self {
            KStringCowInner::Borrowed(s) => s@,
            KStringCowInner::Owned(s) => s@,
        }
    }
}

impl<'s, B: HeapStr> KStringCow<'s, B> {
    /// Whether the string borrows data of lifetime `'s`.
    pub closed spec fn is_borrowed(&self) -> bool {
        self.inner is Borrowed
    }

    /// Whether the string owns a `KString` that refers to `'static` data.
    pub closed spec fn is_static(&self) -> bool {
        match self.inner {
            KStringCowInner::Owned(s) => s.is_static(),
            KStringCowInner::Borrowed(_) => false,
        }
    }

    /// The owned `KString`, where there is one.
    pub closed spec fn owned(&self) -> Option<KString<B>> {
        match self.inner {
            KStringCowInner::Owned(s) => Some(s),
            KStringCowInner::Borrowed(_) => None,
        }
    }

    /// Create a new empty `KStringCow`.
    pub fn new() -> (r: Self)
        ensures
            r@ == Seq::<char>::empty(),
            r.is_static(),
    {
        let r = Self::from_static("");
        proof { reveal_strlit(""); }
        r
    }

    /// Create a reference to a `'static` data.
    pub fn from_static(other: &'static str) -> (r: Self)
        ensures
            r@ == other@,
            r.is_static(),
    {
        Self { inner: KStringCowInner::Owned(KString::from_static(other)) }
    }

    /// Create an owned `KStringCow`, keeping the allocation.
    pub fn from_boxed(other: BoxedStr) -> (r: Self)
        ensures
            r@ == other@,
            r.owned() matches Some(k) && k.is_heap(),
    {
        Self { inner: KStringCowInner::Owned(KString::from_boxed(other)) }
    }

    /// Create an owned `KStringCow`.
    pub fn from_string(other: String) -> (r: Self)
        ensures
            r@ == other@,
            r.owned() matches Some(k) && k.is_stored_for(other@),
    {
        Self { inner: KStringCowInner::Owned(KString::from_string(other)) }
    }

    /// Owns `other`.
    pub(crate) fn from_owned(other: KString<B>) -> (r: Self)
        ensures
            r@ == other@,
            r.owned() == Some(other),
            r.is_static() == other.is_static(),
    {
        Self { inner: KStringCowInner::Owned(other) }
    }

    /// Create a reference to a borrowed data.
    pub fn from_ref(other: &'s str) -> (r: Self)
        ensures
            r@ == other@,
            r.is_borrowed(),
            !r.is_static(),
    {
        Self { inner: KStringCowInner::Borrowed(other) }
    }

    /// Get a reference to the `KStringCow`; `'static` data stays `'static`.
    pub fn get_ref(&self) -> (r: KStringRef<'_>)
        ensures
            r@ == self@,
            r.is_static() == self.is_static(),
    {
        self.inner.get_ref()
    }

    /// Clone the data into an owned-type.
    pub fn into_owned(self) -> (r: KString<B>)
        ensures
            r@ == self@,
            self.owned() matches Some(k) ==> r == k,
            self.is_borrowed() ==> r.is_stored_for(self@),
            r.is_static() == self.is_static(),
    {
        self.inner.into_owned()
    }

    /// Extracts a string slice containing the entire `KStringCow`.
    pub fn as_str(&self) -> (r: &str)
        ensures
            r@ == self@,
    {
        self.inner.as_str()
    }

    /// Convert to a mutable string type, cloning the data if necessary.
    pub fn into_string(self) -> (r: String)
        ensures
            r@ == self@,
    {
        string_from_boxed_str(self.into_boxed_str())
    }

    /// Convert to a boxed string, cloning the data if necessary.
    pub fn into_boxed_str(self) -> (r: BoxedStr)
        ensures
            r@ == self@,
    {
        self.inner.into_boxed_str()
    }

    /// Convert to a Cow str; borrowed and `'static` data stay borrowed.
    pub fn into_cow_str(self) -> (r: Cow<'s, str>)
        ensures
            r@ == self@,
            r is Borrowed <==> (self.is_borrowed() || self.is_static()),
    {
        self.inner.into_cow_str()
    }
}

impl<'s, B: HeapStr> KStringCowInner<'s, B> {
    fn get_ref(&self) -> (r: KStringRef<'_>)
        ensures
            r@ == self@,
            r.is_static() == (self matches KStringCowInner::Owned(k) && k.is_static()),
    {
        match self {
            Self::Borrowed(s) => KStringRef::from_ref(s),
            Self::Owned(s) => s.get_ref(),
        }
    }

    fn into_owned(self) -> (r: KString<B>)
        ensures
            r@ == self@,
            self matches KStringCowInner::Owned(k) ==> r == k,
            self is Borrowed ==> r.is_stored_for(self@),
            self is Borrowed ==> !r.is_static(),
    {
        match self {
            Self::Borrowed(s) => {
                let r = KString::from_ref(s);
                proof { r.lemma_one_storage(); }
                r
            },
            Self::Owned(s) => s,
        }
    }

    fn as_str(&self) -> (r: &str)
        ensures
            r@ == self@,
    {
        match self {
            Self::Borrowed(s) => s,
            Self::Owned(s) => s.as_str(),
        }
    }

    fn into_boxed_str(self) -> (r: BoxedStr)
        ensures
            r@ == self@,
    {
        match self {
            Self::Borrowed(s) => boxed_str_from(s),
            Self::Owned(s) => s.into_boxed_str(),
        }
    }

    fn into_cow_str(self) -> (r: Cow<'s, str>)
        ensures
            r@ == self@,
            r is Borrowed <==> (self is Borrowed || (self matches KStringCowInner::Owned(k)
                && k.is_static())),
    {
        match self {
            Self::Borrowed(s) => Cow::Borrowed(s),
            Self::Owned(s) => s.into_cow_str(),
        }
    }
}

impl<'s, B: HeapStr> Clone for KStringCow<'s, B> {
    fn clone(&self) -> (r: Self)
        ensures
            r@ == self@,
            r.is_borrowed() == self.is_borrowed(),
            r.is_static() == self.is_static(),
            self.owned() matches Some(k) ==> (r.owned() matches Some(c) && c.is_inline()
                == k.is_inline() && c.is_heap() == k.is_heap()),
    {
        let inner = match &self.inner {
            KStringCowInner::Borrowed(s) => KStringCowInner::Borrowed(*s),
            KStringCowInner::Owned(s) => KStringCowInner::Owned(s.clone()),
        };
        Self { inner }
    }
}

impl<'s, B: HeapStr> Default for KStringCow<'s, B> {
    fn default() -> (r: Self)
        ensures
            r@ == Seq::<char>::empty(),
            r.is_static(),
    {
        Self::new()
    }
}

} // verus!
