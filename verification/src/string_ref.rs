use vstd::prelude::*;

use crate::backend::HeapStr;
use crate::string::KString;
use crate::string_cow::KStringCow;

verus! {

/// A reference to a UTF-8 encoded, immutable string.
#[derive(Copy, Clone)]
pub struct KStringRef<'s> {
    pub(crate) inner: KStringRefInner<'s>,
}

#[derive(Copy, Clone, Debug)]
pub(crate) enum KStringRefInner<'s> {
    Borrowed(&'s str),
    Singleton(&'static str),
}

impl<'s> View for KStringRef<'s> {
    type V = Seq<char>;

    closed spec fn view(&self) -> Seq<char> {
        self.inner@
    }
}

impl<'s> View for KStringRefInner<'s> {
    type V = Seq<char>;

    closed spec fn view(&self) -> Seq<char> {
        match self {
            KStringRefInner::Borrowed(s) => s@,
            KStringRefInner::Singleton(s) => s@,
        }
    }
}

impl<'s> KStringRef<'s> {
    /// Whether the reference is to `'static` data.
    pub closed spec fn is_static(&self) -> bool {
        self.inner is Singleton
    }

    /// Create a new empty `KStringRef`.
    pub fn new() -> (r: Self)
        ensures
            r@ == Seq::<char>::empty(),
            r.is_static(),
    {
        let r = Self::from_static("");
        proof { reveal_strlit(""); }
        r
    }

    /// Create a reference to a `'static` data.
    pub fn from_static(other: &'static str) -> (r: Self)
        ensures
            r@ == other@,
            r.is_static(),
    {
        Self { inner: KStringRefInner::Singleton(other) }
    }

    /// Create a reference to a borrowed data.
    pub fn from_ref(other: &'s str) -> (r: Self)
        ensures
            r@ == other@,
            !r.is_static(),
    {
        Self { inner: KStringRefInner::Borrowed(other) }
    }

    /// Clone the data into an owned-type; `'static` data stays borrowed.
    pub fn to_owned<B: HeapStr>(&self) -> (r: KString<B>)
        ensures
            r@ == self@,
            self.is_static() ==> r.is_static(),
            !self.is_static() ==> r.is_stored_for(self@),
    {
        self.inner.to_owned()
    }

    /// The same data as a `KStringCow`: `'static` data stays `'static`,
    /// other data stays borrowed.
    pub(crate) fn to_cow<B: HeapStr>(&self) -> (r: KStringCow<'s, B>)
        ensures
            r@ == self@,
            r.is_static() == self.is_static(),
            !self.is_static() ==> r.is_borrowed(),
    {
        match self.inner {
            KStringRefInner::Borrowed(s) => KStringCow::from_ref(s),
            KStringRefInner::Singleton(s) => KStringCow::from_static(s),
        }
    }

    /// Extracts a string slice containing the entire `KStringRef`.
    pub fn as_str(&self) -> (r: &str)
        ensures
            r@ == self@,
    {
        self.inner.as_str()
    }

    /// Convert to a mutable string type, cloning the data.
    pub fn into_mut(self) -> (r: String)
        ensures
            r@ == self@,
    {
        self.inner.into_mut()
    }
}

impl<'s> KStringRefInner<'s> {
    fn to_owned<B: HeapStr>(&self) -> (r: KString<B>)
        ensures
            r@ == self@,
            self is Singleton ==> r.is_static(),
            self is Borrowed ==> r.is_stored_for(self@),
    {
        match self {
            Self::Borrowed(s) => KString::from_ref(s),
            Self::Singleton(s) => KString::from_static(s),
        }
    }

    fn as_str(&self) -> (r: &str)
        ensures
            r@ == self@,
    {
        match self {
            Self::Borrowed(s) => s,
            Self::Singleton(s) => s,
        }
    }

    fn into_mut(self) -> (r: String)
        ensures
            r@ == self@,
    {
        self.as_str().to_owned()
    }
}

impl<'s> Default for KStringRef<'s> {
    fn default() -> (r: Self)
        ensures
            r@ == Seq::<char>::empty(),
            r.is_static(),
    {
        Self::new()
    }
}

} // verus!
