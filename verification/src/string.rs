use vstd::prelude::*;
use std::borrow::Cow;
use std::string::{FromUtf8Error, FromUtf16Error};

use crate::backend::{BoxedStr, DefaultStr, HeapStr, boxed_str_from};
use crate::stack::StackString;
use crate::string_ref::KStringRef;
use crate::text::{
    utf8_len, decode_utf16, str_from_utf8, string_from_utf8, string_from_utf16, string_into_boxed_str,
    string_from_boxed_str,
};

verus! {

broadcast use vstd::utf8::group_utf8_lib;

/// How many bytes a `KString` holds without going to the heap: the size of
/// a `Box<str>` on a 64-bit target, less the byte that counts the length.
pub(crate) const CAPACITY: usize = 15;

/// A UTF-8 encoded, immutable string.
pub struct KString<B = DefaultStr> {
    pub(crate) inner: KStringInner<B>,
}

pub(crate) enum KStringInner<B> {
    Singleton(&'static str),
    Inline(StackString<CAPACITY>),
    Owned(B),
}

/// Whether a string of these characters fits inline.
pub open spec fn fits_inline(chars: Seq<char>) -> bool {
    utf8_len(chars) <= KString::MAX_INLINE_LEN
}

impl<B: HeapStr> View for KString<B> {
    type V = Seq<char>;

    closed spec fn view(&self) -> Seq<char> {
        self.inner@
    }
}

impl<B: HeapStr> View for KStringInner<B> {
    type V = Seq<char>;

    closed spec fn view(&self) -> Seq<char> {
        match self {
            KStringInner::Singleton(s) => s@,
            KStringInner::Inline(s) => s@,
            KStringInner::Owned(s) => s.str_view(),
        }
    }
}

impl KString {
    /// Maximum length of string which can be created without alloc in heap
    pub const MAX_INLINE_LEN: usize = 15;
}

impl<B: HeapStr> KString<B> {
    /// Whether the string refers to `'static` data.
    pub closed spec fn is_static(&self) -> bool {
        self.inner is Singleton
    }

    /// Whether the string is held inline.
    pub closed spec fn is_inline(&self) -> bool {
        self.inner is Inline
    }

    /// Whether the string is held on the heap.
    pub closed spec fn is_heap(&self) -> bool {
        self.inner is Owned
    }

    /// The storage that the owning constructors choose for `chars`: inline
    /// when it fits, else on the heap.
    pub open spec fn is_stored_for(&self, chars: Seq<char>) -> bool {
        if fits_inline(chars) {
            self.is_inline()
        } else {
            self.is_heap()
        }
    }

    /// A string is held in exactly one of the three ways.
    pub proof fn lemma_one_storage(&self)
        ensures
            self.is_static() || self.is_inline() || self.is_heap(),
            self.is_static() ==> !self.is_inline() && !self.is_heap(),
            self.is_inline() ==> !self.is_heap(),
    {
    }

    /// Create a new empty `KString`.
    pub fn new() -> (r: Self)
        ensures
            r@ == Seq::<char>::empty(),
            r.is_static(),
    {
        let r = Self::from_static("");
        proof { reveal_strlit(""); }
        r
    }

    /// Create a reference to a `'static` data.
    pub fn from_static(other: &'static str) -> (r: Self)
        ensures
            r@ == other@,
            r.is_static(),
    {
        Self { inner: KStringInner::from_static(other) }
    }

    /// Create an inline string, if possible
    pub fn try_inline(other: &str) -> (r: Option<Self>)
        ensures
            r is Some <==> fits_inline(other@),
            r matches Some(k) ==> k@ == other@ && k.is_inline(),
    {
        match KStringInner::try_inline(other) {
            Some(inner) => Some(Self { inner }),
            None => None,
        }
    }

    /// Create an owned `KString` from a boxed string, keeping its allocation.
    pub fn from_boxed(other: BoxedStr) -> (r: Self)
        ensures
            r@ == other@,
            r.is_heap(),
    {
        Self { inner: KStringInner::from_boxed(other) }
    }

    /// Create an owned `KString`.
    pub fn from_string(other: String) -> (r: Self)
        ensures
            r@ == other@,
            r.is_stored_for(other@),
    {
        Self { inner: KStringInner::from_string(other) }
    }

    /// Create an owned `KString` optimally from a reference.
    pub fn from_ref(other: &str) -> (r: Self)
        ensures
            r@ == other@,
            r.is_stored_for(other@),
    {
        Self { inner: KStringInner::from_ref(other) }
    }

    /// Creates a new `KString` from a UTF-8 byte vector.
    pub fn from_utf8(vec: Vec<u8>) -> (r: Result<Self, FromUtf8Error>)
        ensures
            r is Ok <==> vstd::utf8::valid_utf8(vec@),
            r matches Ok(k) ==> k@ == vstd::utf8::decode_utf8(vec@) && k.is_stored_for(k@),
    {
        match string_from_utf8(vec) {
            Ok(s) => Ok(Self::from_string(s)),
            Err(e) => Err(e),
        }
    }

    /// Creates a new `KString` from UTF-8 bytes, if they are valid.
    pub fn from_utf8_bytes(bytes: &[u8]) -> (r: Option<Self>)
        ensures
            r is Some <==> vstd::utf8::valid_utf8(bytes@),
            r matches Some(k) ==> k@ == vstd::utf8::decode_utf8(bytes@) && k.is_stored_for(k@),
    {
        match str_from_utf8(bytes) {
            Some(s) => Some(Self::from_ref(s)),
            None => None,
        }
    }

    /// Creates a new `KString` from UTF-16 code units.
    pub fn from_utf16(other: &[u16]) -> (r: Result<Self, FromUtf16Error>)
        ensures
            r is Ok <==> decode_utf16(other@) is Some,
            r matches Ok(k) ==> decode_utf16(other@) == Some(k@) && k.is_stored_for(k@),
    {
        match string_from_utf16(other) {
            Ok(s) => Ok(Self::from_string(s)),
            Err(e) => Err(e),
        }
    }

    /// Create an inline `KString` from a stack string.
    pub(crate) fn from_inline(other: StackString<CAPACITY>) -> (r: Self)
        ensures
            r@ == other@,
            r.is_inline(),
    {
        Self { inner: KStringInner::from_inline(other) }
    }

    /// Get a reference to the `KString`; `'static` data stays `'static`.
    pub fn get_ref(&self) -> (r: KStringRef<'_>)
        ensures
            r@ == self@,
            r.is_static() == self.is_static(),
    {
        self.inner.get_ref()
    }

    /// Extracts a string slice containing the entire `KString`.
    pub fn as_str(&self) -> (r: &str)
        ensures
            r@ == self@,
    {
        self.inner.as_str()
    }

    /// Convert to a mutable string type, cloning the data if necessary.
    pub fn into_string(self) -> (r: String)
        ensures
            r@ == self@,
    {
        string_from_boxed_str(self.into_boxed_str())
    }

    /// Convert to a boxed string, cloning the data if necessary.
    pub fn into_boxed_str(self) -> (r: BoxedStr)
        ensures
            r@ == self@,
    {
        self.inner.into_boxed_str()
    }

    /// Convert to a Cow str; `'static` data stays borrowed.
    pub fn into_cow_str(self) -> (r: Cow<'static, str>)
        ensures
            r@ == self@,
            r is Borrowed <==> self.is_static(),
    {
        self.inner.into_cow_str()
    }
}

impl<B: HeapStr> KStringInner<B> {
    /// Create a reference to a `'static` data.
    pub fn from_static(other: &'static str) -> (r: Self)
        ensures
            r@ == other@,
            r is Singleton,
    {
        Self::Singleton(other)
    }

    pub fn try_inline(other: &str) -> (r: Option<Self>)
        ensures
            r is Some <==> fits_inline(other@),
            r matches Some(k) ==> k@ == other@ && k is Inline,
    {
        match StackString::try_new(other) {
            Some(s) => Some(Self::from_inline(s)),
            None => None,
        }
    }

    pub(crate) fn from_inline(other: StackString<CAPACITY>) -> (r: Self)
        ensures
            r@ == other@,
            r is Inline,
    {
        Self::Inline(other)
    }

    pub(crate) fn from_boxed(other: BoxedStr) -> (r: Self)
        ensures
            r@ == other@,
            r is Owned,
    {
        Self::Owned(B::from_boxed_str(other))
    }

    pub(crate) fn from_string(other: String) -> (r: Self)
        ensures
            r@ == other@,
            fits_inline(other@) ==> r is Inline,
            !fits_inline(other@) ==> r is Owned,
    {
        match Self::try_inline(other.as_str()) {
            Some(r) => r,
            None => Self::from_boxed(string_into_boxed_str(other)),
        }
    }

    pub(crate) fn from_ref(other: &str) -> (r: Self)
        ensures
            r@ == other@,
            fits_inline(other@) ==> r is Inline,
            !fits_inline(other@) ==> r is Owned,
    {
        match Self::try_inline(other) {
            Some(r) => r,
            None => Self::Owned(B::from_str(other)),
        }
    }

    pub(crate) fn get_ref(&self) -> (r: KStringRef<'_>)
        ensures
            r@ == self@,
            r.is_static() == (self is Singleton),
    {
        match self {
            Self::Singleton(s) => KStringRef::from_static(s),
            Self::Inline(s) => KStringRef::from_ref(s.as_str()),
            Self::Owned(s) => KStringRef::from_ref(s.as_str()),
        }
    }

    pub(crate) fn as_str(&self) -> (r: &str)
        ensures
            r@ == self@,
    {
        match self {
            Self::Singleton(s) => s,
            Self::Inline(s) => s.as_str(),
            Self::Owned(s) => s.as_str(),
        }
    }

    pub(crate) fn into_boxed_str(self) -> (r: BoxedStr)
        ensures
            r@ == self@,
    {
        match self {
            Self::Singleton(s) => boxed_str_from(s),
            Self::Inline(s) => boxed_str_from(s.as_str()),
            Self::Owned(s) => boxed_str_from(s.as_str()),
        }
    }

    /// Convert to a Cow str
    pub(crate) fn into_cow_str(self) -> (r: Cow<'static, str>)
        ensures
            r@ == self@,
            r is Borrowed <==> self is Singleton,
    {
        match self {
            Self::Singleton(s) => Cow::Borrowed(s),
            Self::Inline(s) => Cow::Owned(s.as_str().to_owned()),
            Self::Owned(s) => Cow::Owned(s.as_str().to_owned()),
        }
    }
}

impl<B: HeapStr> Clone for KStringInner<B> {
    fn clone(&self) -> (r: Self)
        ensures
            r@ == self@,
            r is Singleton <==> self is Singleton,
            r is Inline <==> self is Inline,
            r is Owned <==> self is Owned,
    {
        match self {
            Self::Singleton(s) => Self::Singleton(s),
            Self::Inline(s) => Self::Inline(*s),
            Self::Owned(s) => Self::Owned(s.clone_str()),
        }
    }
}

impl<B: HeapStr> Clone for KString<B> {
    fn clone(&self) -> (r: Self)
        ensures
            r@ == self@,
            r.is_static() == self.is_static(),
            r.is_inline() == self.is_inline(),
            r.is_heap() == self.is_heap(),
    {
        Self { inner: self.inner.clone() }
    }
}

impl<B: HeapStr> Default for KString<B> {
    fn default() -> (r: Self)
        ensures
            r@ == Seq::<char>::empty(),
            r.is_static(),
    {
        Self::new()
    }
}

} // verus!
