use vstd::prelude::*;
use vstd::std_specs::convert::{FromSpecImpl, TryFromSpecImpl};

use crate::backend::{BoxedStr, HeapStr};
use crate::format::KStringWriter;
use crate::stack::StackString;
use crate::string::{KString, CAPACITY};
use crate::string_cow::KStringCow;
use crate::string_ref::KStringRef;
use crate::text::{utf8_len, byte_len};

verus! {

/// The text written, kept inline when the writer was.
impl<B: HeapStr> From<KStringWriter> for KString<B> {
    fn from(other: KStringWriter) -> (r: Self)
        ensures
            r@ == other@,
            other is Inline ==> r.is_inline(),
            other is Owned ==> r.is_stored_for(other@),
    {
        match other {
            KStringWriter::Inline(inline) => KString::from_inline(inline),
            KStringWriter::Owned(owned) => KString::from_string(owned),
        }
    }
}

impl<B: HeapStr> FromSpecImpl<KStringWriter> for KString<B> {
    open spec fn obeys_from_spec() -> bool {
        false
    }

    open spec fn from_spec(v: KStringWriter) -> Self {
        arbitrary()
    }
}

/// Holds the stack string inline.
impl<B: HeapStr> From<StackString<CAPACITY>> for KString<B> {
    fn from(other: StackString<CAPACITY>) -> (r: Self)
        ensures
            r@ == other@,
            r.is_inline(),
    {
        KString::from_inline(other)
    }
}

impl<B: HeapStr> FromSpecImpl<StackString<CAPACITY>> for KString<B> {
    open spec fn obeys_from_spec() -> bool {
        false
    }

    open spec fn from_spec(v: StackString<CAPACITY>) -> Self {
        arbitrary()
    }
}

/// Copies borrowed data; `'static` data stays borrowed.
impl<'s, B: HeapStr> From<KStringRef<'s>> for KString<B> {
    fn from(other: KStringRef<'s>) -> (r: Self)
        ensures
            r@ == other@,
            other.is_static() ==> r.is_static(),
            !other.is_static() ==> r.is_stored_for(other@),
    {
        other.to_owned()
    }
}

impl<'s, B: HeapStr> FromSpecImpl<KStringRef<'s>> for KString<B> {
    open spec fn obeys_from_spec() -> bool {
        false
    }

    open spec fn from_spec(v: KStringRef<'s>) -> Self {
        arbitrary()
    }
}

/// Copies borrowed data; `'static` data stays borrowed.
impl<'s, B: HeapStr> From<&'s KStringRef<'s>> for KString<B> {
    fn from(other: &'s KStringRef<'s>) -> (r: Self)
        ensures
            r@ == other@,
            other.is_static() ==> r.is_static(),
            !other.is_static() ==> r.is_stored_for(other@),
    {
        other.to_owned()
    }
}

impl<'s, B: HeapStr> FromSpecImpl<&'s KStringRef<'s>> for KString<B> {
    open spec fn obeys_from_spec() -> bool {
        false
    }

    open spec fn from_spec(v: &'s KStringRef<'s>) -> Self {
        arbitrary()
    }
}

/// Takes the owned string, or copies borrowed data.
impl<'s, B: HeapStr> From<KStringCow<'s, B>> for KString<B> {
    fn from(other: KStringCow<'s, B>) -> (r: Self)
        ensures
            r@ == other@,
            other.owned() matches Some(k) ==> r == k,
            other.is_borrowed() ==> r.is_stored_for(other@),
    {
        other.into_owned()
    }
}

impl<'s, B: HeapStr> FromSpecImpl<KStringCow<'s, B>> for KString<B> {
    open spec fn obeys_from_spec() -> bool {
        false
    }

    open spec fn from_spec(v: KStringCow<'s, B>) -> Self {
        arbitrary()
    }
}

/// Clones the owned string, or copies borrowed data.
impl<'s, B: HeapStr> From<&'s KStringCow<'s, B>> for KString<B> {
    fn from(other: &'s KStringCow<'s, B>) -> (r: Self)
        ensures
            r@ == other@,
            other.is_static() ==> r.is_static(),
            other.is_borrowed() ==> r.is_stored_for(other@),
            other.owned() matches Some(k) ==> r.is_inline() == k.is_inline() && r.is_heap()
                == k.is_heap(),
    {
        other.clone().into_owned()
    }
}

impl<'s, B: HeapStr> FromSpecImpl<&'s KStringCow<'s, B>> for KString<B> {
    open spec fn obeys_from_spec() -> bool {
        false
    }

    open spec fn from_spec(v: &'s KStringCow<'s, B>) -> Self {
        arbitrary()
    }
}

/// Inline when it fits, else on the heap.
impl<B: HeapStr> From<String> for KString<B> {
    fn from(other: String) -> (r: Self)
        ensures
            r@ == other@,
            r.is_stored_for(other@),
    {
        Self::from_string(other)
    }
}

impl<B: HeapStr> FromSpecImpl<String> for KString<B> {
    open spec fn obeys_from_spec() -> bool {
        false
    }

    open spec fn from_spec(v: String) -> Self {
        arbitrary()
    }
}

/// Inline when it fits, else on the heap.
impl<'s, B: HeapStr> From<&'s String> for KString<B> {
    fn from(other: &'s String) -> (r: Self)
        ensures
            r@ == other@,
            r.is_stored_for(other@),
    {
        Self::from_ref(other.as_str())
    }
}

impl<'s, B: HeapStr> FromSpecImpl<&'s String> for KString<B> {
    open spec fn obeys_from_spec() -> bool {
        false
    }

    open spec fn from_spec(v: &'s String) -> Self {
        arbitrary()
    }
}

/// Keeps the allocation.
impl<B: HeapStr> From<BoxedStr> for KString<B> {
    fn from(other: BoxedStr) -> (r: Self)
        ensures
            r@ == other@,
            r.is_heap(),
    {
        Self::from_boxed(other)
    }
}

impl<B: HeapStr> FromSpecImpl<BoxedStr> for KString<B> {
    open spec fn obeys_from_spec() -> bool {
        false
    }

    open spec fn from_spec(v: BoxedStr) -> Self {
        arbitrary()
    }
}

/// Inline when it fits, else on the heap.
impl<'s, B: HeapStr> From<&'s BoxedStr> for KString<B> {
    fn from(other: &'s BoxedStr) -> (r: Self)
        ensures
            r@ == other@,
            r.is_stored_for(other@),
    {
        Self::from_ref(&**other)
    }
}

impl<'s, B: HeapStr> FromSpecImpl<&'s BoxedStr> for KString<B> {
    open spec fn obeys_from_spec() -> bool {
        false
    }

    open spec fn from_spec(v: &'s BoxedStr) -> Self {
        arbitrary()
    }
}

/// Inline when it fits, else on the heap.
impl<'s, B: HeapStr> From<&'s str> for KString<B> {
    fn from(other: &'s str) -> (r: Self)
        ensures
            r@ == other@,
            r.is_stored_for(other@),
    {
        Self::from_ref(other)
    }
}

impl<'s, B: HeapStr> FromSpecImpl<&'s str> for KString<B> {
    open spec fn obeys_from_spec() -> bool {
        false
    }

    open spec fn from_spec(v: &'s str) -> Self {
        arbitrary()
    }
}

/// Owns the string.
impl<'s, B: HeapStr> From<KString<B>> for KStringCow<'s, B> {
    fn from(other: KString<B>) -> (r: Self)
        ensures
            r@ == other@,
            r.owned() == Some(other),
    {
        KStringCow::from_owned(other)
    }
}

impl<'s, B: HeapStr> FromSpecImpl<KString<B>> for KStringCow<'s, B> {
    open spec fn obeys_from_spec() -> bool {
        false
    }

    open spec fn from_spec(v: KString<B>) -> Self {
        arbitrary()
    }
}

/// Borrows the string; `'static` data stays `'static`.
impl<'s, B: HeapStr> From<&'s KString<B>> for KStringCow<'s, B> {
    fn from(other: &'s KString<B>) -> (r: Self)
        ensures
            r@ == other@,
            r.is_static() == other.is_static(),
            !other.is_static() ==> r.is_borrowed(),
    {
        KStringCow::from(other.get_ref())
    }
}

impl<'s, B: HeapStr> FromSpecImpl<&'s KString<B>> for KStringCow<'s, B> {
    open spec fn obeys_from_spec() -> bool {
        false
    }

    open spec fn from_spec(v: &'s KString<B>) -> Self {
        arbitrary()
    }
}

/// Borrows the data; `'static` data stays `'static`.
impl<'s, B: HeapStr> From<KStringRef<'s>> for KStringCow<'s, B> {
    fn from(other: KStringRef<'s>) -> (r: Self)
        ensures
            r@ == other@,
            r.is_static() == other.is_static(),
            !other.is_static() ==> r.is_borrowed(),
    {
        other.to_cow()
    }
}

impl<'s, B: HeapStr> FromSpecImpl<KStringRef<'s>> for KStringCow<'s, B> {
    open spec fn obeys_from_spec() -> bool {
        false
    }

    open spec fn from_spec(v: KStringRef<'s>) -> Self {
        arbitrary()
    }
}

/// Borrows the data; `'static` data stays `'static`.
impl<'s, B: HeapStr> From<&'s KStringRef<'s>> for KStringCow<'s, B> {
    fn from(other: &'s KStringRef<'s>) -> (r: Self)
        ensures
            r@ == other@,
            r.is_static() == other.is_static(),
            !other.is_static() ==> r.is_borrowed(),
    {
        other.to_cow()
    }
}

impl<'s, B: HeapStr> FromSpecImpl<&'s KStringRef<'s>> for KStringCow<'s, B> {
    open spec fn obeys_from_spec() -> bool {
        false
    }

    open spec fn from_spec(v: &'s KStringRef<'s>) -> Self {
        arbitrary()
    }
}

/// Owns the characters, inline when they fit.
impl<'s, B: HeapStr> From<String> for KStringCow<'s, B> {
    fn from(other: String) -> (r: Self)
        ensures
            r@ == other@,
            r.owned() matches Some(k) && k.is_stored_for(other@),
    {
        Self::from_string(other)
    }
}

impl<'s, B: HeapStr> FromSpecImpl<String> for KStringCow<'s, B> {
    open spec fn obeys_from_spec() -> bool {
        false
    }

    open spec fn from_spec(v: String) -> Self {
        arbitrary()
    }
}

/// Borrows the characters.
impl<'s, B: HeapStr> From<&'s String> for KStringCow<'s, B> {
    fn from(other: &'s String) -> (r: Self)
        ensures
            r@ == other@,
            r.is_borrowed(),
    {
        Self::from_ref(other.as_str())
    }
}

impl<'s, B: HeapStr> FromSpecImpl<&'s String> for KStringCow<'s, B> {
    open spec fn obeys_from_spec() -> bool {
        false
    }

    open spec fn from_spec(v: &'s String) -> Self {
        arbitrary()
    }
}

/// Keeps the allocation.
impl<'s, B: HeapStr> From<BoxedStr> for KStringCow<'s, B> {
    fn from(other: BoxedStr) -> (r: Self)
        ensures
            r@ == other@,
            r.owned() matches Some(k) && k.is_heap(),
    {
        Self::from_boxed(other)
    }
}

impl<'s, B: HeapStr> FromSpecImpl<BoxedStr> for KStringCow<'s, B> {
    open spec fn obeys_from_spec() -> bool {
        false
    }

    open spec fn from_spec(v: BoxedStr) -> Self {
        arbitrary()
    }
}

/// Borrows the characters.
impl<'s, B: HeapStr> From<&'s BoxedStr> for KStringCow<'s, B> {
    fn from(other: &'s BoxedStr) -> (r: Self)
        ensures
            r@ == other@,
            r.is_borrowed(),
    {
        Self::from_ref(&**other)
    }
}

impl<'s, B: HeapStr> FromSpecImpl<&'s BoxedStr> for KStringCow<'s, B> {
    open spec fn obeys_from_spec() -> bool {
        false
    }

    open spec fn from_spec(v: &'s BoxedStr) -> Self {
        arbitrary()
    }
}

/// Borrows the characters.
impl<'s, B: HeapStr> From<&'s str> for KStringCow<'s, B> {
    fn from(other: &'s str) -> (r: Self)
        ensures
            r@ == other@,
            r.is_borrowed(),
    {
        Self::from_ref(other)
    }
}

impl<'s, B: HeapStr> FromSpecImpl<&'s str> for KStringCow<'s, B> {
    open spec fn obeys_from_spec() -> bool {
        false
    }

    open spec fn from_spec(v: &'s str) -> Self {
        arbitrary()
    }
}

/// Borrows the string; `'static` data stays `'static`.
impl<'s, B: HeapStr> From<&'s KString<B>> for KStringRef<'s> {
    fn from(other: &'s KString<B>) -> (r: Self)
        ensures
            r@ == other@,
            r.is_static() == other.is_static(),
    {
        other.get_ref()
    }
}

impl<'s, B: HeapStr> FromSpecImpl<&'s KString<B>> for KStringRef<'s> {
    open spec fn obeys_from_spec() -> bool {
        false
    }

    open spec fn from_spec(v: &'s KString<B>) -> Self {
        arbitrary()
    }
}

/// Borrows the string; `'static` data stays `'static`.
impl<'s, B: HeapStr> From<&'s KStringCow<'s, B>> for KStringRef<'s> {
    fn from(other: &'s KStringCow<'s, B>) -> (r: Self)
        ensures
            r@ == other@,
            r.is_static() == other.is_static(),
    {
        other.get_ref()
    }
}

impl<'s, B: HeapStr> FromSpecImpl<&'s KStringCow<'s, B>> for KStringRef<'s> {
    open spec fn obeys_from_spec() -> bool {
        false
    }

    open spec fn from_spec(v: &'s KStringCow<'s, B>) -> Self {
        arbitrary()
    }
}

/// Borrows the characters.
impl<'s> From<&'s String> for KStringRef<'s> {
    fn from(other: &'s String) -> (r: Self)
        ensures
            r@ == other@,
            !r.is_static(),
    {
        KStringRef::from_ref(other.as_str())
    }
}

impl<'s> FromSpecImpl<&'s String> for KStringRef<'s> {
    open spec fn obeys_from_spec() -> bool {
        false
    }

    open spec fn from_spec(v: &'s String) -> Self {
        arbitrary()
    }
}

/// Borrows the characters.
impl<'s> From<&'s BoxedStr> for KStringRef<'s> {
    fn from(other: &'s BoxedStr) -> (r: Self)
        ensures
            r@ == other@,
            !r.is_static(),
    {
        KStringRef::from_ref(&**other)
    }
}

impl<'s> FromSpecImpl<&'s BoxedStr> for KStringRef<'s> {
    open spec fn obeys_from_spec() -> bool {
        false
    }

    open spec fn from_spec(v: &'s BoxedStr) -> Self {
        arbitrary()
    }
}

/// Borrows the characters.
impl<'s> From<&'s str> for KStringRef<'s> {
    fn from(other: &'s str) -> (r: Self)
        ensures
            r@ == other@,
            !r.is_static(),
    {
        KStringRef::from_ref(other)
    }
}

impl<'s> FromSpecImpl<&'s str> for KStringRef<'s> {
    open spec fn obeys_from_spec() -> bool {
        false
    }

    open spec fn from_spec(v: &'s str) -> Self {
        arbitrary()
    }
}

/// Copies the characters.
impl<'a, const C: usize> From<&'a StackString<C>> for String {
    fn from(other: &'a StackString<C>) -> (r: Self)
        ensures
            r@ == other@,
    {
        other.as_str().to_owned()
    }
}

impl<'a, const C: usize> FromSpecImpl<&'a StackString<C>> for String {
    open spec fn obeys_from_spec() -> bool {
        false
    }

    open spec fn from_spec(v: &'a StackString<C>) -> Self {
        arbitrary()
    }
}

/// Copies the characters.
impl<const C: usize> From<StackString<C>> for String {
    fn from(other: StackString<C>) -> (r: Self)
        ensures
            r@ == other@,
    {
        other.as_str().to_owned()
    }
}

impl<const C: usize> FromSpecImpl<StackString<C>> for String {
    open spec fn obeys_from_spec() -> bool {
        false
    }

    open spec fn from_spec(v: StackString<C>) -> Self {
        arbitrary()
    }
}

/// Fits the string within the capacity, or refuses it. Past `u8::MAX` bytes,
/// more than the length byte counts, the string is refused too.
impl<'a, const C: usize> TryFrom<&'a str> for StackString<C> {
    type Error = ();

    fn try_from(other: &'a str) -> (r: Result<Self, ()>)
        ensures
            r is Ok <==> utf8_len(other@) <= C && utf8_len(other@) <= u8::MAX,
            r matches Ok(s) ==> s@ == other@,
    {
        let len = byte_len(other);
        if len <= C && len <= 255 {
            Ok(Self::from_fitting(other))
        } else {
            Err(())
        }
    }
}

impl<'a, const C: usize> TryFromSpecImpl<&'a str> for StackString<C> {
    open spec fn obeys_try_from_spec() -> bool {
        false
    }

    open spec fn try_from_spec(v: &'a str) -> Result<Self, ()> {
        arbitrary()
    }
}

/// Fits the string within the capacity, or refuses it. Past `u8::MAX` bytes,
/// more than the length byte counts, the string is refused too.
impl<'a, const C: usize> TryFrom<&'a String> for StackString<C> {
    type Error = ();

    fn try_from(other: &'a String) -> (r: Result<Self, ()>)
        ensures
            r is Ok <==> utf8_len(other@) <= C && utf8_len(other@) <= u8::MAX,
            r matches Ok(s) ==> s@ == other@,
    {
        Self::try_from(other.as_str())
    }
}

impl<'a, const C: usize> TryFromSpecImpl<&'a String> for StackString<C> {
    open spec fn obeys_try_from_spec() -> bool {
        false
    }

    open spec fn try_from_spec(v: &'a String) -> Result<Self, ()> {
        arbitrary()
    }
}

/// Fits the string within the capacity, or refuses it. Past `u8::MAX` bytes,
/// more than the length byte counts, the string is refused too.
impl<const C: usize> TryFrom<String> for StackString<C> {
    type Error = ();

    fn try_from(other: String) -> (r: Result<Self, ()>)
        ensures
            r is Ok <==> utf8_len(other@) <= C && utf8_len(other@) <= u8::MAX,
            r matches Ok(s) ==> s@ == other@,
    {
        Self::try_from(other.as_str())
    }
}

impl<const C: usize> TryFromSpecImpl<String> for StackString<C> {
    open spec fn obeys_try_from_spec() -> bool {
        false
    }

    open spec fn try_from_spec(v: String) -> Result<Self, ()> {
        arbitrary()
    }
}

} // verus!
