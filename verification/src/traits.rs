use vstd::prelude::*;
use core::ops::Deref;
use core::borrow::Borrow;
use core::hash::{Hash, Hasher};
use core::str::FromStr;
use core::convert::Infallible;

use crate::backend::HeapStr;
use crate::format::KStringWriter;
use crate::stack::StackString;
use crate::string::KString;
use crate::string_cow::KStringCow;
use crate::string_ref::KStringRef;
use crate::text::{utf8_len, byte_len};

verus! {

/// `<str as Hash>::hash`: feeds the string into the hasher. (Public so that
/// the contracts of the `Hash` impls can name it; the module is private.)
#[verifier::external_body]
pub fn str_hash<H: Hasher>(s: &str, state: &mut H) {
    s.hash(state)
}

/// `<str as Debug>::fmt`: writes the string quoted and escaped. (Public so
/// that the contracts of the `Debug` impls can name it; the module is
/// private.)
#[verifier::external_body]
pub fn str_debug_fmt(s: &str, f: &mut core::fmt::Formatter<'_>) -> core::fmt::Result {
    core::fmt::Debug::fmt(s, f)
}

/// Whether `s` holds the characters `chars`.
pub open spec fn equal_text(s: &str, chars: Seq<char>) -> bool {
    s@ == chars
}

/// Whether `b` holds the bytes `bytes`.
pub open spec fn equal_bytes(b: &[u8], bytes: Seq<u8>) -> bool {
    b@ == bytes
}

#[verifier::external_type_specification]
#[verifier::external_body]
pub struct ExFormatter<'a>(core::fmt::Formatter<'a>);

#[verifier::external_type_specification]
#[verifier::external_body]
pub struct ExFmtError(core::fmt::Error);

impl<const CAPACITY: usize> Deref for StackString<CAPACITY> {
    type Target = str;

    fn deref(&self) -> (r: &str)
        ensures
            r@ == self@,
    {
        self.as_str()
    }
}

impl<const CAPACITY: usize> AsRef<str> for StackString<CAPACITY> {
    fn as_ref(&self) -> (r: &str)
        ensures
            equal_text(r, self@),
    {
        self.as_str()
    }
}

impl<const CAPACITY: usize> AsRef<[u8]> for StackString<CAPACITY> {
    fn as_ref(&self) -> (r: &[u8])
        ensures
            equal_bytes(r, vstd::utf8::encode_utf8(self@)),
    {
        self.as_str().as_bytes()
    }
}

impl<const CAPACITY: usize> Borrow<str> for StackString<CAPACITY> {
    fn borrow(&self) -> (r: &str)
        ensures
            equal_text(r, self@),
    {
        self.as_str()
    }
}

/// Hashes as `<str as Hash>::hash` does, so that the hash agrees with the
/// one of the borrowed `str`.
impl<const CAPACITY: usize> Hash for StackString<CAPACITY> {
    fn hash<H: Hasher>(&self, state: &mut H)
        ensures
            exists|s: &str, m: &mut H|
                #![trigger call_ensures(str_hash::<H>, (s, m), ())]
                s@ == self@ && mut_ref_current(m) == *old(state)
                    && mut_ref_future(m) == *final(state)
                    && call_ensures(str_hash::<H>, (s, m), ()),
    {
        let hash_text = str_hash::<H>;
        hash_text(self.as_str(), state)
    }
}

/// Formats as `<str as Debug>::fmt` does.
impl<const CAPACITY: usize> core::fmt::Debug for StackString<CAPACITY> {
    fn fmt(&self, f: &mut core::fmt::Formatter<'_>) -> (r: core::fmt::Result)
        ensures
            exists|s: &str, m: &mut core::fmt::Formatter<'_>|
                #![trigger call_ensures(str_debug_fmt, (s, m), r)]
                s@ == self@ && mut_ref_current(m) == *old(f) && mut_ref_future(m) == *final(f)
                    && call_ensures(str_debug_fmt, (s, m), r),
    {
        let debug_text = str_debug_fmt;
        debug_text(self.as_str(), f)
    }
}

impl<B: HeapStr> Deref for KString<B> {
    type Target = str;

    fn deref(&self) -> (r: &str)
        ensures
            r@ == self@,
    {
        self.as_str()
    }
}

impl<B: HeapStr> AsRef<str> for KString<B> {
    fn as_ref(&self) -> (r: &str)
        ensures
            equal_text(r, self@),
    {
        self.as_str()
    }
}

impl<B: HeapStr> AsRef<[u8]> for KString<B> {
    fn as_ref(&self) -> (r: &[u8])
        ensures
            equal_bytes(r, vstd::utf8::encode_utf8(self@)),
    {
        self.as_str().as_bytes()
    }
}

impl<B: HeapStr> Borrow<str> for KString<B> {
    fn borrow(&self) -> (r: &str)
        ensures
            equal_text(r, self@),
    {
        self.as_str()
    }
}

/// Hashes as `<str as Hash>::hash` does, so that the hash agrees with the
/// one of the borrowed `str`.
impl<B: HeapStr> Hash for KString<B> {
    fn hash<H: Hasher>(&self, state: &mut H)
        ensures
            exists|s: &str, m: &mut H|
                #![trigger call_ensures(str_hash::<H>, (s, m), ())]
                s@ == self@ && mut_ref_current(m) == *old(state)
                    && mut_ref_future(m) == *final(state)
                    && call_ensures(str_hash::<H>, (s, m), ()),
    {
        let hash_text = str_hash::<H>;
        hash_text(self.as_str(), state)
    }
}

/// Formats as `<str as Debug>::fmt` does.
impl<B: HeapStr> core::fmt::Debug for KString<B> {
    fn fmt(&self, f: &mut core::fmt::Formatter<'_>) -> (r: core::fmt::Result)
        ensures
            exists|s: &str, m: &mut core::fmt::Formatter<'_>|
                #![trigger call_ensures(str_debug_fmt, (s, m), r)]
                s@ == self@ && mut_ref_current(m) == *old(f) && mut_ref_future(m) == *final(f)
                    && call_ensures(str_debug_fmt, (s, m), r),
    {
        let debug_text = str_debug_fmt;
        debug_text(self.as_str(), f)
    }
}

impl<'s, B: HeapStr> Deref for KStringCow<'s, B> {
    type Target = str;

    fn deref(&self) -> (r: &str)
        ensures
            r@ == self@,
    {
        self.as_str()
    }
}

impl<'s, B: HeapStr> AsRef<str> for KStringCow<'s, B> {
    fn as_ref(&self) -> (r: &str)
        ensures
            equal_text(r, self@),
    {
        self.as_str()
    }
}

impl<'s, B: HeapStr> AsRef<[u8]> for KStringCow<'s, B> {
    fn as_ref(&self) -> (r: &[u8])
        ensures
            equal_bytes(r, vstd::utf8::encode_utf8(self@)),
    {
        self.as_str().as_bytes()
    }
}

impl<'s, B: HeapStr> Borrow<str> for KStringCow<'s, B> {
    fn borrow(&self) -> (r: &str)
        ensures
            equal_text(r, self@),
    {
        self.as_str()
    }
}

/// Hashes as `<str as Hash>::hash` does, so that the hash agrees with the
/// one of the borrowed `str`.
impl<'s, B: HeapStr> Hash for KStringCow<'s, B> {
    fn hash<H: Hasher>(&self, state: &mut H)
        ensures
            exists|s: &str, m: &mut H|
                #![trigger call_ensures(str_hash::<H>, (s, m), ())]
                s@ == self@ && mut_ref_current(m) == *old(state)
                    && mut_ref_future(m) == *final(state)
                    && call_ensures(str_hash::<H>, (s, m), ()),
    {
        let hash_text = str_hash::<H>;
        hash_text(self.as_str(), state)
    }
}

/// Formats as `<str as Debug>::fmt` does.
impl<'s, B: HeapStr> core::fmt::Debug for KStringCow<'s, B> {
    fn fmt(&self, f: &mut core::fmt::Formatter<'_>) -> (r: core::fmt::Result)
        ensures
            exists|s: &str, m: &mut core::fmt::Formatter<'_>|
                #![trigger call_ensures(str_debug_fmt, (s, m), r)]
                s@ == self@ && mut_ref_current(m) == *old(f) && mut_ref_future(m) == *final(f)
                    && call_ensures(str_debug_fmt, (s, m), r),
    {
        let debug_text = str_debug_fmt;
        debug_text(self.as_str(), f)
    }
}

impl<'s> Deref for KStringRef<'s> {
    type Target = str;

    fn deref(&self) -> (r: &str)
        ensures
            r@ == self@,
    {
        self.as_str()
    }
}

impl<'s> AsRef<str> for KStringRef<'s> {
    fn as_ref(&self) -> (r: &str)
        ensures
            equal_text(r, self@),
    {
        self.as_str()
    }
}

impl<'s> AsRef<[u8]> for KStringRef<'s> {
    fn as_ref(&self) -> (r: &[u8])
        ensures
            equal_bytes(r, vstd::utf8::encode_utf8(self@)),
    {
        self.as_str().as_bytes()
    }
}

impl<'s> Borrow<str> for KStringRef<'s> {
    fn borrow(&self) -> (r: &str)
        ensures
            equal_text(r, self@),
    {
        self.as_str()
    }
}

/// Hashes as `<str as Hash>::hash` does, so that the hash agrees with the
/// one of the borrowed `str`.
impl<'s> Hash for KStringRef<'s> {
    fn hash<H: Hasher>(&self, state: &mut H)
        ensures
            exists|s: &str, m: &mut H|
                #![trigger call_ensures(str_hash::<H>, (s, m), ())]
                s@ == self@ && mut_ref_current(m) == *old(state)
                    && mut_ref_future(m) == *final(state)
                    && call_ensures(str_hash::<H>, (s, m), ()),
    {
        let hash_text = str_hash::<H>;
        hash_text(self.as_str(), state)
    }
}

/// Formats the variant and the characters, as a derived `Debug` would.
impl<'s> core::fmt::Debug for KStringRef<'s> {
    #[verifier::external_body]
    fn fmt(&self, f: &mut core::fmt::Formatter<'_>) -> core::fmt::Result {
        core::fmt::Debug::fmt(&self.inner, f)
    }
}

impl<B: HeapStr> FromStr for KString<B> {
    type Err = Infallible;

    fn from_str(s: &str) -> (r: Result<Self, Self::Err>)
        ensures
            r matches Ok(k) && k@ == s@ && k.is_stored_for(s@),
    {
        Ok(Self::from_ref(s))
    }
}

impl<'s, B: HeapStr> FromStr for KStringCow<'s, B> {
    type Err = Infallible;

    fn from_str(s: &str) -> (r: Result<Self, Self::Err>)
        ensures
            r matches Ok(k) && k@ == s@ && (k.owned() matches Some(o) && o.is_stored_for(s@)),
    {
        Ok(Self::from_string(s.to_owned()))
    }
}

impl AsRef<str> for KStringWriter {
    fn as_ref(&self) -> (r: &str)
        ensures
            equal_text(r, self@),
    {
        self.as_str()
    }
}

/// The unit error value `core::fmt::Error`.
#[verifier::external_body]
fn fmt_error() -> core::fmt::Error {
    core::fmt::Error
}

/// Appends text; a string that would pass `isize::MAX` bytes, which no
/// allocation can hold, is refused with an error.
impl core::fmt::Write for KStringWriter {
    fn write_str(&mut self, s: &str) -> (r: core::fmt::Result)
        ensures
            r is Ok <==> utf8_len(old(self)@) + utf8_len(s@) <= isize::MAX,
            r is Ok ==> final(self)@ == old(self)@ + s@,
            r is Err ==> final(self)@ == old(self)@,
    {
        let len = byte_len(self.as_str());
        if len <= isize::MAX as usize && byte_len(s) <= isize::MAX as usize - len {
            self.push_str(s);
            Ok(())
        } else {
            Err(fmt_error())
        }
    }
}

} // verus!
