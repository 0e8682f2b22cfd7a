use vstd::prelude::*;
use vstd::std_specs::cmp::{PartialEqSpec, PartialEqSpecImpl};

use crate::backend::HeapStr;
use crate::stack::StackString;
use crate::string::KString;
use crate::string_cow::KStringCow;
use crate::string_ref::KStringRef;
use crate::text::{lemma_encode_utf8_injective, str_eq};
use vstd::utf8::encode_utf8;

verus! {

impl<const C1: usize, const C2: usize> PartialEq<StackString<C1>> for StackString<C2> {
    fn eq(&self, other: &StackString<C1>) -> (r: bool) {
        str_eq(self.as_str(), other.as_str())
    }
}

impl<const C1: usize, const C2: usize> PartialEqSpecImpl<StackString<C1>> for StackString<C2> {
    open spec fn obeys_eq_spec() -> bool {
        true
    }

    open spec fn eq_spec(&self, other: &StackString<C1>) -> bool {
        self@ == other@
    }
}

impl<const CAPACITY: usize> PartialEq<str> for StackString<CAPACITY> {
    fn eq(&self, other: &str) -> (r: bool) {
        str_eq(self.as_str(), other)
    }
}

impl<const CAPACITY: usize> PartialEqSpecImpl<str> for StackString<CAPACITY> {
    open spec fn obeys_eq_spec() -> bool {
        true
    }

    open spec fn eq_spec(&self, other: &str) -> bool {
        self@ == other@
    }
}

impl<const CAPACITY: usize> PartialEq<&str> for StackString<CAPACITY> {
    fn eq(&self, other: &&str) -> (r: bool) {
        str_eq(self.as_str(), *other)
    }
}

impl<const CAPACITY: usize> PartialEqSpecImpl<&str> for StackString<CAPACITY> {
    open spec fn obeys_eq_spec() -> bool {
        true
    }

    open spec fn eq_spec(&self, other: &&str) -> bool {
        self@ == other@
    }
}

impl<const CAPACITY: usize> PartialEq<String> for StackString<CAPACITY> {
    fn eq(&self, other: &String) -> (r: bool) {
        str_eq(self.as_str(), other.as_str())
    }
}

impl<const CAPACITY: usize> PartialEqSpecImpl<String> for StackString<CAPACITY> {
    open spec fn obeys_eq_spec() -> bool {
        true
    }

    open spec fn eq_spec(&self, other: &String) -> bool {
        self@ == other@
    }
}

impl<const CAPACITY: usize> Eq for StackString<CAPACITY> {}

impl<B: HeapStr> PartialEq<KString<B>> for KString<B> {
    fn eq(&self, other: &KString<B>) -> (r: bool) {
        str_eq(self.as_str(), other.as_str())
    }
}

impl<B: HeapStr> PartialEqSpecImpl<KString<B>> for KString<B> {
    open spec fn obeys_eq_spec() -> bool {
        true
    }

    open spec fn eq_spec(&self, other: &KString<B>) -> bool {
        self@ == other@
    }
}

impl<B: HeapStr> PartialEq<str> for KString<B> {
    fn eq(&self, other: &str) -> (r: bool) {
        str_eq(self.as_str(), other)
    }
}

impl<B: HeapStr> PartialEqSpecImpl<str> for KString<B> {
    open spec fn obeys_eq_spec() -> bool {
        true
    }

    open spec fn eq_spec(&self, other: &str) -> bool {
        self@ == other@
    }
}

impl<B: HeapStr> PartialEq<&str> for KString<B> {
    fn eq(&self, other: &&str) -> (r: bool) {
        str_eq(self.as_str(), *other)
    }
}

impl<B: HeapStr> PartialEqSpecImpl<&str> for KString<B> {
    open spec fn obeys_eq_spec() -> bool {
        true
    }

    open spec fn eq_spec(&self, other: &&str) -> bool {
        self@ == other@
    }
}

impl<B: HeapStr> PartialEq<String> for KString<B> {
    fn eq(&self, other: &String) -> (r: bool) {
        str_eq(self.as_str(), other.as_str())
    }
}

impl<B: HeapStr> PartialEqSpecImpl<String> for KString<B> {
    open spec fn obeys_eq_spec() -> bool {
        true
    }

    open spec fn eq_spec(&self, other: &String) -> bool {
        self@ == other@
    }
}

impl<B: HeapStr> Eq for KString<B> {}

impl<'s, B: HeapStr> PartialEq<KStringCow<'s, B>> for KStringCow<'s, B> {
    fn eq(&self, other: &KStringCow<'s, B>) -> (r: bool) {
        str_eq(self.as_str(), other.as_str())
    }
}

impl<'s, B: HeapStr> PartialEqSpecImpl<KStringCow<'s, B>> for KStringCow<'s, B> {
    open spec fn obeys_eq_spec() -> bool {
        true
    }

    open spec fn eq_spec(&self, other: &KStringCow<'s, B>) -> bool {
        self@ == other@
    }
}

impl<'s, B: HeapStr> PartialEq<str> for KStringCow<'s, B> {
    fn eq(&self, other: &str) -> (r: bool) {
        str_eq(self.as_str(), other)
    }
}

impl<'s, B: HeapStr> PartialEqSpecImpl<str> for KStringCow<'s, B> {
    open spec fn obeys_eq_spec() -> bool {
        true
    }

    open spec fn eq_spec(&self, other: &str) -> bool {
        self@ == other@
    }
}

impl<'s, B: HeapStr> PartialEq<&'s str> for KStringCow<'s, B> {
    fn eq(&self, other: &&'s str) -> (r: bool) {
        str_eq(self.as_str(), *other)
    }
}

impl<'s, B: HeapStr> PartialEqSpecImpl<&'s str> for KStringCow<'s, B> {
    open spec fn obeys_eq_spec() -> bool {
        true
    }

    open spec fn eq_spec(&self, other: &&'s str) -> bool {
        self@ == other@
    }
}

impl<'s, B: HeapStr> PartialEq<String> for KStringCow<'s, B> {
    fn eq(&self, other: &String) -> (r: bool) {
        str_eq(self.as_str(), other.as_str())
    }
}

impl<'s, B: HeapStr> PartialEqSpecImpl<String> for KStringCow<'s, B> {
    open spec fn obeys_eq_spec() -> bool {
        true
    }

    open spec fn eq_spec(&self, other: &String) -> bool {
        self@ == other@
    }
}

impl<'s, B: HeapStr> Eq for KStringCow<'s, B> {}

impl<'s> PartialEq<KStringRef<'s>> for KStringRef<'s> {
    fn eq(&self, other: &KStringRef<'s>) -> (r: bool) {
        str_eq(self.as_str(), other.as_str())
    }
}

impl<'s> PartialEqSpecImpl<KStringRef<'s>> for KStringRef<'s> {
    open spec fn obeys_eq_spec() -> bool {
        true
    }

    open spec fn eq_spec(&self, other: &KStringRef<'s>) -> bool {
        self@ == other@
    }
}

impl<'s> PartialEq<str> for KStringRef<'s> {
    fn eq(&self, other: &str) -> (r: bool) {
        str_eq(self.as_str(), other)
    }
}

impl<'s> PartialEqSpecImpl<str> for KStringRef<'s> {
    open spec fn obeys_eq_spec() -> bool {
        true
    }

    open spec fn eq_spec(&self, other: &str) -> bool {
        self@ == other@
    }
}

impl<'s> PartialEq<&'s str> for KStringRef<'s> {
    fn eq(&self, other: &&'s str) -> (r: bool) {
        str_eq(self.as_str(), *other)
    }
}

impl<'s> PartialEqSpecImpl<&'s str> for KStringRef<'s> {
    open spec fn obeys_eq_spec() -> bool {
        true
    }

    open spec fn eq_spec(&self, other: &&'s str) -> bool {
        self@ == other@
    }
}

impl<'s> PartialEq<String> for KStringRef<'s> {
    fn eq(&self, other: &String) -> (r: bool) {
        str_eq(self.as_str(), other.as_str())
    }
}

impl<'s> PartialEqSpecImpl<String> for KStringRef<'s> {
    open spec fn obeys_eq_spec() -> bool {
        true
    }

    open spec fn eq_spec(&self, other: &String) -> bool {
        self@ == other@
    }
}

impl<'s> Eq for KStringRef<'s> {}


/// `==` between stack strings, and between a stack string and a `str`,
/// `&str` or `String`, is true exactly when both hold the same characters,
/// whatever the capacities.
pub proof fn law_stack_string_eq<const C1: usize, const C2: usize>(
    a: StackString<C2>,
    b: StackString<C1>,
    s: &str,
    t: String,
)
    ensures
        <StackString<C2> as PartialEqSpec<StackString<C1>>>::obeys_eq_spec(),
        <StackString<C2> as PartialEqSpec<str>>::obeys_eq_spec(),
        <StackString<C2> as PartialEqSpec<&str>>::obeys_eq_spec(),
        <StackString<C2> as PartialEqSpec<String>>::obeys_eq_spec(),
        PartialEqSpec::eq_spec(&a, &b) <==> a@ == b@,
        PartialEqSpec::eq_spec(&a, &b) <==> encode_utf8(a@) == encode_utf8(b@),
        PartialEqSpec::eq_spec(&a, &b) == PartialEqSpec::eq_spec(&b, &a),
        PartialEqSpec::eq_spec(&a, s) <==> a@ == s@,
        PartialEqSpec::eq_spec(&a, &s) <==> a@ == s@,
        PartialEqSpec::eq_spec(&a, &t) <==> a@ == t@,
{
    lemma_encode_utf8_injective(a@, b@);
}

/// `==` between key strings, and between a key string and a `str`, `&str`
/// or `String`, is true exactly when both hold the same characters, however
/// each is stored.
pub proof fn law_kstring_eq<B: HeapStr>(a: KString<B>, b: KString<B>, s: &str, t: String)
    ensures
        <KString<B> as PartialEqSpec<KString<B>>>::obeys_eq_spec(),
        <KString<B> as PartialEqSpec<str>>::obeys_eq_spec(),
        <KString<B> as PartialEqSpec<&str>>::obeys_eq_spec(),
        <KString<B> as PartialEqSpec<String>>::obeys_eq_spec(),
        PartialEqSpec::eq_spec(&a, &b) <==> a@ == b@,
        PartialEqSpec::eq_spec(&a, &b) <==> encode_utf8(a@) == encode_utf8(b@),
        PartialEqSpec::eq_spec(&a, &b) == PartialEqSpec::eq_spec(&b, &a),
        PartialEqSpec::eq_spec(&a, s) <==> a@ == s@,
        PartialEqSpec::eq_spec(&a, &s) <==> a@ == s@,
        PartialEqSpec::eq_spec(&a, &t) <==> a@ == t@,
{
    lemma_encode_utf8_injective(a@, b@);
}

/// `==` between `KStringCow`s, and between one and a `str`, `&str` or
/// `String`, is true exactly when both hold the same characters, borrowed
/// or owned.
pub proof fn law_kstring_cow_eq<'s, B: HeapStr>(
    a: KStringCow<'s, B>,
    b: KStringCow<'s, B>,
    s: &'s str,
    t: String,
)
    ensures
        <KStringCow<'s, B> as PartialEqSpec<KStringCow<'s, B>>>::obeys_eq_spec(),
        <KStringCow<'s, B> as PartialEqSpec<str>>::obeys_eq_spec(),
        <KStringCow<'s, B> as PartialEqSpec<&'s str>>::obeys_eq_spec(),
        <KStringCow<'s, B> as PartialEqSpec<String>>::obeys_eq_spec(),
        PartialEqSpec::eq_spec(&a, &b) <==> a@ == b@,
        PartialEqSpec::eq_spec(&a, &b) <==> encode_utf8(a@) == encode_utf8(b@),
        PartialEqSpec::eq_spec(&a, &b) == PartialEqSpec::eq_spec(&b, &a),
        PartialEqSpec::eq_spec(&a, s) <==> a@ == s@,
        PartialEqSpec::eq_spec(&a, &s) <==> a@ == s@,
        PartialEqSpec::eq_spec(&a, &t) <==> a@ == t@,
{
    lemma_encode_utf8_injective(a@, b@);
}

/// `==` between `KStringRef`s, and between one and a `str`, `&str` or
/// `String`, is true exactly when both hold the same characters.
pub proof fn law_kstring_ref_eq<'s>(a: KStringRef<'s>, b: KStringRef<'s>, s: &'s str, t: String)
    ensures
        <KStringRef<'s> as PartialEqSpec<KStringRef<'s>>>::obeys_eq_spec(),
        <KStringRef<'s> as PartialEqSpec<str>>::obeys_eq_spec(),
        <KStringRef<'s> as PartialEqSpec<&'s str>>::obeys_eq_spec(),
        <KStringRef<'s> as PartialEqSpec<String>>::obeys_eq_spec(),
        PartialEqSpec::eq_spec(&a, &b) <==> a@ == b@,
        PartialEqSpec::eq_spec(&a, &b) <==> encode_utf8(a@) == encode_utf8(b@),
        PartialEqSpec::eq_spec(&a, &b) == PartialEqSpec::eq_spec(&b, &a),
        PartialEqSpec::eq_spec(&a, s) <==> a@ == s@,
        PartialEqSpec::eq_spec(&a, &s) <==> a@ == s@,
        PartialEqSpec::eq_spec(&a, &t) <==> a@ == t@,
{
    lemma_encode_utf8_injective(a@, b@);
}

} // verus!
