use vstd::prelude::*;
use vstd::std_specs::cmp::{PartialEqSpec, PartialOrdSpec, PartialOrdSpecImpl};
use vstd::utf8::encode_utf8;
use core::cmp::Ordering;

use crate::backend::HeapStr;
use crate::stack::StackString;
use crate::string::KString;
use crate::string_cow::KStringCow;
use crate::string_ref::KStringRef;
use crate::text::{bytes_before, lemma_bytes_before_step};

verus! {

broadcast use vstd::utf8::group_utf8_lib;

/// Lexicographic order of byte sequences: the first differing byte decides,
/// and a proper prefix comes first.
pub open spec fn lex_order(a: Seq<u8>, b: Seq<u8>) -> Ordering
    decreases a.len(),
{
    if a.len() == 0 {
        if b.len() == 0 {
            Ordering::Equal
        } else {
            Ordering::Less
        }
    } else if b.len() == 0 {
        Ordering::Greater
    } else if a[0] < b[0] {
        Ordering::Less
    } else if b[0] < a[0] {
        Ordering::Greater
    } else {
        lex_order(a.drop_first(), b.drop_first())
    }
}

/// The order of strings: lexicographic over their UTF-8 bytes.
pub open spec fn str_order(a: Seq<char>, b: Seq<char>) -> Ordering {
    lex_order(encode_utf8(a), encode_utf8(b))
}

/// `<str as Ord>::cmp`: std documents that strings are ordered
/// lexicographically by their byte values.
#[verifier::external_body]
fn str_order_of(a: &str, b: &str) -> (r: Ordering)
    ensures
        r == str_order(a@, b@),
{
    a.cmp(b)
}

/// Byte order is `Equal` exactly on equal sequences.
pub proof fn lemma_lex_order_equal(a: Seq<u8>, b: Seq<u8>)
    ensures
        (lex_order(a, b) == Ordering::Equal) == (a == b),
    decreases a.len(),
{
    if a.len() > 0 && b.len() > 0 && a[0] == b[0] {
        lemma_lex_order_equal(a.drop_first(), b.drop_first());
        if a.drop_first() == b.drop_first() {
            assert(a =~= seq![a[0]] + a.drop_first());
            assert(b =~= seq![b[0]] + b.drop_first());
        }
        if a == b {
            assert(a.drop_first() =~= b.drop_first());
        }
    } else if a.len() == 0 && b.len() == 0 {
        assert(a =~= b);
    }
}

/// Swapping the arguments reverses the byte order.
pub proof fn lemma_lex_order_reverse(a: Seq<u8>, b: Seq<u8>)
    ensures
        (lex_order(a, b) == Ordering::Less) == (lex_order(b, a) == Ordering::Greater),
        (lex_order(a, b) == Ordering::Greater) == (lex_order(b, a) == Ordering::Less),
    decreases a.len(),
{
    if a.len() > 0 && b.len() > 0 && a[0] == b[0] {
        lemma_lex_order_reverse(a.drop_first(), b.drop_first());
    }
}

/// The byte order is transitive.
pub proof fn lemma_lex_order_transitive(a: Seq<u8>, b: Seq<u8>, c: Seq<u8>)
    requires
        lex_order(a, b) == Ordering::Less,
        lex_order(b, c) == Ordering::Less,
    ensures
        lex_order(a, c) == Ordering::Less,
    decreases a.len(),
{
    if a.len() > 0 && b.len() > 0 && c.len() > 0 && a[0] == b[0] && b[0] == c[0] {
        lemma_lex_order_transitive(a.drop_first(), b.drop_first(), c.drop_first());
    }
}

/// The byte order puts `x` first exactly when `x` comes before `y` byte by
/// byte.
pub proof fn lemma_lex_order_less(x: Seq<u8>, y: Seq<u8>)
    ensures
        (lex_order(x, y) == Ordering::Less) == bytes_before(x, y),
    decreases x.len(),
{
    lemma_bytes_before_step(x, y);
    if x.len() > 0 && y.len() > 0 && x[0] == y[0] {
        lemma_lex_order_less(x.drop_first(), y.drop_first());
    }
}

/// String order is `Equal` exactly on equal strings, reverses when the
/// arguments swap, and is transitive: a total order.
pub proof fn law_str_order_total(a: Seq<char>, b: Seq<char>, c: Seq<char>)
    ensures
        (str_order(a, b) == Ordering::Equal) == (a == b),
        (str_order(a, b) == Ordering::Less) == (str_order(b, a) == Ordering::Greater),
        str_order(a, b) == Ordering::Less && str_order(b, c) == Ordering::Less ==> str_order(a, c)
            == Ordering::Less,
{
    lemma_lex_order_equal(encode_utf8(a), encode_utf8(b));
    lemma_lex_order_reverse(encode_utf8(a), encode_utf8(b));
    if str_order(a, b) == Ordering::Less && str_order(b, c) == Ordering::Less {
        lemma_lex_order_transitive(encode_utf8(a), encode_utf8(b), encode_utf8(c));
    }
    if encode_utf8(a) == encode_utf8(b) {
        assert(a == vstd::utf8::decode_utf8(encode_utf8(a)));
        assert(b == vstd::utf8::decode_utf8(encode_utf8(b)));
    }
}

impl<const C1: usize, const C2: usize> PartialOrd<StackString<C1>> for StackString<C2> {
    fn partial_cmp(&self, other: &StackString<C1>) -> (r: Option<Ordering>) {
        Some(str_order_of(self.as_str(), other.as_str()))
    }
}

impl<const C1: usize, const C2: usize> PartialOrdSpecImpl<StackString<C1>> for StackString<C2> {
    open spec fn obeys_partial_cmp_spec() -> bool {
        true
    }

    open spec fn partial_cmp_spec(&self, other: &StackString<C1>) -> Option<Ordering> {
        Some(str_order(self@, other@))
    }
}

impl<const CAPACITY: usize> PartialOrd<str> for StackString<CAPACITY> {
    fn partial_cmp(&self, other: &str) -> (r: Option<Ordering>) {
        Some(str_order_of(self.as_str(), other))
    }
}

impl<const CAPACITY: usize> PartialOrdSpecImpl<str> for StackString<CAPACITY> {
    open spec fn obeys_partial_cmp_spec() -> bool {
        true
    }

    open spec fn partial_cmp_spec(&self, other: &str) -> Option<Ordering> {
        Some(str_order(self@, other@))
    }
}

impl<const CAPACITY: usize> PartialOrd<&str> for StackString<CAPACITY> {
    fn partial_cmp(&self, other: &&str) -> (r: Option<Ordering>) {
        Some(str_order_of(self.as_str(), *other))
    }
}

impl<const CAPACITY: usize> PartialOrdSpecImpl<&str> for StackString<CAPACITY> {
    open spec fn obeys_partial_cmp_spec() -> bool {
        true
    }

    open spec fn partial_cmp_spec(&self, other: &&str) -> Option<Ordering> {
        Some(str_order(self@, other@))
    }
}

impl<const CAPACITY: usize> PartialOrd<String> for StackString<CAPACITY> {
    fn partial_cmp(&self, other: &String) -> (r: Option<Ordering>) {
        Some(str_order_of(self.as_str(), other.as_str()))
    }
}

impl<const CAPACITY: usize> PartialOrdSpecImpl<String> for StackString<CAPACITY> {
    open spec fn obeys_partial_cmp_spec() -> bool {
        true
    }

    open spec fn partial_cmp_spec(&self, other: &String) -> Option<Ordering> {
        Some(str_order(self@, other@))
    }
}

impl<B: HeapStr> PartialOrd<KString<B>> for KString<B> {
    fn partial_cmp(&self, other: &KString<B>) -> (r: Option<Ordering>) {
        Some(str_order_of(self.as_str(), other.as_str()))
    }
}

impl<B: HeapStr> PartialOrdSpecImpl<KString<B>> for KString<B> {
    open spec fn obeys_partial_cmp_spec() -> bool {
        true
    }

    open spec fn partial_cmp_spec(&self, other: &KString<B>) -> Option<Ordering> {
        Some(str_order(self@, other@))
    }
}

impl<'s, B: HeapStr> PartialOrd<KStringCow<'s, B>> for KStringCow<'s, B> {
    fn partial_cmp(&self, other: &KStringCow<'s, B>) -> (r: Option<Ordering>) {
        Some(str_order_of(self.as_str(), other.as_str()))
    }
}

impl<'s, B: HeapStr> PartialOrdSpecImpl<KStringCow<'s, B>> for KStringCow<'s, B> {
    open spec fn obeys_partial_cmp_spec() -> bool {
        true
    }

    open spec fn partial_cmp_spec(&self, other: &KStringCow<'s, B>) -> Option<Ordering> {
        Some(str_order(self@, other@))
    }
}

impl<'s> PartialOrd<KStringRef<'s>> for KStringRef<'s> {
    fn partial_cmp(&self, other: &KStringRef<'s>) -> (r: Option<Ordering>) {
        Some(str_order_of(self.as_str(), other.as_str()))
    }
}

impl<'s> PartialOrdSpecImpl<KStringRef<'s>> for KStringRef<'s> {
    open spec fn obeys_partial_cmp_spec() -> bool {
        true
    }

    open spec fn partial_cmp_spec(&self, other: &KStringRef<'s>) -> Option<Ordering> {
        Some(str_order(self@, other@))
    }
}

/// Orders strings by `str_order`, as `partial_cmp` does.
impl<const CAPACITY: usize> Ord for StackString<CAPACITY> {
    #[verifier::external_body]
    fn cmp(&self, other: &Self) -> (r: Ordering)
        ensures
            r == str_order(self@, other@),
    {
        str_order_of(self.as_str(), other.as_str())
    }
}

/// Orders strings by `str_order`, as `partial_cmp` does.
impl<B: HeapStr> Ord for KString<B> {
    #[verifier::external_body]
    fn cmp(&self, other: &Self) -> (r: Ordering)
        ensures
            r == str_order(self@, other@),
    {
        str_order_of(self.as_str(), other.as_str())
    }
}

/// Orders strings by `str_order`, as `partial_cmp` does.
impl<'s, B: HeapStr> Ord for KStringCow<'s, B> {
    #[verifier::external_body]
    fn cmp(&self, other: &Self) -> (r: Ordering)
        ensures
            r == str_order(self@, other@),
    {
        str_order_of(self.as_str(), other.as_str())
    }
}

/// Orders strings by `str_order`, as `partial_cmp` does.
impl<'s> Ord for KStringRef<'s> {
    #[verifier::external_body]
    fn cmp(&self, other: &Self) -> (r: Ordering)
        ensures
            r == str_order(self@, other@),
    {
        str_order_of(self.as_str(), other.as_str())
    }
}

/// Whether `partial_cmp` from `A` to `R` answers as its `partial_cmp_spec`
/// says (the values only fix the two types).
pub open spec fn partial_cmp_obeyed<A: PartialOrdSpec<R>, R: ?Sized>(a: &A, b: &R) -> bool {
    A::obeys_partial_cmp_spec()
}

/// The order of strings, read over their UTF-8 bytes: `a` comes first
/// exactly when its bytes come before those of `b` (a proper prefix, or the
/// smaller byte where they first differ), last exactly when those of `b`
/// come before its own, and neither exactly when the strings are equal.
pub proof fn law_str_order_bytes(a: Seq<char>, b: Seq<char>)
    ensures
        (str_order(a, b) == Ordering::Less) == bytes_before(encode_utf8(a), encode_utf8(b)),
        (str_order(a, b) == Ordering::Greater) == bytes_before(encode_utf8(b), encode_utf8(a)),
        (str_order(a, b) == Ordering::Equal) == (a == b),
{
    lemma_lex_order_less(encode_utf8(a), encode_utf8(b));
    lemma_lex_order_less(encode_utf8(b), encode_utf8(a));
    lemma_lex_order_reverse(encode_utf8(a), encode_utf8(b));
    law_str_order_total(a, b, b);
}

/// `partial_cmp` (and with it `<`, `<=`, `>`, `>=`) between stack strings,
/// and between one and a `str`, `&str` or `String`, always answers, and
/// answers with the byte order of the two texts: `Less` exactly when the
/// left text's bytes come first, `Greater` exactly when the right's do, and
/// `Equal` exactly when `==` holds; it is the order that `cmp` gives.
pub proof fn law_stack_string_order<const C1: usize, const C2: usize>(
    a: StackString<C2>,
    b: StackString<C1>,
    s: &str,
    t: String,
)
    ensures
        partial_cmp_obeyed(&a, &b),
        partial_cmp_obeyed(&a, s),
        partial_cmp_obeyed(&a, &s),
        partial_cmp_obeyed(&a, &t),
        PartialOrdSpec::partial_cmp_spec(&a, &b) == Some(str_order(a@, b@)),
        PartialOrdSpec::partial_cmp_spec(&a, s) == Some(str_order(a@, s@)),
        PartialOrdSpec::partial_cmp_spec(&a, &s) == Some(str_order(a@, s@)),
        PartialOrdSpec::partial_cmp_spec(&a, &t) == Some(str_order(a@, t@)),
        (PartialOrdSpec::partial_cmp_spec(&a, &b) == Some(Ordering::Less)) == bytes_before(
            encode_utf8(a@),
            encode_utf8(b@),
        ),
        (PartialOrdSpec::partial_cmp_spec(&a, &b) == Some(Ordering::Greater)) == bytes_before(
            encode_utf8(b@),
            encode_utf8(a@),
        ),
        (PartialOrdSpec::partial_cmp_spec(&a, &b) == Some(Ordering::Equal))
            == PartialEqSpec::eq_spec(&a, &b),
        (PartialOrdSpec::partial_cmp_spec(&a, s) == Some(Ordering::Less)) == bytes_before(
            encode_utf8(a@),
            encode_utf8(s@),
        ),
        (PartialOrdSpec::partial_cmp_spec(&a, s) == Some(Ordering::Greater)) == bytes_before(
            encode_utf8(s@),
            encode_utf8(a@),
        ),
        (PartialOrdSpec::partial_cmp_spec(&a, s) == Some(Ordering::Equal))
            == PartialEqSpec::eq_spec(&a, s),
{
    law_str_order_bytes(a@, b@);
    law_str_order_bytes(a@, s@);
}

/// `partial_cmp` (and with it `<`, `<=`, `>`, `>=`) between key strings
/// always answers, and answers with the byte order of the two texts: `Less`
/// exactly when the left text's bytes come first, `Greater` exactly when the
/// right's do, and `Equal` exactly when `==` holds; it is the order that
/// `cmp` gives.
pub proof fn law_kstring_order<B: HeapStr>(a: KString<B>, b: KString<B>)
    ensures
        partial_cmp_obeyed(&a, &b),
        PartialOrdSpec::partial_cmp_spec(&a, &b) == Some(str_order(a@, b@)),
        (PartialOrdSpec::partial_cmp_spec(&a, &b) == Some(Ordering::Less)) == bytes_before(
            encode_utf8(a@),
            encode_utf8(b@),
        ),
        (PartialOrdSpec::partial_cmp_spec(&a, &b) == Some(Ordering::Greater)) == bytes_before(
            encode_utf8(b@),
            encode_utf8(a@),
        ),
        (PartialOrdSpec::partial_cmp_spec(&a, &b) == Some(Ordering::Equal))
            == PartialEqSpec::eq_spec(&a, &b),
{
    law_str_order_bytes(a@, b@);
}

/// `partial_cmp` (and with it `<`, `<=`, `>`, `>=`) between `KStringCow`s,
/// borrowed or owned, always answers, and answers with the byte order of the
/// two texts: `Less` exactly when the left text's bytes come first,
/// `Greater` exactly when the right's do, and `Equal` exactly when `==`
/// holds; it is the order that `cmp` gives.
pub proof fn law_kstring_cow_order<'s, B: HeapStr>(a: KStringCow<'s, B>, b: KStringCow<'s, B>)
    ensures
        partial_cmp_obeyed(&a, &b),
        PartialOrdSpec::partial_cmp_spec(&a, &b) == Some(str_order(a@, b@)),
        (PartialOrdSpec::partial_cmp_spec(&a, &b) == Some(Ordering::Less)) == bytes_before(
            encode_utf8(a@),
            encode_utf8(b@),
        ),
        (PartialOrdSpec::partial_cmp_spec(&a, &b) == Some(Ordering::Greater)) == bytes_before(
            encode_utf8(b@),
            encode_utf8(a@),
        ),
        (PartialOrdSpec::partial_cmp_spec(&a, &b) == Some(Ordering::Equal))
            == PartialEqSpec::eq_spec(&a, &b),
{
    law_str_order_bytes(a@, b@);
}

/// `partial_cmp` (and with it `<`, `<=`, `>`, `>=`) between `KStringRef`s
/// always answers, and answers with the byte order of the two texts: `Less`
/// exactly when the left text's bytes come first, `Greater` exactly when the
/// right's do, and `Equal` exactly when `==` holds; it is the order that
/// `cmp` gives.
pub proof fn law_kstring_ref_order<'s>(a: KStringRef<'s>, b: KStringRef<'s>)
    ensures
        partial_cmp_obeyed(&a, &b),
        PartialOrdSpec::partial_cmp_spec(&a, &b) == Some(str_order(a@, b@)),
        (PartialOrdSpec::partial_cmp_spec(&a, &b) == Some(Ordering::Less)) == bytes_before(
            encode_utf8(a@),
            encode_utf8(b@),
        ),
        (PartialOrdSpec::partial_cmp_spec(&a, &b) == Some(Ordering::Greater)) == bytes_before(
            encode_utf8(b@),
            encode_utf8(a@),
        ),
        (PartialOrdSpec::partial_cmp_spec(&a, &b) == Some(Ordering::Equal))
            == PartialEqSpec::eq_spec(&a, &b),
{
    law_str_order_bytes(a@, b@);
}

} // verus!
