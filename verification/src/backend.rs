//! Heap storage for strings too long to be held inline.

use vstd::prelude::*;

verus! {

/// A string allocated on the heap, owned by a single value.
pub type BoxedStr = Box<str>;

/// A string allocated on the heap, shared by reference counting across
/// threads.
pub type ArcStr = std::sync::Arc<str>;

/// A string allocated on the heap, shared by reference counting within a
/// thread.
pub type RcStr = std::rc::Rc<str>;

/// The heap storage used when none is named.
pub type DefaultStr = BoxedStr;

/// A heap-allocated string that a `KString` can own.
pub trait HeapStr: Sized {
    /// The characters held.
    spec fn str_view(&self) -> Seq<char>;

    /// Allocates a copy of `other`.
    fn from_str(other: &str) -> (r: Self)
        ensures
            r.str_view() == other@,
    ;

    /// Takes over an existing allocation.
    fn from_boxed_str(other: BoxedStr) -> (r: Self)
        ensures
            r.str_view() == other@,
    ;

    /// The characters held, as a string slice.
    fn as_str(&self) -> (r: &str)
        ensures
            r@ == self.str_view(),
    ;

    /// Another handle on the same characters.
    fn clone_str(&self) -> (r: Self)
        ensures
            r.str_view() == self.str_view(),
    ;
}

/// `<Box<str> as From<&str>>::from`: allocates a copy of the characters.
#[verifier::external_body]
pub(crate) fn boxed_str_from(other: &str) -> (r: BoxedStr)
    ensures
        r@ == other@,
{
    Box::from(other)
}

/// `<Box<str> as Clone>::clone`: allocates a copy of the characters.
#[verifier::external_body]
fn boxed_str_clone(other: &BoxedStr) -> (r: BoxedStr)
    ensures
        r@ == other@,
{
    other.clone()
}

impl HeapStr for BoxedStr {
    open spec fn str_view(&self) -> Seq<char> {
        self@
    }

    fn from_str(other: &str) -> (r: Self) {
        boxed_str_from(other)
    }

    fn from_boxed_str(other: BoxedStr) -> (r: Self) {
        other
    }

    fn as_str(&self) -> (r: &str) {
        &**self
    }

    fn clone_str(&self) -> (r: Self) {
        boxed_str_clone(self)
    }
}

/// `<Arc<str> as From<&str>>::from`: allocates a shared copy of the characters.
#[verifier::external_body]
fn arc_str_from(other: &str) -> (r: ArcStr)
    ensures
        (*r)@ == other@,
{
    ArcStr::from(other)
}

/// `<Arc<str> as From<Box<str>>>::from`: moves the characters into a shared
/// allocation.
#[verifier::external_body]
fn arc_str_from_boxed(other: BoxedStr) -> (r: ArcStr)
    ensures
        (*r)@ == other@,
{
    ArcStr::from(other)
}

/// `<Arc<str> as Clone>::clone`: another handle on the same characters.
#[verifier::external_body]
fn arc_str_clone(other: &ArcStr) -> (r: ArcStr)
    ensures
        (*r)@ == (**other)@,
{
    other.clone()
}

impl HeapStr for ArcStr {
    open spec fn str_view(&self) -> Seq<char> {
        (**self)@
    }

    fn from_str(other: &str) -> (r: Self) {
        arc_str_from(other)
    }

    fn from_boxed_str(other: BoxedStr) -> (r: Self) {
        arc_str_from_boxed(other)
    }

    fn as_str(&self) -> (r: &str) {
        &**self
    }

    fn clone_str(&self) -> (r: Self) {
        arc_str_clone(self)
    }
}

/// `<Rc<str> as From<&str>>::from`: allocates a shared copy of the characters.
#[verifier::external_body]
fn rc_str_from(other: &str) -> (r: RcStr)
    ensures
        (*r)@ == other@,
{
    RcStr::from(other)
}

/// `<Rc<str> as From<Box<str>>>::from`: moves the characters into a shared
/// allocation.
#[verifier::external_body]
fn rc_str_from_boxed(other: BoxedStr) -> (r: RcStr)
    ensures
        (*r)@ == other@,
{
    RcStr::from(other)
}

/// `<Rc<str> as Clone>::clone`: another handle on the same characters.
#[verifier::external_body]
fn rc_str_clone(other: &RcStr) -> (r: RcStr)
    ensures
        (*r)@ == (**other)@,
{
    other.clone()
}

impl HeapStr for RcStr {
    open spec fn str_view(&self) -> Seq<char> {
        (**self)@
    }

    fn from_str(other: &str) -> (r: Self) {
        rc_str_from(other)
    }

    fn from_boxed_str(other: BoxedStr) -> (r: Self) {
        rc_str_from_boxed(other)
    }

    fn as_str(&self) -> (r: &str) {
        &**self
    }

    fn clone_str(&self) -> (r: Self) {
        rc_str_clone(self)
    }
}

} // verus!
