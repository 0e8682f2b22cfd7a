use vstd::prelude::*;
use vstd::utf8::*;
use vstd::string::StringSliceAdditionalSpecFns;
use vstd::slice::slice_subrange;

use crate::text::{
    utf8_len, byte_len, str_from_utf8, char_len_utf8, char_encode_utf8, lemma_encode_utf8_concat,
    lemma_utf8_len_zero, lemma_utf8_len_char, lemma_concat_boundary,
};

verus! {

broadcast use vstd::utf8::group_utf8_lib;

/// Fixed-size stack-allocated string
#[derive(Copy, Clone)]
pub struct StackString<const CAPACITY: usize> {
    len: u8,
    buffer: StrBuffer<CAPACITY>,
}

/// The bytes behind a `StackString`; only a prefix of them is in use.
#[derive(Copy, Clone)]
pub(crate) struct StrBuffer<const CAPACITY: usize>(pub(crate) [u8; CAPACITY]);

/// Copies `src` into `buf` at `start`, leaving the bytes before `start` alone.
fn copy_bytes<const CAPACITY: usize>(buf: &mut [u8; CAPACITY], start: usize, src: &[u8])
    requires
        start + src@.len() <= CAPACITY,
    ensures
        final(buf)@.take(start as int) == old(buf)@.take(start as int),
        final(buf)@.subrange(start as int, start + src@.len()) == src@,
        final(buf)@.take(start + src@.len()) == old(buf)@.take(start as int) + src@,
{
    let n = src.len();
    let mut i: usize = 0;
    while i < n
        invariant
            n == src@.len(),
            start + n <= CAPACITY,
            0 <= i <= n,
            buf@.len() == CAPACITY,
            buf@.take(start as int) == old(buf)@.take(start as int),
            forall|j: int| 0 <= j < i ==> buf@[start + j] == src@[j],
        decreases n - i,
    {
        buf[start + i] = src[i];
        i = i + 1;
        assert(buf@.take(start as int) =~= old(buf)@.take(start as int));
    }
    assert(buf@.subrange(start as int, start + n) =~= src@);
    assert(buf@.take(start + n) =~= old(buf)@.take(start as int) + src@);
}

impl<const CAPACITY: usize> StackString<CAPACITY> {
    #[verifier::type_invariant]
    spec fn holds_utf8(self) -> bool {
        &&& self.len <= CAPACITY
        &&& valid_utf8(self.buffer.0@.take(self.len as int))
    }

    /// The bytes in use.
    closed spec fn bytes(self) -> Seq<u8> {
        self.buffer.0@.take(self.len as int)
    }

    proof fn lemma_bytes(self)
        requires
            self.holds_utf8(),
        ensures
            self.bytes() == encode_utf8(self@),
            self.len == utf8_len(self@),
    {
    }

    /// An empty string.
    pub fn empty() -> (r: Self)
        ensures
            r@ == Seq::<char>::empty(),
    {
        let r = Self { len: 0, buffer: StrBuffer::empty() };
        assert(r.buffer.0@.take(0) =~= Seq::<u8>::empty());
        r
    }

    /// Create a `StackString` from a `&str`, if it'll fit within `Self::CAPACITY`
    pub fn try_new(s: &str) -> (r: Option<Self>)
        requires
            CAPACITY <= u8::MAX,
        ensures
            r is Some <==> utf8_len(s@) <= CAPACITY,
            r matches Some(t) ==> t@ == s@,
    {
        if byte_len(s) <= CAPACITY {
            Some(Self::new(s))
        } else {
            None
        }
    }

    /// Create a `StackString` from a `&str`; the string must fit within `Self::CAPACITY`.
    pub fn new(s: &str) -> (r: Self)
        requires
            CAPACITY <= u8::MAX,
            utf8_len(s@) <= CAPACITY,
        ensures
            r@ == s@,
    {
        Self::from_fitting(s)
    }

    /// A `StackString` of `s`, which fits both the capacity and the length
    /// byte.
    pub(crate) fn from_fitting(s: &str) -> (r: Self)
        requires
            utf8_len(s@) <= CAPACITY,
            utf8_len(s@) <= u8::MAX,
        ensures
            r@ == s@,
    {
        let len = byte_len(s) as u8;
        let buffer = StrBuffer::new(s);
        let r = Self { len, buffer };
        proof {
            assert(r.bytes() == encode_utf8(s@));
        }
        r
    }

    /// Extracts a string slice containing the entire `StackString`.
    pub fn as_str(&self) -> (r: &str)
        ensures
            r@ == self@,
    {
        proof { use_type_invariant(self); }
        let len = self.len as usize;
        self.buffer.as_str(len)
    }

    /// Returns the length of this `StackString`, in bytes.
    pub fn len(&self) -> (r: usize)
        ensures
            r == utf8_len(self@),
            r <= CAPACITY,
    {
        proof {
            use_type_invariant(self);
            self.lemma_bytes();
        }
        self.len as usize
    }

    /// Returns `true` if this `StackString` has a length of zero.
    pub fn is_empty(&self) -> (r: bool)
        ensures
            r == (self@.len() == 0),
    {
        proof { lemma_utf8_len_zero(self@); }
        self.len() == 0
    }

    /// Truncates this `StackString`, removing all contents.
    pub fn clear(&mut self)
        ensures
            final(self)@ == Seq::<char>::empty(),
    {
        self.len = 0;
        assert(self.buffer.0@.take(0) =~= Seq::<u8>::empty());
    }

    /// Shortens this `StackString` to the specified length in bytes; a length
    /// past the end has no effect.
    pub fn truncate(&mut self, new_len: usize)
        requires
            new_len <= utf8_len(old(self)@) ==> is_char_boundary(
                encode_utf8(old(self)@),
                new_len as int,
            ),
        ensures
            new_len <= utf8_len(old(self)@) ==> final(self)@ == decode_utf8(
                encode_utf8(old(self)@).take(new_len as int),
            ),
            new_len > utf8_len(old(self)@) ==> final(self)@ == old(self)@,
    {
        proof {
            use_type_invariant(&*self);
            self.lemma_bytes();
        }
        if new_len <= self.len() {
            let ghost old_bytes = self.bytes();
            let ok = self.as_str().is_char_boundary(new_len);
            assert(ok);
            proof {
                valid_utf8_split(old_bytes, new_len as int);
                assert(self.buffer.0@.take(new_len as int) =~= old_bytes.subrange(0, new_len as int));
            }
            self.len = new_len as u8;
        }
    }

    /// Tries to append a `&str`, if it'll fit within `Self::CAPACITY`.
    pub fn try_push(&mut self, s: &str) -> (r: bool)
        requires
            CAPACITY <= u8::MAX,
        ensures
            r == (utf8_len(old(self)@) + utf8_len(s@) <= CAPACITY),
            r ==> final(self)@ == old(self)@ + s@,
            !r ==> final(self)@ == old(self)@,
    {
        proof {
            use_type_invariant(&*self);
            self.lemma_bytes();
        }
        if byte_len(s) <= CAPACITY - self.len as usize {
            self.push(s);
            true
        } else {
            false
        }
    }

    /// Appends a `&str`; the result must fit within `Self::CAPACITY`.
    pub fn push(&mut self, s: &str)
        requires
            CAPACITY <= u8::MAX,
            utf8_len(old(self)@) + utf8_len(s@) <= CAPACITY,
        ensures
            final(self)@ == old(self)@ + s@,
    {
        let bytes = s.as_bytes();
        self.push_bytes(bytes, Ghost(s@));
    }

    /// Tries to append a `char`, if it'll fit within `Self::CAPACITY`.
    pub fn try_push_char(&mut self, c: char) -> (r: bool)
        requires
            CAPACITY <= u8::MAX,
        ensures
            r == (utf8_len(old(self)@) + utf8_len(seq![c]) <= CAPACITY),
            r ==> final(self)@ == old(self)@.push(c),
            !r ==> final(self)@ == old(self)@,
    {
        proof {
            use_type_invariant(&*self);
            self.lemma_bytes();
        }
        if char_len_utf8(c) <= CAPACITY - self.len as usize {
            self.push_char(c);
            true
        } else {
            false
        }
    }

    /// Appends a `char`; the result must fit within `Self::CAPACITY`.
    pub fn push_char(&mut self, c: char)
        requires
            CAPACITY <= u8::MAX,
            utf8_len(old(self)@) + utf8_len(seq![c]) <= CAPACITY,
        ensures
            final(self)@ == old(self)@.push(c),
    {
        let n = char_len_utf8(c);
        let buf = char_encode_utf8(c);
        proof { lemma_utf8_len_char(c); }
        let bytes = slice_subrange(buf.as_slice(), 0, n);
        assert(bytes@ =~= buf@.take(n as int));
        let ghost one = seq![c];
        self.push_bytes(bytes, Ghost(one));
        assert(old(self)@ + seq![c] =~= old(self)@.push(c));
    }

    /// Appends the UTF-8 encoding of `chars`.
    fn push_bytes(&mut self, bytes: &[u8], Ghost(chars): Ghost<Seq<char>>)
        requires
            CAPACITY <= u8::MAX,
            bytes@ == encode_utf8(chars),
            utf8_len(old(self)@) + utf8_len(chars) <= CAPACITY,
        ensures
            final(self)@ == old(self)@ + chars,
    {
        proof {
            use_type_invariant(&*self);
            self.lemma_bytes();
            lemma_encode_utf8_concat(self@, chars);
        }
        let start = self.len as usize;
        let mut buffer = self.buffer;
        copy_bytes(&mut buffer.0, start, bytes);
        let new_len = start + bytes.len();
        *self = StackString { len: new_len as u8, buffer };
    }
}

/// Truncating to the byte length a string had before a push undoes the
/// push: that length is a character boundary of the longer string, and the
/// bytes before it decode to the shorter one.
pub proof fn law_truncate_undoes_push(a: Seq<char>, b: Seq<char>)
    ensures
        is_char_boundary(encode_utf8(a + b), utf8_len(a) as int),
        decode_utf8(encode_utf8(a + b).take(utf8_len(a) as int)) == a,
{
    lemma_encode_utf8_concat(a, b);
    lemma_concat_boundary(encode_utf8(a), encode_utf8(b));
    assert((encode_utf8(a) + encode_utf8(b)).take(utf8_len(a) as int) =~= encode_utf8(a));
}

impl<const CAPACITY: usize> Default for StackString<CAPACITY> {
    fn default() -> (r: Self)
        ensures
            r@ == Seq::<char>::empty(),
    {
        Self::empty()
    }
}

impl<const CAPACITY: usize> View for StackString<CAPACITY> {
    type V = Seq<char>;

    closed spec fn view(&self) -> Seq<char> {
        decode_utf8(self.bytes())
    }
}

impl<const CAPACITY: usize> StrBuffer<CAPACITY> {
    pub(crate) fn empty() -> (r: Self)
        ensures
            r.0@ == Seq::new(CAPACITY as nat, |i: int| 0u8),
    {
        let r = StrBuffer([0u8; CAPACITY]);
        assert(r.0@ =~= Seq::new(CAPACITY as nat, |i: int| 0u8));
        r
    }

    /// A buffer that starts with the bytes of `s`.
    pub(crate) fn new(s: &str) -> (r: Self)
        requires
            s.spec_bytes().len() <= CAPACITY,
        ensures
            r.0@.take(s.spec_bytes().len() as int) == s.spec_bytes(),
    {
        let mut buffer = Self::empty();
        copy_bytes(&mut buffer.0, 0, s.as_bytes());
        assert(Seq::<u8>::empty() + s.spec_bytes() =~= s.spec_bytes());
        buffer
    }

    pub(crate) fn as_str(&self, len: usize) -> (r: &str)
        requires
            len <= CAPACITY,
            valid_utf8(self.0@.take(len as int)),
        ensures
            r.spec_bytes() == self.0@.take(len as int),
            r@ == decode_utf8(self.0@.take(len as int)),
    {
        let slice = slice_subrange(self.0.as_slice(), 0, len);
        assert(slice@ =~= self.0@.take(len as int));
        str_from_utf8(slice).unwrap()
    }
}

impl<const CAPACITY: usize> Default for StrBuffer<CAPACITY> {
    fn default() -> Self {
        Self::empty()
    }
}

} // verus!
