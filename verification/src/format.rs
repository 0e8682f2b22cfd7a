use vstd::prelude::*;

use crate::stack::StackString;
use crate::string::{KString, CAPACITY};
use crate::text::{
    utf8_len, byte_len, char_len_utf8, law_utf8_len_concat, string_with_capacity,
    string_reserve, string_push, string_push_str,
};

verus! {

/// A writer that appends text to an inline `StackString` while it fits, and
/// to a heap-allocated `String` once it does not.
#[derive(Clone)]
pub enum KStringWriter {
    Inline(StackString<CAPACITY>),
    Owned(String),
}

impl View for KStringWriter {
    type V = Seq<char>;

    open spec fn view(&self) -> Seq<char> {
        match self {
            KStringWriter::Inline(s) => s@,
            KStringWriter::Owned(s) => s@,
        }
    }
}

/// The strings of `parts`, one after the other.
pub open spec fn concat_strs(parts: Seq<&str>) -> Seq<char>
    decreases parts.len(),
{
    if parts.len() == 0 {
        Seq::<char>::empty()
    } else {
        concat_strs(parts.drop_last()) + parts.last()@
    }
}

/// A prefix of the parts makes a text no longer than all of them.
proof fn lemma_concat_strs_prefix(parts: Seq<&str>, k: int)
    requires
        0 <= k <= parts.len(),
    ensures
        utf8_len(concat_strs(parts.take(k))) <= utf8_len(concat_strs(parts)),
    decreases parts.len() - k,
{
    if k < parts.len() {
        lemma_concat_strs_prefix(parts, k + 1);
        assert(parts.take(k + 1).drop_last() =~= parts.take(k));
        law_utf8_len_concat(concat_strs(parts.take(k)), parts[k]@);
    } else {
        assert(parts.take(k) =~= parts);
    }
}

impl KStringWriter {
    /// An empty writer, writing inline.
    pub fn new() -> (r: Self)
        ensures
            r@ == Seq::<char>::empty(),
            r is Inline,
    {
        Self::Inline(StackString::empty())
    }

    /// Reserves room for `additional` more bytes: an inline writer whose
    /// length would then pass `KString::MAX_INLINE_LEN` moves to the heap.
    pub fn reserve(&mut self, additional: usize)
        requires
            utf8_len(old(self)@) + additional <= isize::MAX,
        ensures
            final(self)@ == old(self)@,
            *final(self) is Inline <==> (*old(self) is Inline && utf8_len(old(self)@) + additional
                <= KString::MAX_INLINE_LEN),
    {
        match self {
            KStringWriter::Inline(inline) => {
                let capacity = inline.len() + additional;
                if capacity > KString::MAX_INLINE_LEN {
                    let mut owned = string_with_capacity(capacity);
                    string_push_str(&mut owned, inline.as_str());
                    assert(owned@ =~= old(self)@);
                    *self = KStringWriter::Owned(owned);
                }
            },
            KStringWriter::Owned(owned) => {
                string_reserve(owned, additional);
            },
        }
    }

    /// Appends a single character.
    pub fn push(&mut self, ch: char)
        requires
            utf8_len(old(self)@) + utf8_len(seq![ch]) <= isize::MAX,
        ensures
            final(self)@ == old(self)@.push(ch),
            *final(self) is Inline <==> (*old(self) is Inline && utf8_len(old(self)@) + utf8_len(
                seq![ch],
            ) <= KString::MAX_INLINE_LEN),
    {
        let pushed = match self {
            KStringWriter::Inline(inline) => inline.try_push_char(ch),
            KStringWriter::Owned(_) => false,
        };
        if !pushed {
            if let KStringWriter::Inline(inline) = self {
                *self = KStringWriter::Owned(inline.as_str().to_owned());
            }
            match self {
                KStringWriter::Owned(owned) => string_push(owned, ch),
                KStringWriter::Inline(_) => {},
            }
        }
    }

    /// Appends a string slice.
    pub fn push_str(&mut self, s: &str)
        requires
            utf8_len(old(self)@) + utf8_len(s@) <= isize::MAX,
        ensures
            final(self)@ == old(self)@ + s@,
            *final(self) is Inline <==> (*old(self) is Inline && utf8_len(old(self)@) + utf8_len(
                s@,
            ) <= KString::MAX_INLINE_LEN),
    {
        let pushed = match self {
            KStringWriter::Inline(inline) => inline.try_push(s),
            KStringWriter::Owned(_) => false,
        };
        if !pushed {
            if let KStringWriter::Inline(inline) = self {
                *self = KStringWriter::Owned(inline.as_str().to_owned());
            }
            match self {
                KStringWriter::Owned(owned) => string_push_str(owned, s),
                KStringWriter::Inline(_) => {},
            }
        }
    }

    /// Appends each character of `chars` in turn, as `push` does. Text that
    /// would pass `isize::MAX` bytes, which no allocation can hold, is not
    /// appended: the characters from there on are left out.
    pub fn extend_chars(&mut self, chars: &[char])
        ensures
            utf8_len(old(self)@) + utf8_len(chars@) <= isize::MAX ==> final(self)@ == old(self)@
                + chars@,
            exists|k: int| 0 <= k <= chars@.len() && final(self)@ == old(self)@ + chars@.take(k),
            *final(self) is Inline <==> (*old(self) is Inline && utf8_len(final(self)@)
                <= KString::MAX_INLINE_LEN),
    {
        let n = chars.len();
        let mut i: usize = 0;
        let mut len = self.byte_length();
        assert(chars@.take(0) =~= Seq::<char>::empty());
        assert(old(self)@ + chars@.take(0) =~= old(self)@);
        while i < n
            invariant
                n == chars@.len(),
                0 <= i <= n,
                self@ == old(self)@ + chars@.take(i as int),
                len == utf8_len(self@),
                *self is Inline <==> (*old(self) is Inline && utf8_len(self@)
                    <= KString::MAX_INLINE_LEN),
            ensures
                utf8_len(old(self)@) + utf8_len(chars@) <= isize::MAX ==> i == n,
                0 <= i <= n,
                self@ == old(self)@ + chars@.take(i as int),
                *self is Inline <==> (*old(self) is Inline && utf8_len(self@)
                    <= KString::MAX_INLINE_LEN),
            decreases n - i,
        {
            let c = chars[i];
            let w = char_len_utf8(c);
            let ghost prev = self@;
            proof {
                law_utf8_len_concat(chars@.take(i as int), seq![c]);
                assert(chars@.take(i as int) + seq![c] =~= chars@.take(i + 1));
                law_utf8_len_concat(chars@.take(i + 1), chars@.skip(i + 1));
                assert(chars@.take(i + 1) + chars@.skip(i + 1) =~= chars@);
                law_utf8_len_concat(old(self)@, chars@.take(i as int));
            }
            if len > isize::MAX as usize || w > isize::MAX as usize - len {
                break;
            }
            proof {
                assert(utf8_len(self@) + utf8_len(seq![c]) <= isize::MAX);
            }
            self.push(c);
            proof {
                assert(self@ =~= old(self)@ + chars@.take(i + 1));
                assert(prev.push(c) =~= prev + seq![c]);
                law_utf8_len_concat(prev, seq![c]);
            }
            len = len + w;
            i = i + 1;
        }
    }

    /// Appends each string of `strs` in turn, as `push_str` does. Text that
    /// would pass `isize::MAX` bytes, which no allocation can hold, is not
    /// appended: the strings from there on are left out.
    pub fn extend_strs(&mut self, strs: &[&str])
        ensures
            utf8_len(old(self)@) + utf8_len(concat_strs(strs@)) <= isize::MAX ==> final(self)@
                == old(self)@ + concat_strs(strs@),
            exists|k: int|
                0 <= k <= strs@.len() && final(self)@ == old(self)@ + concat_strs(strs@.take(k)),
            *final(self) is Inline <==> (*old(self) is Inline && utf8_len(final(self)@)
                <= KString::MAX_INLINE_LEN),
    {
        let n = strs.len();
        let mut i: usize = 0;
        let mut len = self.byte_length();
        assert(strs@.take(0) =~= Seq::<&str>::empty());
        assert(old(self)@ + concat_strs(strs@.take(0)) =~= old(self)@);
        while i < n
            invariant
                n == strs@.len(),
                0 <= i <= n,
                self@ == old(self)@ + concat_strs(strs@.take(i as int)),
                len == utf8_len(self@),
                *self is Inline <==> (*old(self) is Inline && utf8_len(self@)
                    <= KString::MAX_INLINE_LEN),
            ensures
                utf8_len(old(self)@) + utf8_len(concat_strs(strs@)) <= isize::MAX ==> i == n,
                0 <= i <= n,
                self@ == old(self)@ + concat_strs(strs@.take(i as int)),
                *self is Inline <==> (*old(self) is Inline && utf8_len(self@)
                    <= KString::MAX_INLINE_LEN),
            decreases n - i,
        {
            let s = strs[i];
            let w = byte_len(s);
            let ghost prev = self@;
            proof {
                assert(strs@.take(i + 1).drop_last() =~= strs@.take(i as int));
                assert(concat_strs(strs@.take(i + 1)) == concat_strs(strs@.take(i as int)) + s@);
                law_utf8_len_concat(concat_strs(strs@.take(i as int)), s@);
                lemma_concat_strs_prefix(strs@, i + 1);
                law_utf8_len_concat(old(self)@, concat_strs(strs@.take(i as int)));
                law_utf8_len_concat(old(self)@, concat_strs(strs@.take(i + 1)));
            }
            if len > isize::MAX as usize || w > isize::MAX as usize - len {
                break;
            }
            self.push_str(s);
            proof {
                assert(self@ =~= old(self)@ + concat_strs(strs@.take(i + 1)));
                law_utf8_len_concat(prev, s@);
            }
            len = len + w;
            i = i + 1;
        }
        proof {
            if i == n {
                assert(strs@.take(n as int) =~= strs@);
            }
        }
    }

    /// The length of the text written so far, in bytes.
    fn byte_length(&self) -> (r: usize)
        ensures
            r == utf8_len(self@),
            *self is Inline ==> r <= KString::MAX_INLINE_LEN,
    {
        match self {
            KStringWriter::Inline(inline) => inline.len(),
            KStringWriter::Owned(owned) => byte_len(owned.as_str()),
        }
    }

    /// The text written so far.
    pub fn as_str(&self) -> (r: &str)
        ensures
            r@ == self@,
    {
        match self {
            KStringWriter::Inline(inline) => inline.as_str(),
            KStringWriter::Owned(owned) => owned.as_str(),
        }
    }
}

impl Default for KStringWriter {
    fn default() -> (r: Self)
        ensures
            r@ == Seq::<char>::empty(),
            r is Inline,
    {
        Self::new()
    }
}

} // verus!
