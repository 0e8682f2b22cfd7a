# kstring2

Key strings: immutable UTF-8 strings optimised for map keys. Short strings
(up to `KString::MAX_INLINE_LEN` bytes) are held inline, `'static` strings
are kept as references, and only longer strings go to the heap.

The library under `src/` is verified with Verus. Every string type has a
view, the sequence of its characters, and the contracts are stated over it:

- `stack.rs`: `StackString<CAPACITY>`, a fixed-capacity inline string whose
  type invariant keeps its used bytes valid UTF-8.
- `string.rs`, `string_ref.rs`, `string_cow.rs`: `KString`, `KStringRef` and
  `KStringCow`, with spec predicates for how a string is stored (`'static`,
  inline, heap) and contracts that say which storage each constructor picks.
- `format.rs`: `KStringWriter`, which writes inline until the text no longer
  fits and then moves to a heap `String`.
- `convert.rs`, `eq.rs`, `order.rs`, `traits.rs`, `iter.rs`: the std traits.
- `backend.rs`: the heap storages (`Box<str>`, `Arc<str>`, `Rc<str>`).
- `text.rs`: UTF-8 and UTF-16 facts, and the std string functions the
  library calls, with their contracts.

`app/` holds what Verus does not check: the serde, quote and diesel
integrations (on thin copies of the types) and the `kformat!` macro.
