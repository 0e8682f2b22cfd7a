//! Key strings: immutable UTF-8 strings optimised for map keys.

pub mod text;
mod stack;
mod string;
mod string_ref;
mod string_cow;
mod format;
mod convert;
mod eq;
mod order;
mod traits;
mod iter;
pub mod backend;

pub use stack::StackString;
pub use string::KString;
pub use string_ref::KStringRef;
pub use string_cow::KStringCow;
pub use format::KStringWriter;
pub use string::fits_inline;
pub use format::concat_strs;
pub use order::{lex_order, str_order, law_str_order_total, law_str_order_bytes};
pub use order::{partial_cmp_obeyed, law_stack_string_order, law_kstring_order};
pub use order::{law_kstring_cow_order, law_kstring_ref_order};
pub use eq::{law_stack_string_eq, law_kstring_eq, law_kstring_cow_eq, law_kstring_ref_eq};
pub use stack::law_truncate_undoes_push;
