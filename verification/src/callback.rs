//! What is asked and said of functions that a caller hands in.

use vstd::prelude::*;

verus! {

/// Whether `f` takes every text.
pub open spec fn takes_any_text<T, F: Fn(&str) -> T>(f: F) -> bool {
    forall|argument: &str| #[trigger] call_requires(f, (argument,))
}

/// Whether `f` can return `value` when it is called on `text`.
pub open spec fn can_return<T, F: Fn(&str) -> T>(f: F, text: Seq<char>, value: T) -> bool {
    exists|argument: &str| argument@ == text && #[trigger] call_ensures(f, (argument,), value)
}

/// Whether `f` takes all bytes.
pub open spec fn takes_any_bytes<T, F: Fn(&[u8]) -> T>(f: F) -> bool {
    forall|argument: &[u8]| #[trigger] call_requires(f, (argument,))
}

/// Whether `f` can return `value` when it is called on `bytes`.
pub open spec fn can_return_for_bytes<T, F: Fn(&[u8]) -> T>(
    f: F,
    bytes: Seq<u8>,
    value: T,
) -> bool {
    exists|argument: &[u8]| argument@ == bytes && #[trigger] call_ensures(f, (argument,), value)
}

} // verus!
