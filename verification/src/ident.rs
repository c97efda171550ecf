//! Identifiers of to-do items.

use vstd::prelude::*;

verus! {

/// A new identifier, made by `ulid::Ulid::generate` from the current time
/// and random bits and handed back as the 128-bit number that it wraps.
/// Nothing is claimed of the number: it can be any value, and two calls may
/// even agree.
#[verifier::external_body]
pub(crate) fn fresh_id() -> (id: u128) {
    u128::from(ulid::Ulid::generate())
}

} // verus!
