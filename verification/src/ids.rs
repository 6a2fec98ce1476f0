//! Generation of fresh identifier candidates. A ULID carries a 48-bit
//! timestamp and 80 random bits, so candidates are time-sortable tokens; the
//! store, not this module, is what guarantees that every identifier actually
//! handed out is distinct from and ordered after all earlier ones.

use vstd::prelude::*;

verus! {

/// Relies on ulid::Ulid::generate: a freshly generated 128-bit ULID for the
/// current time. Its value depends on the clock and on a random source, so
/// nothing is assumed of it; callers must work for every returned value.
#[verifier::external_body]
pub(crate) fn fresh_ulid_bits() -> u128 {
    ulid::Ulid::generate().0
}

} // verus!
