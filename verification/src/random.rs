use vstd::prelude::*;

verus! {

/// A byte from `rand::random::<u8>()`, which samples the thread-local
/// generator of the `rand` crate. Every byte value may come back, and two
/// calls may differ, so nothing is stated of the result. The call panics when
/// the operating system's entropy source cannot seed the generator; that
/// depends on the environment, not on an argument, and is left unstated.
#[verifier::external_body]
pub(crate) fn random_byte() -> u8 {
    rand::random::<u8>()
}

} // verus!
