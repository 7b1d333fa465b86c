//! Optional randomization of resolved addresses. The random permutation is
//! rand's own, behind a trusted wrapper whose contract states what holds of
//! every outcome: the list afterwards holds exactly the same addresses.

use crate::address::IpAddress;
use rand::SeedableRng;
use rand::rngs::SmallRng;
use rand::seq::SliceRandom;
use vstd::prelude::*;

verus! {

#[verifier::external_type_specification]
#[verifier::external_body]
pub struct ExSmallRng(SmallRng);

/// Relies on `SeedableRng::from_os_rng` for `SmallRng`: a fresh generator
/// seeded from the operating system. The seed is drawn from the OS, so
/// nothing is promised of the generator's state. Documented to panic when the
/// OS entropy source fails, an environmental failure no input can avoid.
#[verifier::external_body]
pub(crate) fn rng_from_os() -> SmallRng {
    SmallRng::from_os_rng()
}

/// Relies on `SliceRandom::shuffle`: permutes the slice in place, picking the
/// permutation uniformly at random, so the new contents are a rearrangement
/// of the old and nothing is added or dropped. Which rearrangement comes out
/// depends on the generator's state, so nothing is promised of the order.
#[verifier::external_body]
pub(crate) fn shuffle_addresses(addrs: &mut Vec<IpAddress>, rng: &mut SmallRng)
    ensures
        final(addrs)@.len() == old(addrs)@.len(),
        final(addrs)@.to_multiset() == old(addrs)@.to_multiset(),
{
    addrs.shuffle(rng);
}

} // verus!
