//! Device locator: identity matching over the vendor/product pairs of the
//! USB devices the embedding program enumerated.

use vstd::prelude::*;
use crate::profile::DeviceProfile;

verus! {

/// The USB identity of one enumerated device, as read from its descriptor.
#[derive(Clone, Copy, Debug, PartialEq, Eq, Structural)]
pub struct DeviceId {
    pub vendor_id: u16,
    pub product_id: u16,
}

/// An enumerated device is a candidate exactly when both halves of its
/// identity equal the profile's.
pub open spec fn spec_identity_matches(profile: DeviceProfile, id: DeviceId) -> bool {
    id.vendor_id == profile.vendor_id && id.product_id == profile.product_id
}

/// Decides whether one enumerated device is the supported display.
pub fn identity_matches(profile: &DeviceProfile, id: &DeviceId) -> (r: bool)
    ensures
        r == spec_identity_matches(*profile, *id),
{
    id.vendor_id == profile.vendor_id && id.product_id == profile.product_id
}

/// Selects the candidate devices among the enumerated identities: the result
/// holds the positions, in enumeration order, of exactly those identities
/// that match the profile.
pub fn filter_candidates(profile: &DeviceProfile, ids: &Vec<DeviceId>) -> (r: Vec<usize>)
    ensures
        forall|k: int|
            0 <= k < r@.len() ==> r@[k] < ids@.len()
                && spec_identity_matches(*profile, ids@[r@[k] as int]),
        forall|i: int|
            0 <= i < ids@.len() && spec_identity_matches(*profile, ids@[i])
                ==> r@.contains(i as usize),
        forall|k1: int, k2: int| 0 <= k1 < k2 < r@.len() ==> r@[k1] < r@[k2],
{
    let mut r: Vec<usize> = Vec::new();
    let mut i: usize = 0;
    while i < ids.len()
        invariant
            i <= ids@.len(),
            forall|k: int|
                0 <= k < r@.len() ==> r@[k] < i
                    && spec_identity_matches(*profile, ids@[r@[k] as int]),
            forall|j: int|
                0 <= j < i && spec_identity_matches(*profile, ids@[j])
                    ==> r@.contains(j as usize),
            forall|k1: int, k2: int| 0 <= k1 < k2 < r@.len() ==> r@[k1] < r@[k2],
        decreases ids@.len() - i,
    {
        if identity_matches(profile, &ids[i]) {
            let ghost prefix = r@;
            r.push(i);
            proof {
                assert forall|j: int|
                    0 <= j < i + 1 && spec_identity_matches(*profile, ids@[j])
                        implies r@.contains(j as usize) by {
                    if j == i {
                        assert(r@[r@.len() - 1] == i as usize);
                    } else {
                        let k = choose|k: int|
                            0 <= k < prefix.len() && prefix[k] == j as usize;
                        assert(r@[k] == j as usize);
                    }
                }
            }
        }
        i = i + 1;
    }
    r
}

} // verus!
