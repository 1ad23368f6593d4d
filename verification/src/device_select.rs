//! Physical device ranking and selection.
//!
//! Candidates are ranked by how well they can present to the target
//! surface: a device whose present modes could be queried beats one whose
//! could not; among those, one offering a low-latency mailbox present mode
//! beats one without; ties are broken by support for the
//! swapchain-maintenance extension. Selection keeps the highest-ranked
//! candidate, taking the last one enumerated on a tie.

use vstd::prelude::*;

use crate::error::RendererError;

verus! {

/// What device selection needs to know about one enumerated physical
/// device, relative to the target surface.
#[derive(Debug, Clone, Copy, PartialEq, Eq, Structural)]
pub struct DeviceCandidate {
    /// The device's present modes for the surface could be queried.
    pub present_modes_known: bool,
    /// A mailbox (low-latency) present mode is among them.
    pub mailbox: bool,
    /// The device supports the swapchain-maintenance extension.
    pub swapchain_maintenance: bool,
}

/// The relative rank of two candidates.
#[derive(Debug, Clone, Copy, PartialEq, Eq, Structural)]
pub enum CandidateOrder {
    Worse,
    Even,
    Better,
}

/// A candidate's rank collapsed to one number: higher is better. A device
/// whose present modes are unknown ranks below every queryable one; its
/// mailbox and extension flags are not consulted.
pub open spec fn candidate_score(c: DeviceCandidate) -> int {
    if !c.present_modes_known {
        0
    } else {
        2 + (if c.mailbox {
            2int
        } else {
            0int
        }) + (if c.swapchain_maintenance {
            1int
        } else {
            0int
        })
    }
}

/// Ranks candidate `a` against candidate `b`.
pub fn rank_physical_devices(a: &DeviceCandidate, b: &DeviceCandidate) -> (r: CandidateOrder)
    ensures
        r is Better <==> candidate_score(*a) > candidate_score(*b),
        r is Even <==> candidate_score(*a) == candidate_score(*b),
        r is Worse <==> candidate_score(*a) < candidate_score(*b),
{
    match (a.present_modes_known, b.present_modes_known) {
        (true, false) => CandidateOrder::Better,
        (false, true) => CandidateOrder::Worse,
        (false, false) => CandidateOrder::Even,
        (true, true) => match (a.mailbox, b.mailbox) {
            (true, false) => CandidateOrder::Better,
            (false, true) => CandidateOrder::Worse,
            (_, _) => match (a.swapchain_maintenance, b.swapchain_maintenance) {
                (true, false) => CandidateOrder::Better,
                (false, true) => CandidateOrder::Worse,
                (_, _) => CandidateOrder::Even,
            },
        },
    }
}

/// Picks the highest-ranked candidate: the result index holds a maximal
/// score and is the last index holding it, matching a maximum fold over
/// the enumeration order.
pub fn get_physical_device(candidates: &Vec<DeviceCandidate>) -> (r: Result<usize, RendererError>)
    ensures
        r is Ok <==> candidates@.len() > 0,
        r matches Ok(m) ==> m < candidates@.len() && (forall|j: int|
            0 <= j < candidates@.len() ==> candidate_score(candidates@[j]) <= candidate_score(
                candidates@[m as int],
            )) && (forall|j: int|
            m < j < candidates@.len() ==> candidate_score(candidates@[j]) < candidate_score(
                candidates@[m as int],
            )),
        r matches Err(e) ==> e == RendererError::NoPhysicalDevices,
{
    let n = candidates.len();
    if n == 0 {
        return Err(RendererError::NoPhysicalDevices);
    }
    let mut best: usize = 0;
    let mut i: usize = 1;
    while i < n
        invariant
            n == candidates@.len(),
            1 <= i <= n,
            best < i,
            forall|j: int|
                0 <= j < i ==> candidate_score(candidates@[j]) <= candidate_score(
                    candidates@[best as int],
                ),
            forall|j: int|
                best < j < i ==> candidate_score(candidates@[j]) < candidate_score(
                    candidates@[best as int],
                ),
        decreases n - i,
    {
        let cur = candidates[i];
        let former = candidates[best];
        let order = rank_physical_devices(&former, &cur);
        if !(order == CandidateOrder::Better) {
            best = i;
        }
        i += 1;
    }
    Ok(best)
}

} // verus!
