//! The choice among the physical devices that can draw to the surface.

use vstd::prelude::*;

verus! {

/// What kind of hardware a physical device is. A kind that this list does
/// not know is `Unrecognized`.
#[derive(Clone, Copy, Debug, PartialEq, Eq, Structural)]
pub enum PhysicalDeviceType {
    DiscreteGpu,
    IntegratedGpu,
    VirtualGpu,
    Cpu,
    Other,
    Unrecognized,
}

/// How far down the order of preference a kind of device stands; 0 is best.
pub open spec fn device_rank(kind: PhysicalDeviceType) -> int {
    match kind {
        PhysicalDeviceType::DiscreteGpu => 0,
        PhysicalDeviceType::IntegratedGpu => 1,
        PhysicalDeviceType::VirtualGpu => 2,
        PhysicalDeviceType::Cpu => 3,
        PhysicalDeviceType::Other => 4,
        PhysicalDeviceType::Unrecognized => 5,
    }
}

/// Whether the device at `choice` is the one to take out of `kinds`: none
/// has a better rank, and none before it has the same.
pub open spec fn is_preferred(kinds: Seq<PhysicalDeviceType>, choice: int) -> bool {
    &&& 0 <= choice < kinds.len()
    &&& forall|j: int|
        0 <= j < kinds.len() ==> device_rank(kinds[choice]) <= device_rank(#[trigger] kinds[j])
    &&& forall|j: int|
        0 <= j < choice ==> device_rank(kinds[choice]) < device_rank(#[trigger] kinds[j])
}

/// The rank of a kind of device.
pub fn rank_device(kind: PhysicalDeviceType) -> (rank: u32)
    ensures
        rank == device_rank(kind),
{
    match kind {
        PhysicalDeviceType::DiscreteGpu => 0,
        PhysicalDeviceType::IntegratedGpu => 1,
        PhysicalDeviceType::VirtualGpu => 2,
        PhysicalDeviceType::Cpu => 3,
        PhysicalDeviceType::Other => 4,
        PhysicalDeviceType::Unrecognized => 5,
    }
}

/// The index of the device to use among the suitable ones, whose kinds are
/// given in the order in which the instance lists them: the first of those
/// with the best rank. There is none only if no device is suitable.
pub fn select_device(kinds: &Vec<PhysicalDeviceType>) -> (choice: Option<usize>)
    ensures
        kinds@.len() == 0 ==> choice is None,
        kinds@.len() > 0 ==> choice is Some && is_preferred(kinds@, choice->0 as int),
{
    if kinds.len() == 0 {
        return None;
    }
    let mut best: usize = 0;
    let mut best_rank: u32 = rank_device(kinds[0]);
    for i in 1..kinds.len()
        invariant
            0 <= best < i,
            best_rank == device_rank(kinds@[best as int]),
            forall|j: int|
                0 <= j < i ==> device_rank(kinds@[best as int]) <= device_rank(
                    #[trigger] kinds@[j],
                ),
            forall|j: int|
                0 <= j < best ==> device_rank(kinds@[best as int]) < device_rank(
                    #[trigger] kinds@[j],
                ),
    {
        let rank: u32 = rank_device(kinds[i]);
        if rank < best_rank {
            best = i;
            best_rank = rank;
        }
    }
    Some(best)
}

} // verus!
