//! Choice of the physical device the renderer runs on.
use vstd::prelude::*;

verus! {

/// Preference of a `VkPhysicalDeviceType` (raw value): lower is better. Discrete GPUs come
/// first, then integrated, other, virtual and CPU devices, then unknown types.
pub open spec fn spec_device_type_rank(device_type: i32) -> u32 {
    match device_type {
        2 => 1,
        1 => 2,
        0 => 3,
        3 => 4,
        4 => 5,
        _ => 6,
    }
}

pub fn device_type_rank(device_type: i32) -> (r: u32)
    ensures
        r == spec_device_type_rank(device_type),
{
    match device_type {
        2 => 1,
        1 => 2,
        0 => 3,
        3 => 4,
        4 => 5,
        _ => 6,
    }
}

/// Picks among devices of the given types (in enumeration order) the first one of the best
/// rank; `None` when there is no device.
pub fn pick_physical_device(device_types: &Vec<i32>) -> (r: Option<usize>)
    ensures
        match r {
            None => device_types@.len() == 0,
            Some(i) => {
                &&& i < device_types@.len()
                &&& forall|j: int|
                    0 <= j < device_types@.len() ==> spec_device_type_rank(device_types@[i as int])
                        <= spec_device_type_rank(#[trigger] device_types@[j])
                &&& forall|j: int|
                    0 <= j < i ==> spec_device_type_rank(device_types@[i as int])
                        < spec_device_type_rank(#[trigger] device_types@[j])
            },
        },
{
    if device_types.len() == 0 {
        return None;
    }
    let mut best: usize = 0;
    let mut best_rank = device_type_rank(device_types[0]);
    let mut i: usize = 1;
    while i < device_types.len()
        invariant
            1 <= i <= device_types@.len(),
            best < i,
            best_rank == spec_device_type_rank(device_types@[best as int]),
            forall|j: int|
                0 <= j < i ==> best_rank <= spec_device_type_rank(#[trigger] device_types@[j]),
            forall|j: int| 0 <= j < best ==> best_rank < spec_device_type_rank(#[trigger] device_types@[j]),
        decreases device_types@.len() - i,
    {
        let rank = device_type_rank(device_types[i]);
        if rank < best_rank {
            best = i;
            best_rank = rank;
        }
        i += 1;
    }
    Some(best)
}

} // verus!
