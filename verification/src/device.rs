use vstd::prelude::*;

verus! {

/// The rank of a physical device: 1000 for a discrete GPU, 0 for any other.
pub open spec fn device_score(discrete: bool) -> int {
    if discrete {
        1000
    } else {
        0
    }
}

fn score(discrete: bool) -> (r: u16)
    ensures
        r == device_score(discrete),
{
    if discrete {
        1000
    } else {
        0
    }
}

/// Chooses a graphics device among `candidates`, each given as (suitable, discrete): the
/// suitable one of highest rank, the last of them where several share it. At least one
/// device must be suitable.
pub fn pick_device(candidates: &Vec<(bool, bool)>) -> (k: usize)
    requires
        exists|i: int| 0 <= i < candidates@.len() && candidates@[i].0,
    ensures
        k < candidates@.len(),
        candidates@[k as int].0,
        forall|j: int|
            0 <= j < candidates@.len() && candidates@[j].0 ==> device_score(candidates@[j].1)
                <= device_score(candidates@[k as int].1),
        forall|j: int|
            k < j < candidates@.len() && candidates@[j].0 ==> device_score(candidates@[j].1)
                < device_score(candidates@[k as int].1),
{
    let mut best: Option<usize> = None;
    let mut best_score: u16 = 0;
    for i in 0..candidates.len()
        invariant
            best is None <==> forall|j: int| 0 <= j < i ==> !candidates@[j].0,
            best matches Some(k) ==> {
                &&& k < i
                &&& candidates@[k as int].0
                &&& best_score == device_score(candidates@[k as int].1)
                &&& forall|j: int|
                    0 <= j < i && candidates@[j].0 ==> device_score(candidates@[j].1)
                        <= device_score(candidates@[k as int].1)
                &&& forall|j: int|
                    k < j < i && candidates@[j].0 ==> device_score(candidates@[j].1)
                        < device_score(candidates@[k as int].1)
            },
    {
        let (suitable, discrete) = candidates[i];
        if suitable {
            let s = score(discrete);
            if best.is_none() || s >= best_score {
                best = Some(i);
                best_score = s;
            }
        }
    }
    match best {
        Some(k) => k,
        None => 0,
    }
}

/// Vulkan's code for the mailbox presentation mode.
pub const PRESENT_MODE_MAILBOX: i32 = 1;

/// Vulkan's code for the FIFO presentation mode, which every device offers.
pub const PRESENT_MODE_FIFO: i32 = 2;

/// Chooses how frames are presented: mailbox when the device offers it, FIFO otherwise.
pub fn pick_presentation_mode(available: &Vec<i32>) -> (mode: i32)
    ensures
        mode == if available@.contains(PRESENT_MODE_MAILBOX) {
            PRESENT_MODE_MAILBOX
        } else {
            PRESENT_MODE_FIFO
        },
{
    for i in 0..available.len()
        invariant
            forall|j: int| 0 <= j < i ==> available@[j] != PRESENT_MODE_MAILBOX,
    {
        if available[i] == PRESENT_MODE_MAILBOX {
            return PRESENT_MODE_MAILBOX;
        }
    }
    PRESENT_MODE_FIFO
}

/// Chooses the surface format among `available`, each given as (format, colour space):
/// the first that is (`wanted_format`, `wanted_space`), or else the first of all. At least
/// one format must be offered.
pub fn pick_surface_format(available: &Vec<(i32, i32)>, wanted_format: i32, wanted_space: i32) -> (k: usize)
    requires
        available@.len() > 0,
    ensures
        k < available@.len(),
        (exists|i: int| 0 <= i < available@.len() && available@[i] == (wanted_format, wanted_space))
            ==> available@[k as int] == (wanted_format, wanted_space) && forall|j: int|
            0 <= j < k ==> available@[j] != (wanted_format, wanted_space),
        !(exists|i: int| 0 <= i < available@.len() && available@[i] == (wanted_format, wanted_space))
            ==> k == 0,
{
    for i in 0..available.len()
        invariant
            forall|j: int| 0 <= j < i ==> available@[j] != (wanted_format, wanted_space),
    {
        let (format, space) = available[i];
        if format == wanted_format && space == wanted_space {
            return i;
        }
    }
    0
}

/// The number of swap-chain images to ask for: the device's minimum, lowered to its maximum
/// when the maximum is set (not 0) and below the minimum.
pub fn pick_min_image_count(min_image_count: u32, max_image_count: u32) -> (n: u32)
    ensures
        n == if 0 < max_image_count && max_image_count < min_image_count {
            max_image_count
        } else {
            min_image_count
        },
{
    let mut n = min_image_count;
    if (0 < max_image_count) && (max_image_count < min_image_count) {
        n = max_image_count;
    }
    n
}

/// `value` held within `low..=high`.
pub open spec fn clamp(value: u32, low: u32, high: u32) -> u32 {
    if value < low {
        low
    } else if value > high {
        high
    } else {
        value
    }
}

fn clamp_u32(value: u32, low: u32, high: u32) -> (r: u32)
    requires
        low <= high,
    ensures
        r == clamp(value, low, high),
{
    if value < low {
        low
    } else if value > high {
        high
    } else {
        value
    }
}

/// The size of the swap-chain images: the surface's current extent when it has one (a
/// width other than `u32::MAX`), or else the window size held within the surface's limits.
pub fn image_extent(
    current: (u32, u32),
    window: (u32, u32),
    min_extent: (u32, u32),
    max_extent: (u32, u32),
) -> (e: (u32, u32))
    requires
        current.0 == u32::MAX ==> min_extent.0 <= max_extent.0 && min_extent.1 <= max_extent.1,
    ensures
        e == if current.0 != u32::MAX {
            current
        } else {
            (clamp(window.0, min_extent.0, max_extent.0), clamp(window.1, min_extent.1, max_extent.1))
        },
{
    if current.0 != u32::MAX {
        current
    } else {
        (clamp_u32(window.0, min_extent.0, max_extent.0), clamp_u32(window.1, min_extent.1, max_extent.1))
    }
}

} // verus!
