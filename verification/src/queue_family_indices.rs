use vstd::prelude::*;
use crate::flags::flags_contain;
use crate::flags::contains_flags;
use crate::flags::QUEUE_GRAPHICS;

verus! {

/// The queue families picked for a device: the family that can run
/// graphics (and build) work, and the family that can present to the
/// surface, when one was asked for.
pub struct QueueFamilyIndices {
    pub graphics_family: Option<u32>,
    pub present_family: Option<u32>,
}

impl QueueFamilyIndices {
    /// Picks queue families from the device's family list: `queue_flags`
    /// holds one capability word per family, `present_support` whether the
    /// same family can present.  Each pick is the last matching family, and
    /// is absent exactly when no family matches.
    pub fn new(queue_flags: &Vec<u32>, present_support: &Vec<bool>) -> (r: QueueFamilyIndices)
        requires
            queue_flags@.len() == present_support@.len(),
            queue_flags@.len() <= u32::MAX,
        ensures
            match r.graphics_family {
                Some(g) => {
                    &&& g < queue_flags@.len()
                    &&& flags_contain(queue_flags@[g as int], QUEUE_GRAPHICS)
                    &&& forall|j: int|
                        g < j < queue_flags@.len() ==> !flags_contain(
                            queue_flags@[j],
                            QUEUE_GRAPHICS,
                        )
                },
                None => forall|j: int|
                    0 <= j < queue_flags@.len() ==> !flags_contain(queue_flags@[j], QUEUE_GRAPHICS),
            },
            match r.present_family {
                Some(p) => {
                    &&& p < present_support@.len()
                    &&& present_support@[p as int]
                    &&& forall|j: int| p < j < present_support@.len() ==> !present_support@[j]
                },
                None => forall|j: int| 0 <= j < present_support@.len() ==> !present_support@[j],
            },
    {
        let n = queue_flags.len();
        let mut graphics_family: Option<u32> = None;
        let mut present_family: Option<u32> = None;
        let mut i: usize = 0;
        while i < n
            invariant
                n == queue_flags@.len() == present_support@.len() <= u32::MAX,
                0 <= i <= n,
                match graphics_family {
                    Some(g) => {
                        &&& g < i
                        &&& flags_contain(queue_flags@[g as int], QUEUE_GRAPHICS)
                        &&& forall|j: int|
                            g < j < i ==> !flags_contain(queue_flags@[j], QUEUE_GRAPHICS)
                    },
                    None => forall|j: int|
                        0 <= j < i ==> !flags_contain(queue_flags@[j], QUEUE_GRAPHICS),
                },
                match present_family {
                    Some(p) => {
                        &&& p < i
                        &&& present_support@[p as int]
                        &&& forall|j: int| p < j < i ==> !present_support@[j]
                    },
                    None => forall|j: int| 0 <= j < i ==> !present_support@[j],
                },
            decreases n - i,
        {
            if contains_flags(queue_flags[i], QUEUE_GRAPHICS) {
                graphics_family = Some(i as u32);
            }
            if present_support[i] {
                present_family = Some(i as u32);
            }
            i = i + 1;
        }
        QueueFamilyIndices { graphics_family, present_family }
    }

    /// Both picks were found.
    pub fn is_all_complete(&self) -> (r: bool)
        ensures
            r == (self.graphics_family is Some && self.present_family is Some),
    {
        self.graphics_family.is_some() && self.present_family.is_some()
    }

    /// A device can drive the renderer when both queue families exist, the
    /// swapchain extension is supported, and the surface reports at least
    /// one format and one present mode.
    pub fn is_device_suitable(
        &self,
        extension_support: bool,
        has_surface_format: bool,
        has_present_mode: bool,
    ) -> (r: bool)
        ensures
            r == (self.graphics_family is Some && self.present_family is Some
                && extension_support && has_surface_format && has_present_mode),
    {
        let mut swapchain_adequate = false;
        if extension_support {
            swapchain_adequate = has_surface_format && has_present_mode;
        }
        self.is_all_complete() && extension_support && swapchain_adequate
    }
}

} // verus!
