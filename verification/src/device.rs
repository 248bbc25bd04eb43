//! Physical devices and queue families, as the bootstrap sequence sees
//! them, and the selection policy over them: the first queue family that
//! can both run graphics work and present to the surface, on the first
//! device that offers graphics at all.

use vstd::prelude::*;

verus! {

/// One queue family as reported by the graphics API: whether it accepts
/// graphics command submissions, and whether it can present to the
/// window surface.
#[derive(Clone, Copy, PartialEq, Eq, Structural, Debug)]
pub struct QueueFamilyInfo {
    pub supports_graphics: bool,
    pub supports_present: bool,
}

/// A physical device (adapter), described by the queue families it
/// exposes.
#[derive(Debug)]
pub struct DeviceInfo {
    pub queue_families: Vec<QueueFamilyInfo>,
}

/// A queue family is suitable when it can both run graphics work and
/// present to the surface.
pub open spec fn family_suitable(f: QueueFamilyInfo) -> bool {
    f.supports_graphics && f.supports_present
}

/// A device is graphics-capable when at least one of its queue families
/// supports graphics submissions.
pub open spec fn device_graphics_capable(d: DeviceInfo) -> bool {
    exists|j: int| 0 <= j < d.queue_families@.len() && d.queue_families@[j].supports_graphics
}

/// The enumeration exposes at least one graphics-capable device.
pub open spec fn has_graphics_device(devs: Seq<DeviceInfo>) -> bool {
    exists|i: int| 0 <= i < devs.len() && device_graphics_capable(devs[i])
}

/// The device exposes at least one suitable (graphics + present) queue
/// family.
pub open spec fn has_suitable_family(fams: Seq<QueueFamilyInfo>) -> bool {
    exists|j: int| 0 <= j < fams.len() && family_suitable(fams[j])
}

/// `i` is the index the device selection policy settles on: the first
/// graphics-capable device in enumeration order.
pub open spec fn chosen_device(devs: Seq<DeviceInfo>, i: int) -> bool {
    &&& 0 <= i < devs.len()
    &&& device_graphics_capable(devs[i])
    &&& forall|k: int| 0 <= k < i ==> !device_graphics_capable(devs[k])
}

/// `j` is the index the queue family selection policy settles on: the
/// first suitable family in enumeration order.
pub open spec fn chosen_family(fams: Seq<QueueFamilyInfo>, j: int) -> bool {
    &&& 0 <= j < fams.len()
    &&& family_suitable(fams[j])
    &&& forall|k: int| 0 <= k < j ==> !family_suitable(fams[k])
}

impl DeviceInfo {
    /// Whether any queue family of this device supports graphics
    /// submissions.
    pub fn has_graphics(&self) -> (r: bool)
        ensures
            r == device_graphics_capable(*self),
    {
        let n = self.queue_families.len();
        let mut j: usize = 0;
        while j < n
            invariant
                n == self.queue_families@.len(),
                j <= n,
                forall|k: int| 0 <= k < j ==> !self.queue_families@[k].supports_graphics,
            decreases n - j,
        {
            if self.queue_families[j].supports_graphics {
                return true;
            }
            j += 1;
        }
        false
    }
}

/// Select the physical device to use: the first graphics-capable one in
/// enumeration order, or `None` when the enumeration offers none.
pub fn select_device(devices: &Vec<DeviceInfo>) -> (r: Option<usize>)
    ensures
        match r {
            Some(i) => chosen_device(devices@, i as int),
            None => !has_graphics_device(devices@),
        },
{
    let n = devices.len();
    let mut i: usize = 0;
    while i < n
        invariant
            n == devices@.len(),
            i <= n,
            forall|k: int| 0 <= k < i ==> !device_graphics_capable(devices@[k]),
        decreases n - i,
    {
        if devices[i].has_graphics() {
            return Some(i);
        }
        i += 1;
    }
    None
}

/// Select the queue family to submit on: the first family that supports
/// both graphics and presentation, or `None` when the device offers no
/// such family.
pub fn select_queue_family(families: &Vec<QueueFamilyInfo>) -> (r: Option<usize>)
    ensures
        match r {
            Some(j) => chosen_family(families@, j as int),
            None => !has_suitable_family(families@),
        },
{
    let n = families.len();
    let mut j: usize = 0;
    while j < n
        invariant
            n == families@.len(),
            j <= n,
            forall|k: int| 0 <= k < j ==> !family_suitable(families@[k]),
        decreases n - j,
    {
        let f = families[j];
        if f.supports_graphics && f.supports_present {
            return Some(j);
        }
        j += 1;
    }
    None
}

/// Device selection is deterministic: for a fixed enumeration order
/// there is exactly one index the policy can settle on.
pub proof fn lemma_device_selection_deterministic(devs: Seq<DeviceInfo>, i: int, j: int)
    requires
        chosen_device(devs, i),
        chosen_device(devs, j),
    ensures
        i == j,
{
}

/// Queue family selection is deterministic: for a fixed enumeration
/// order there is exactly one index the policy can settle on.
pub proof fn lemma_family_selection_deterministic(fams: Seq<QueueFamilyInfo>, i: int, j: int)
    requires
        chosen_family(fams, i),
        chosen_family(fams, j),
    ensures
        i == j,
{
}

} // verus!
