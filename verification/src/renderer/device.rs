//! Choosing the GPU and its queue family, and the record of the logical device.
use vstd::prelude::*;
use crate::renderer::lifecycle::{DestroyStep, Resource};
use crate::renderer::plain::copy_of;

verus! {

/// What a physical device reports of one of its queue families.
#[derive(Clone, Copy, Debug, PartialEq, Eq, Structural)]
pub struct QueueFamilyProperties {
    /// Raw capability flag bits.
    pub queue_flags: u32,
    pub queue_count: u32,
}

/// A queue family that the logical device is created with, and the queues
/// taken from it.
pub struct QueueFamily {
    pub index: u32,
    /// The capability the family was chosen for, as raw flag bits.
    pub flags: u32,
    pub queues: Vec<u64>,
}

pub struct RendererDevice {
    pub physical_device: u64,
    pub logical_device: u64,
    pub queue_families: Vec<QueueFamily>,
}

/// Why no device could be set up. None of these is worth a retry.
#[derive(Clone, Copy, Debug, PartialEq, Eq, Structural)]
pub enum DeviceError {
    /// None of the physical devices is a discrete GPU.
    NoDiscreteGpu,
    /// The chosen device has no queue family that can draw.
    NoGraphicsQueueFamily,
    /// There is not one queue for each queue family.
    QueueCount,
}

/// One queue family of the logical device to create, the number of queues
/// to take from it, and the priority of each of them.
#[derive(Clone, Copy, Debug, PartialEq, Eq, Structural)]
pub struct DeviceQueueInfo {
    pub queue_family_index: u32,
    pub queue_count: u32,
    /// A 32-bit float, held as its bit pattern.
    pub priority: u32,
}

/// The bit pattern of the float 1, the highest priority.
pub const FULL_PRIORITY: u32 = 0x3f80_0000;

/// One queue of the family, at full priority.
pub open spec fn queue_info_of(family: QueueFamily) -> DeviceQueueInfo {
    DeviceQueueInfo { queue_family_index: family.index, queue_count: 1, priority: 0x3f80_0000 }
}

/// Calls `ash::vk::QueueFlags::contains` on the two raw values: whether
/// every bit of `wanted` is set in `flags`.
#[verifier::external_body]
fn queue_flags_contain(flags: u32, wanted: u32) -> (all: bool)
    ensures
        all == (flags & wanted == wanted),
{
    ash::vk::QueueFlags::from_raw(flags).contains(ash::vk::QueueFlags::from_raw(wanted))
}

/// Reads `ash::vk::QueueFlags::GRAPHICS`: the lowest bit.
#[verifier::external_body]
pub(crate) fn graphics_flag() -> (bits: u32)
    ensures
        bits == 1,
{
    ash::vk::QueueFlags::GRAPHICS.as_raw()
}

/// Reads `ash::vk::PhysicalDeviceType::DISCRETE_GPU`, whose raw value is 2.
#[verifier::external_body]
fn discrete_gpu() -> (raw: i32)
    ensures
        raw == 2,
{
    ash::vk::PhysicalDeviceType::DISCRETE_GPU.as_raw()
}

/// Reads `ash::extensions::khr::Swapchain::name`: the name of the device
/// extension for presenting.
#[verifier::external_body]
fn swapchain_extension_name() -> (name: String)
    ensures
        name@ == "VK_KHR_swapchain"@,
{
    ash::extensions::khr::Swapchain::name().to_string_lossy().into_owned()
}

/// The raw device type of a discrete GPU.
pub open spec fn is_discrete(device_type: i32) -> bool {
    device_type == 2
}

/// The family has a queue and can draw.
pub open spec fn can_draw(family: QueueFamilyProperties) -> bool {
    family.queue_count > 0 && family.queue_flags & 1 == 1
}

/// `i` is the first discrete GPU among the device types.
pub open spec fn first_discrete(device_types: Seq<i32>, i: int) -> bool {
    &&& 0 <= i < device_types.len()
    &&& is_discrete(device_types[i])
    &&& forall|j: int| 0 <= j < i ==> !is_discrete(#[trigger] device_types[j])
}

pub open spec fn none_discrete(device_types: Seq<i32>) -> bool {
    forall|j: int| 0 <= j < device_types.len() ==> !is_discrete(#[trigger] device_types[j])
}

/// `i` is the first family that can draw.
pub open spec fn first_drawing(families: Seq<QueueFamilyProperties>, i: int) -> bool {
    &&& 0 <= i < families.len()
    &&& can_draw(families[i])
    &&& forall|j: int| 0 <= j < i ==> !can_draw(#[trigger] families[j])
}

pub open spec fn none_drawing(families: Seq<QueueFamilyProperties>) -> bool {
    forall|j: int| 0 <= j < families.len() ==> !can_draw(#[trigger] families[j])
}

/// `i` is the first family chosen for exactly these flags.
pub open spec fn first_chosen_for(families: Seq<QueueFamily>, flags: u32, i: int) -> bool {
    &&& 0 <= i < families.len()
    &&& families[i].flags == flags
    &&& forall|j: int| 0 <= j < i ==> (#[trigger] families[j]).flags != flags
}

pub open spec fn none_chosen_for(families: Seq<QueueFamily>, flags: u32) -> bool {
    forall|j: int| 0 <= j < families.len() ==> (#[trigger] families[j]).flags != flags
}

impl RendererDevice {
    /// The device extensions that the logical device is created with.
    pub fn used_extensions() -> (names: Vec<String>)
        ensures
            names@.len() == 1,
            names@[0]@ == "VK_KHR_swapchain"@,
    {
        let mut names: Vec<String> = Vec::new();
        names.push(swapchain_extension_name());
        names
    }

    /// The first discrete GPU among the physical devices, given by their
    /// raw device types in the order they were enumerated. Nothing else will do.
    pub fn pick_physical_device(device_types: &Vec<i32>) -> (chosen: Result<usize, DeviceError>)
        ensures
            match chosen {
                Ok(i) => first_discrete(device_types@, i as int),
                Err(e) => e == DeviceError::NoDiscreteGpu && none_discrete(device_types@),
            },
    {
        let discrete = discrete_gpu();
        let mut i: usize = 0;
        while i < device_types.len()
            invariant
                i <= device_types.len(),
                discrete == 2,
                forall|j: int| 0 <= j < i ==> !is_discrete(#[trigger] device_types@[j]),
            decreases device_types.len() - i,
        {
            if device_types[i] == discrete {
                return Ok(i);
            }
            i += 1;
        }
        Err(DeviceError::NoDiscreteGpu)
    }

    /// The first queue family of the chosen device that has a queue and can
    /// draw, as the one family to create the logical device with.
    pub fn pick_queue_families(families: &Vec<QueueFamilyProperties>) -> (chosen: Result<
        Vec<QueueFamily>,
        DeviceError,
    >)
        requires
            families@.len() <= u32::MAX,
        ensures
            match chosen {
                Ok(picked) => {
                    &&& picked@.len() == 1
                    &&& first_drawing(families@, picked@[0].index as int)
                    &&& picked@[0].flags == 1
                    &&& picked@[0].queues@.len() == 0
                },
                Err(e) => e == DeviceError::NoGraphicsQueueFamily && none_drawing(families@),
            },
    {
        let graphics = graphics_flag();
        let mut i: usize = 0;
        while i < families.len()
            invariant
                i <= families.len(),
                families@.len() <= u32::MAX,
                graphics == 1,
                forall|j: int| 0 <= j < i ==> !can_draw(#[trigger] families@[j]),
            decreases families.len() - i,
        {
            let family = families[i];
            if family.queue_count > 0 && queue_flags_contain(family.queue_flags, graphics) {
                let mut picked: Vec<QueueFamily> = Vec::new();
                picked.push(QueueFamily { index: i as u32, flags: graphics, queues: Vec::new() });
                return Ok(picked);
            }
            i += 1;
        }
        Err(DeviceError::NoGraphicsQueueFamily)
    }

    /// Describes the queues to create the logical device with: one of each
    /// chosen family, all at the same priority.
    pub fn queue_infos(families: &Vec<QueueFamily>) -> (infos: Vec<DeviceQueueInfo>)
        ensures
            infos@ == families@.map_values(|f: QueueFamily| queue_info_of(f)),
    {
        let mut infos: Vec<DeviceQueueInfo> = Vec::with_capacity(families.len());
        let mut i: usize = 0;
        while i < families.len()
            invariant
                i <= families.len(),
                infos@.len() == i,
                forall|k: int| 0 <= k < i ==> infos@[k] == queue_info_of(families@[k]),
            decreases families.len() - i,
        {
            infos.push(
                DeviceQueueInfo {
                    queue_family_index: families[i].index,
                    queue_count: 1,
                    priority: FULL_PRIORITY,
                },
            );
            i += 1;
        }
        assert(infos@ =~= families@.map_values(|f: QueueFamily| queue_info_of(f)));
        infos
    }

    /// Takes the created logical device and the queue taken from each of
    /// the families it was created with, `queues[i]` from `families[i]`.
    pub fn new(
        physical_device: u64,
        logical_device: u64,
        families: Vec<QueueFamily>,
        queues: Vec<u64>,
    ) -> (made: Result<RendererDevice, DeviceError>)
        ensures
            queues@.len() != families@.len() ==> made == Err::<RendererDevice, DeviceError>(
                DeviceError::QueueCount,
            ),
            queues@.len() == families@.len() ==> made is Ok && ({
                let device = made->Ok_0;
                &&& device.physical_device == physical_device
                &&& device.logical_device == logical_device
                &&& device.queue_families@.len() == families@.len()
                &&& forall|i: int|
                    0 <= i < families@.len() ==> {
                        &&& (#[trigger] device.queue_families@[i]).index == families@[i].index
                        &&& device.queue_families@[i].flags == families@[i].flags
                        &&& device.queue_families@[i].queues@ == families@[i].queues@.push(queues@[i])
                    }
            }),
    {
        if queues.len() != families.len() {
            return Err(DeviceError::QueueCount);
        }
        let mut queue_families: Vec<QueueFamily> = Vec::with_capacity(families.len());
        let mut i: usize = 0;
        while i < families.len()
            invariant
                i <= families.len(),
                queues@.len() == families@.len(),
                queue_families@.len() == i,
                forall|k: int|
                    0 <= k < i ==> {
                        &&& (#[trigger] queue_families@[k]).index == families@[k].index
                        &&& queue_families@[k].flags == families@[k].flags
                        &&& queue_families@[k].queues@ == families@[k].queues@.push(queues@[k])
                    },
            decreases families.len() - i,
        {
            let mut family_queues = copy_of(&families[i].queues);
            family_queues.push(queues[i]);
            queue_families.push(
                QueueFamily { index: families[i].index, flags: families[i].flags, queues: family_queues },
            );
            i += 1;
        }
        Ok(RendererDevice { physical_device, logical_device, queue_families })
    }

    /// The first queue family that was chosen for exactly these flags.
    pub fn queue_family(&self, flags: u32) -> (found: Option<&QueueFamily>)
        ensures
            match found {
                Some(family) => exists|i: int|
                    #[trigger] first_chosen_for(self.queue_families@, flags, i) && *family
                        == self.queue_families@[i],
                None => none_chosen_for(self.queue_families@, flags),
            },
    {
        let mut i: usize = 0;
        while i < self.queue_families.len()
            invariant
                i <= self.queue_families.len(),
                forall|j: int| 0 <= j < i ==> (#[trigger] self.queue_families@[j]).flags != flags,
            decreases self.queue_families.len() - i,
        {
            if self.queue_families[i].flags == flags {
                assert(first_chosen_for(self.queue_families@, flags, i as int));
                return Some(&self.queue_families[i]);
            }
            i += 1;
        }
        None
    }

    /// The first queue of the first family chosen for drawing, if there is one.
    pub open spec fn spec_graphics_queue(&self) -> Option<u64> {
        if exists|i: int| #[trigger] first_chosen_for(self.queue_families@, 1, i) {
            let i = choose|i: int| #[trigger] first_chosen_for(self.queue_families@, 1, i);
            if self.queue_families@[i].queues@.len() > 0 {
                Some(self.queue_families@[i].queues@[0])
            } else {
                None
            }
        } else {
            None
        }
    }

    /// The queue that frames are submitted to and presented on.
    pub fn graphics_queue(&self) -> (queue: Result<u64, DeviceError>)
        ensures
            match queue {
                Ok(q) => self.spec_graphics_queue() == Some(q),
                Err(e) => e == DeviceError::NoGraphicsQueueFamily && self.spec_graphics_queue() is None,
            },
    {
        let graphics = graphics_flag();
        match self.queue_family(graphics) {
            Some(family) => {
                proof {
                    let i = choose|i: int|
                        #[trigger] first_chosen_for(self.queue_families@, 1, i) && *family
                            == self.queue_families@[i];
                    let c = choose|i: int| #[trigger] first_chosen_for(self.queue_families@, 1, i);
                    assert(first_chosen_for(self.queue_families@, 1, c));
                    assert(c == i);
                }
                if family.queues.len() > 0 {
                    Ok(family.queues[0])
                } else {
                    Err(DeviceError::NoGraphicsQueueFamily)
                }
            },
            None => Err(DeviceError::NoGraphicsQueueFamily),
        }
    }

    pub open spec fn spec_cleanup(&self) -> DestroyStep {
        DestroyStep::Destroy(Resource::Device, self.logical_device)
    }

    /// The step that destroys the logical device.
    pub fn cleanup(&self) -> (step: DestroyStep)
        ensures
            step == self.spec_cleanup(),
    {
        DestroyStep::Destroy(Resource::Device, self.logical_device)
    }
}

} // verus!
