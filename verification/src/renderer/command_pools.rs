//! The pool that the command buffers of the graphics queue come from.
use vstd::prelude::*;
use crate::renderer::device::{
    first_chosen_for, graphics_flag, none_chosen_for, DeviceError, RendererDevice,
};
use crate::renderer::lifecycle::{DestroyStep, Resource};

verus! {

/// Everything needed to create a command pool.
#[derive(Clone, Copy, Debug, PartialEq, Eq, Structural)]
pub struct CommandPoolInfo {
    pub queue_family_index: u32,
    /// Command buffers of the pool can be reset one by one.
    pub reset_command_buffer: bool,
}

/// Everything needed to allocate command buffers from a pool.
#[derive(Clone, Copy, Debug, PartialEq, Eq, Structural)]
pub struct CommandBufferAllocateInfo {
    pub command_pool: u64,
    pub command_buffer_count: u32,
}

#[derive(Clone, Copy, Debug, PartialEq, Eq, Structural)]
pub struct CommandPools {
    pub graphics: u64,
}

impl CommandPools {
    /// Describes the pool for the device's graphics queue family: the
    /// first family that was chosen for drawing.
    pub fn graphics_pool_info(device: &RendererDevice) -> (info: Result<CommandPoolInfo, DeviceError>)
        ensures
            match info {
                Ok(pool) => pool.reset_command_buffer && exists|i: int|
                    #[trigger] first_chosen_for(device.queue_families@, 1, i)
                        && pool.queue_family_index == device.queue_families@[i].index,
                Err(e) => e == DeviceError::NoGraphicsQueueFamily && none_chosen_for(
                    device.queue_families@,
                    1,
                ),
            },
    {
        match device.queue_family(graphics_flag()) {
            Some(family) => Ok(
                CommandPoolInfo { queue_family_index: family.index, reset_command_buffer: true },
            ),
            None => Err(DeviceError::NoGraphicsQueueFamily),
        }
    }

    pub fn new(graphics: u64) -> (pools: CommandPools)
        ensures
            pools.graphics == graphics,
    {
        CommandPools { graphics }
    }

    /// Describes the allocation of `count` command buffers from `pool`.
    pub fn create_command_buffers(pool: u64, count: u32) -> (info: CommandBufferAllocateInfo)
        ensures
            info == (CommandBufferAllocateInfo { command_pool: pool, command_buffer_count: count }),
    {
        CommandBufferAllocateInfo { command_pool: pool, command_buffer_count: count }
    }

    pub open spec fn spec_cleanup(&self) -> DestroyStep {
        DestroyStep::Destroy(Resource::CommandPool, self.graphics)
    }

    /// The step that destroys the pool, and with it its command buffers.
    pub fn cleanup(&self) -> (step: DestroyStep)
        ensures
            step == self.spec_cleanup(),
    {
        DestroyStep::Destroy(Resource::CommandPool, self.graphics)
    }
}

} // verus!
