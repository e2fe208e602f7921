//! The messenger through which the validation layers report.
use vstd::prelude::*;
use crate::renderer::lifecycle::{DestroyStep, Resource};

verus! {

/// Severity bit of a verbose message.
pub const SEVERITY_VERBOSE: u32 = 0x1;

/// Severity bit of an informational message.
pub const SEVERITY_INFO: u32 = 0x10;

/// Severity bit of a warning.
pub const SEVERITY_WARNING: u32 = 0x100;

/// Severity bit of an error.
pub const SEVERITY_ERROR: u32 = 0x1000;

/// Type bit of a general message.
pub const TYPE_GENERAL: u32 = 0x1;

/// Type bit of a message of the validation layers.
pub const TYPE_VALIDATION: u32 = 0x2;

/// Type bit of a message on performance.
pub const TYPE_PERFORMANCE: u32 = 0x4;

/// Which messages the messenger passes on, as raw flag bits.
#[derive(Clone, Copy, Debug, PartialEq, Eq, Structural)]
pub struct MessengerInfo {
    pub message_severity: u32,
    pub message_type: u32,
}

#[derive(Clone, Copy, Debug, PartialEq, Eq, Structural)]
pub struct RendererDebug {
    pub debug_messenger: u64,
}

impl RendererDebug {
    /// Describes the messenger to create: it passes on messages of every
    /// severity and every type.
    pub fn messenger_info() -> (info: MessengerInfo)
        ensures
            info.message_severity == 0x1111,
            info.message_type == 0x7,
    {
        let message_severity: u32 = SEVERITY_WARNING | SEVERITY_VERBOSE | SEVERITY_INFO
            | SEVERITY_ERROR;
        let message_type: u32 = TYPE_GENERAL | TYPE_PERFORMANCE | TYPE_VALIDATION;
        assert(0x100u32 | 0x1u32 | 0x10u32 | 0x1000u32 == 0x1111u32) by (bit_vector);
        assert(0x1u32 | 0x4u32 | 0x2u32 == 0x7u32) by (bit_vector);
        MessengerInfo { message_severity, message_type }
    }

    pub fn new(debug_messenger: u64) -> (debug: RendererDebug)
        ensures
            debug.debug_messenger == debug_messenger,
    {
        RendererDebug { debug_messenger }
    }

    pub open spec fn spec_cleanup(&self) -> DestroyStep {
        DestroyStep::Destroy(Resource::DebugMessenger, self.debug_messenger)
    }

    /// The step that destroys the messenger.
    pub fn cleanup(&self) -> (step: DestroyStep)
        ensures
            step == self.spec_cleanup(),
    {
        DestroyStep::Destroy(Resource::DebugMessenger, self.debug_messenger)
    }
}

} // verus!
