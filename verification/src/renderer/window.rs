//! The surface that frames are presented to.
use vstd::prelude::*;
use crate::renderer::lifecycle::{DestroyStep, Resource};
use crate::renderer::swapchain::SurfaceFormat;

verus! {

#[derive(Clone, Copy, Debug, PartialEq, Eq, Structural)]
pub struct RendererWindow {
    pub surface: u64,
}

impl RendererWindow {
    pub fn new(surface: u64) -> (window: RendererWindow)
        ensures
            window.surface == surface,
    {
        RendererWindow { surface }
    }

    /// The format to render in: the first that the surface offers.
    pub fn first_format(formats: &Vec<SurfaceFormat>) -> (format: Option<SurfaceFormat>)
        ensures
            formats@.len() == 0 ==> format is None,
            formats@.len() > 0 ==> format == Some(formats@[0]),
    {
        if formats.len() == 0 {
            None
        } else {
            Some(formats[0])
        }
    }

    pub open spec fn spec_cleanup(&self) -> DestroyStep {
        DestroyStep::Destroy(Resource::Surface, self.surface)
    }

    /// The step that destroys the surface.
    pub fn cleanup(&self) -> (step: DestroyStep)
        ensures
            step == self.spec_cleanup(),
    {
        DestroyStep::Destroy(Resource::Surface, self.surface)
    }
}

} // verus!
