//! The finished rendering context and the order in which it is torn down.
use vstd::prelude::*;
use crate::handles::{push_releases_rev, release_of, releases_rev, ObjectKind, Release};
use crate::queue_family::QueueFamilyIndices;
use crate::stages::InitialBuilder;
use crate::swap_chain::SwapChainSettings;

verus! {

/// The instance, its optional debug messenger and the window surface.
#[derive(Clone, Copy, Debug, PartialEq, Eq, Structural)]
pub struct InstanceHandles {
    pub instance: u64,
    pub messenger: Option<u64>,
    pub surface: u64,
}

/// The chosen accelerator, its resolved queue families and the logical device.
#[derive(Clone, Copy, Debug, PartialEq, Eq, Structural)]
pub struct DeviceHandles {
    pub physical_device: u64,
    pub queue_families: QueueFamilyIndices,
    pub device: u64,
}

/// The swap chain, the settings it was made with, its images (owned by the
/// swap chain) and one view per image (owned here).
#[derive(Debug)]
pub struct SwapChainData {
    pub swap_chain: u64,
    pub settings: SwapChainSettings,
    pub images: Vec<u64>,
    pub image_views: Vec<u64>,
}

/// The render pass, the pipeline layout and the graphics pipeline.
#[derive(Clone, Copy, Debug, PartialEq, Eq, Structural)]
pub struct PipelineHandles {
    pub render_pass: u64,
    pub layout: u64,
    pub pipeline: u64,
}

/// The fully assembled context: sole owner of every handle of the chain.
#[derive(Debug)]
pub struct RenderingQueue {
    pub instance: InstanceHandles,
    pub device: DeviceHandles,
    pub swap_chain: SwapChainData,
    pub pipeline: PipelineHandles,
    pub framebuffers: Vec<u64>,
    pub command_pool: u64,
    pub command_buffers: Vec<u64>,
    pub image_available_semaphore: u64,
    pub render_finished_semaphore: u64,
}

pub open spec fn messenger_release(messenger: Option<u64>) -> Seq<Release> {
    match messenger {
        Some(m) => seq![release_of(ObjectKind::DebugMessenger, m)],
        None => Seq::empty(),
    }
}

/// Sync objects, command pool (which frees its buffers), framebuffers,
/// pipeline, pipeline layout, render pass, image views, swap chain, debug
/// messenger if any, surface, logical device, instance. Within a list the
/// last created goes first.
pub open spec fn teardown_order(q: RenderingQueue) -> Seq<Release> {
    seq![
        release_of(ObjectKind::Semaphore, q.render_finished_semaphore),
        release_of(ObjectKind::Semaphore, q.image_available_semaphore),
        release_of(ObjectKind::CommandPool, q.command_pool),
    ] + releases_rev(ObjectKind::Framebuffer, q.framebuffers@) + seq![
        release_of(ObjectKind::Pipeline, q.pipeline.pipeline),
        release_of(ObjectKind::PipelineLayout, q.pipeline.layout),
        release_of(ObjectKind::RenderPass, q.pipeline.render_pass),
    ] + releases_rev(ObjectKind::ImageView, q.swap_chain.image_views@) + seq![
        release_of(ObjectKind::SwapChain, q.swap_chain.swap_chain),
    ] + messenger_release(q.instance.messenger) + seq![
        release_of(ObjectKind::Surface, q.instance.surface),
        release_of(ObjectKind::Device, q.device.device),
        release_of(ObjectKind::Instance, q.instance.instance),
    ]
}

impl RenderingQueue {
    /// Assembles the context from the handles of every stage.
    pub fn new(
        instance: InstanceHandles,
        device: DeviceHandles,
        swap_chain: SwapChainData,
        pipeline: PipelineHandles,
        framebuffers: Vec<u64>,
        command_pool: u64,
        command_buffers: Vec<u64>,
        image_available_semaphore: u64,
        render_finished_semaphore: u64,
    ) -> (r: RenderingQueue)
        ensures
            r.instance == instance,
            r.device == device,
            r.swap_chain == swap_chain,
            r.pipeline == pipeline,
            r.framebuffers == framebuffers,
            r.command_pool == command_pool,
            r.command_buffers == command_buffers,
            r.image_available_semaphore == image_available_semaphore,
            r.render_finished_semaphore == render_finished_semaphore,
    {
        RenderingQueue {
            instance,
            device,
            swap_chain,
            pipeline,
            framebuffers,
            command_pool,
            command_buffers,
            image_available_semaphore,
            render_finished_semaphore,
        }
    }

    /// The first stage of the build chain.
    pub fn builder() -> InitialBuilder {
        InitialBuilder::new()
    }

    /// The destroy calls that release every handle of the context, in order.
    pub fn teardown(&self) -> (r: Vec<Release>)
        ensures
            r@ == teardown_order(*self),
    {
        let mut out: Vec<Release> = Vec::new();
        out.push(Release { kind: ObjectKind::Semaphore, handle: self.render_finished_semaphore });
        out.push(Release { kind: ObjectKind::Semaphore, handle: self.image_available_semaphore });
        out.push(Release { kind: ObjectKind::CommandPool, handle: self.command_pool });
        push_releases_rev(&mut out, ObjectKind::Framebuffer, &self.framebuffers);
        out.push(Release { kind: ObjectKind::Pipeline, handle: self.pipeline.pipeline });
        out.push(Release { kind: ObjectKind::PipelineLayout, handle: self.pipeline.layout });
        out.push(Release { kind: ObjectKind::RenderPass, handle: self.pipeline.render_pass });
        push_releases_rev(&mut out, ObjectKind::ImageView, &self.swap_chain.image_views);
        out.push(Release { kind: ObjectKind::SwapChain, handle: self.swap_chain.swap_chain });
        if let Some(m) = self.instance.messenger {
            out.push(Release { kind: ObjectKind::DebugMessenger, handle: m });
        }
        out.push(Release { kind: ObjectKind::Surface, handle: self.instance.surface });
        out.push(Release { kind: ObjectKind::Device, handle: self.device.device });
        out.push(Release { kind: ObjectKind::Instance, handle: self.instance.instance });
        assert(out@ =~= teardown_order(*self));
        out
    }
}

} // verus!
