//! The build chain from the render pass on: pipeline, framebuffers, command
//! pool, synchronisation objects, and the hand-over to the context.
use vstd::prelude::*;
use crate::context::{
    DeviceHandles, InstanceHandles, PipelineHandles, RenderingQueue, SwapChainData,
};
use crate::error::{BuildFailure, RenderingError};
use crate::handles::{
    code_of, copy_handles, failed, handle_of, made, push_releases_rev, release_of, releases_rev,
    settle, settled, ObjectKind, Outcome, Release,
};
use crate::shaders::ShaderSource;
use crate::swap_chain::Extent2D;

verus! {

/// `VK_PRIMITIVE_TOPOLOGY_TRIANGLE_LIST`.
pub const TOPOLOGY_TRIANGLE_LIST: i32 = 3;

/// `VK_POLYGON_MODE_FILL`.
pub const POLYGON_MODE_FILL: i32 = 0;

/// `VK_CULL_MODE_BACK_BIT`.
pub const CULL_MODE_BACK: u32 = 2;

/// `VK_FRONT_FACE_CLOCKWISE`.
pub const FRONT_FACE_CLOCKWISE: i32 = 1;

/// `VK_SAMPLE_COUNT_1_BIT`.
pub const SAMPLE_COUNT_1: u32 = 1;

/// The red, green, blue and alpha write bits together.
pub const COLOR_COMPONENT_ALL: u32 = 15;

/// `VK_ATTACHMENT_LOAD_OP_CLEAR`.
pub const LOAD_OP_CLEAR: i32 = 1;

/// `VK_ATTACHMENT_STORE_OP_STORE`.
pub const STORE_OP_STORE: i32 = 0;

/// `VK_IMAGE_LAYOUT_PRESENT_SRC_KHR`.
pub const LAYOUT_PRESENT_SRC: i32 = 1000001002;

/// `VK_SHADER_STAGE_VERTEX_BIT`.
pub const SHADER_STAGE_VERTEX: u32 = 1;

/// `VK_SHADER_STAGE_FRAGMENT_BIT`.
pub const SHADER_STAGE_FRAGMENT: u32 = 16;

/// The positions of the stage's calls, in the order they are made.
pub const RENDER_PASS_CALL: usize = 0;

pub const VERTEX_MODULE_CALL: usize = 1;

pub const FRAGMENT_MODULE_CALL: usize = 2;

pub const LAYOUT_CALL: usize = 3;

pub const PIPELINE_CALL: usize = 4;

/// One shader module call: its position among the stage's calls, which
/// shader's bytecode it is made from, and the pipeline stage it feeds.
#[derive(Clone, Copy, Debug, PartialEq, Eq, Structural)]
pub struct ShaderModuleCall {
    pub call: usize,
    pub source: ShaderSource,
    pub stage: u32,
}

/// The render pass and the fixed pipeline to create. The render pass has one
/// color attachment in the swap chain's format; the pipeline draws filled
/// triangle lists over the whole extent, with back faces culled, clockwise
/// front faces, one sample, no depth test and no blending. The pipeline uses
/// the render pass and the layout made by this stage's own calls, in subpass
/// zero, and its shader stages enter at `main`.
#[derive(Clone, Copy, Debug, PartialEq, Eq, Structural)]
pub struct PipelineRequest {
    pub color_format: i32,
    pub extent: Extent2D,
    pub load_op: i32,
    pub store_op: i32,
    pub final_layout: i32,
    pub topology: i32,
    pub polygon_mode: i32,
    pub cull_mode: u32,
    pub front_face: i32,
    pub samples: u32,
    pub depth_test: bool,
    pub blend: bool,
    pub color_write_mask: u32,
    pub primitive_restart: bool,
    pub depth_clamp: bool,
    pub depth_bias: bool,
    pub rasterizer_discard: bool,
    /// The scissor's offset; it spans the whole extent.
    pub scissor_x: i32,
    pub scissor_y: i32,
    pub subpass: u32,
    pub vertex_module: ShaderModuleCall,
    pub fragment_module: ShaderModuleCall,
    /// The call whose render pass the pipeline uses.
    pub render_pass_call: usize,
    /// The call whose layout the pipeline uses.
    pub layout_call: usize,
}

pub open spec fn fixed_pipeline(color_format: i32, extent: Extent2D) -> PipelineRequest {
    PipelineRequest {
        color_format,
        extent,
        load_op: LOAD_OP_CLEAR,
        store_op: STORE_OP_STORE,
        final_layout: LAYOUT_PRESENT_SRC,
        topology: TOPOLOGY_TRIANGLE_LIST,
        polygon_mode: POLYGON_MODE_FILL,
        cull_mode: CULL_MODE_BACK,
        front_face: FRONT_FACE_CLOCKWISE,
        samples: SAMPLE_COUNT_1,
        depth_test: false,
        blend: false,
        color_write_mask: COLOR_COMPONENT_ALL,
        primitive_restart: false,
        depth_clamp: false,
        depth_bias: false,
        rasterizer_discard: false,
        scissor_x: 0,
        scissor_y: 0,
        subpass: 0,
        vertex_module: ShaderModuleCall {
            call: VERTEX_MODULE_CALL,
            source: ShaderSource::Vertex,
            stage: SHADER_STAGE_VERTEX,
        },
        fragment_module: ShaderModuleCall {
            call: FRAGMENT_MODULE_CALL,
            source: ShaderSource::Fragment,
            stage: SHADER_STAGE_FRAGMENT,
        },
        render_pass_call: RENDER_PASS_CALL,
        layout_call: LAYOUT_CALL,
    }
}

/// The name of the shaders' entry point.
pub fn shader_entry_point() -> (r: String)
    ensures
        r@ == "main"@,
{
    "main".to_owned()
}

/// The calls of the pipeline stage, in order: render pass, vertex shader
/// module, fragment shader module, pipeline layout, pipeline.
pub open spec fn pipeline_part(i: int) -> ObjectKind {
    if i == 0 {
        ObjectKind::RenderPass
    } else if i == 1 || i == 2 {
        ObjectKind::ShaderModule
    } else if i == 3 {
        ObjectKind::PipelineLayout
    } else {
        ObjectKind::Pipeline
    }
}

/// The error of the pipeline stage when call `i` failed with `c`.
pub open spec fn pipeline_error(i: int, c: i32) -> RenderingError {
    if i == 0 {
        RenderingError::CreateRenderPassError(c)
    } else if i == 1 || i == 2 {
        RenderingError::CreateShaderModuleError(c)
    } else if i == 3 {
        RenderingError::CreatePipelineLayoutError(c)
    } else {
        RenderingError::BuildPipelinesError(c)
    }
}

/// The destroy calls for a pipeline stage that failed: what it had made,
/// last first.
pub open spec fn pipeline_failure_release(o: Seq<Outcome>) -> Seq<Release> {
    let m = made(o);
    Seq::new(m.len(), |i: int| release_of(pipeline_part(m.len() - 1 - i), m[m.len() - 1 - i]))
}

/// The transient shader modules, destroyed once the pipeline exists.
pub open spec fn shader_module_release(o: Seq<Outcome>) -> Seq<Release> {
    seq![
        release_of(ObjectKind::ShaderModule, handle_of(o[1])),
        release_of(ObjectKind::ShaderModule, handle_of(o[2])),
    ]
}

fn pipeline_part_kind(i: usize) -> (r: ObjectKind)
    ensures
        r == pipeline_part(i as int),
{
    if i == 0 {
        ObjectKind::RenderPass
    } else if i == 1 || i == 2 {
        ObjectKind::ShaderModule
    } else if i == 3 {
        ObjectKind::PipelineLayout
    } else {
        ObjectKind::Pipeline
    }
}

/// The number of calls the pipeline stage makes.
pub const PIPELINE_CALLS: usize = 5;

/// Creates the render pass, the transient shader modules and the pipeline.
pub struct PipelineAddingStage {
    pub instance: InstanceHandles,
    pub device: DeviceHandles,
    pub swap_chain: SwapChainData,
}

impl PipelineAddingStage {
    pub fn pipeline_request(&self) -> (r: PipelineRequest)
        ensures
            r == fixed_pipeline(self.swap_chain.settings.format.format, self.swap_chain.settings.extent),
    {
        PipelineRequest {
            color_format: self.swap_chain.settings.format.format,
            extent: self.swap_chain.settings.extent,
            load_op: LOAD_OP_CLEAR,
            store_op: STORE_OP_STORE,
            final_layout: LAYOUT_PRESENT_SRC,
            topology: TOPOLOGY_TRIANGLE_LIST,
            polygon_mode: POLYGON_MODE_FILL,
            cull_mode: CULL_MODE_BACK,
            front_face: FRONT_FACE_CLOCKWISE,
            samples: SAMPLE_COUNT_1,
            depth_test: false,
            blend: false,
            color_write_mask: COLOR_COMPONENT_ALL,
            primitive_restart: false,
            depth_clamp: false,
            depth_bias: false,
            rasterizer_discard: false,
            scissor_x: 0,
            scissor_y: 0,
            subpass: 0,
            vertex_module: ShaderModuleCall {
                call: VERTEX_MODULE_CALL,
                source: ShaderSource::Vertex,
                stage: SHADER_STAGE_VERTEX,
            },
            fragment_module: ShaderModuleCall {
                call: FRAGMENT_MODULE_CALL,
                source: ShaderSource::Fragment,
                stage: SHADER_STAGE_FRAGMENT,
            },
            render_pass_call: RENDER_PASS_CALL,
            layout_call: LAYOUT_CALL,
        }
    }

    /// Takes the outcomes of the stage's calls in order, stopping at the first
    /// failure. On success it also returns the destroy calls for the two
    /// shader modules, which are not needed once the pipeline exists.
    pub fn add_pipeline(self, o: Vec<Outcome>) -> (r: Result<
        (FramebuffersBuildStage, Vec<Release>),
        BuildFailure,
    >)
        requires
            settled(o@, PIPELINE_CALLS as nat),
        ensures
            failed(o@) ==> (r matches Err(f) && f.error == pipeline_error(
                o@.len() - 1,
                code_of(o@.last()),
            ) && f.release@ == pipeline_failure_release(o@)),
            !failed(o@) ==> (r matches Ok((next, release)) && release@ == shader_module_release(o@)
                && next.instance == self.instance && next.device == self.device
                && next.swap_chain == self.swap_chain && next.pipeline == (PipelineHandles {
                render_pass: handle_of(o@[0]),
                layout: handle_of(o@[3]),
                pipeline: handle_of(o@[4]),
            })),
    {
        let batch = settle(&o);
        match batch.failure {
            Some(c) => {
                let m = &batch.made;
                let mut release: Vec<Release> = Vec::new();
                let mut k: usize = m.len();
                while k > 0
                    invariant
                        0 <= k <= m@.len(),
                        m@ == made(o@),
                        release@ =~= Seq::new(
                            (m@.len() - k) as nat,
                            |i: int| release_of(pipeline_part(m@.len() - 1 - i), m@[m@.len() - 1 - i]),
                        ),
                    decreases k,
                {
                    k = k - 1;
                    release.push(Release { kind: pipeline_part_kind(k), handle: m[k] });
                }
                let error = match m.len() {
                    0 => RenderingError::CreateRenderPassError(c),
                    1 | 2 => RenderingError::CreateShaderModuleError(c),
                    3 => RenderingError::CreatePipelineLayoutError(c),
                    _ => RenderingError::BuildPipelinesError(c),
                };
                Err(BuildFailure { error, release })
            },
            None => {
                let m = &batch.made;
                let mut release: Vec<Release> = Vec::new();
                release.push(Release { kind: ObjectKind::ShaderModule, handle: m[1] });
                release.push(Release { kind: ObjectKind::ShaderModule, handle: m[2] });
                assert(release@ =~= shader_module_release(o@));
                let pipeline = PipelineHandles { render_pass: m[0], layout: m[3], pipeline: m[4] };
                Ok(
                    (
                        FramebuffersBuildStage {
                            instance: self.instance,
                            device: self.device,
                            swap_chain: self.swap_chain,
                            pipeline,
                        },
                        release,
                    ),
                )
            },
        }
    }
}

/// Whenever the pipeline stage fails after both shader modules were made,
/// both are among the destroy calls of the failure.
pub proof fn lemma_failed_pipeline_releases_shader_modules(o: Seq<Outcome>)
    requires
        settled(o, PIPELINE_CALLS as nat),
        failed(o),
        o.len() > 3,
    ensures
        pipeline_failure_release(o).contains(release_of(ObjectKind::ShaderModule, handle_of(o[1]))),
        pipeline_failure_release(o).contains(release_of(ObjectKind::ShaderModule, handle_of(o[2]))),
{
    lemma_failed_pipeline_releases_all_made(o);
    assert(made(o)[1] == handle_of(o[1]));
    assert(made(o)[2] == handle_of(o[2]));
}

/// A failed pipeline stage leaks nothing: each object it made is destroyed
/// once, with the kind it was made as.
pub proof fn lemma_failed_pipeline_releases_all_made(o: Seq<Outcome>)
    requires
        settled(o, PIPELINE_CALLS as nat),
        failed(o),
    ensures
        pipeline_failure_release(o).len() == made(o).len(),
        forall|k: int|
            0 <= k < made(o).len() ==> pipeline_failure_release(o).contains(
                release_of(pipeline_part(k), #[trigger] made(o)[k]),
            ),
{
    let rel = pipeline_failure_release(o);
    let m = made(o);
    assert forall|k: int| 0 <= k < m.len() implies rel.contains(
        release_of(pipeline_part(k), #[trigger] m[k]),
    ) by {
        assert(rel[m.len() - 1 - k] == release_of(pipeline_part(k), m[k]));
    }
}

/// What the framebuffers are created with: one per image view.
#[derive(Debug)]
pub struct FramebufferRequest {
    pub render_pass: u64,
    pub extent: Extent2D,
    pub attachments: Vec<u64>,
}

/// Creates one framebuffer per swap chain image view.
pub struct FramebuffersBuildStage {
    pub instance: InstanceHandles,
    pub device: DeviceHandles,
    pub swap_chain: SwapChainData,
    pub pipeline: PipelineHandles,
}

impl FramebuffersBuildStage {
    pub fn framebuffer_request(&self) -> (r: FramebufferRequest)
        ensures
            r.render_pass == self.pipeline.render_pass,
            r.extent == self.swap_chain.settings.extent,
            r.attachments@ == self.swap_chain.image_views@,
    {
        FramebufferRequest {
            render_pass: self.pipeline.render_pass,
            extent: self.swap_chain.settings.extent,
            attachments: copy_handles(&self.swap_chain.image_views),
        }
    }

    /// Takes the outcomes of the framebuffer creations in view order,
    /// stopping at the first failure.
    pub fn create_framebuffers(self, o: Vec<Outcome>) -> (r: Result<
        CommandPoolBuildStage,
        BuildFailure,
    >)
        requires
            settled(o@, self.swap_chain.image_views@.len()),
        ensures
            failed(o@) ==> (r matches Err(f) && f.error == RenderingError::CreateFrameBufferError(
                code_of(o@.last()),
            ) && f.release@ == releases_rev(ObjectKind::Framebuffer, made(o@))),
            !failed(o@) ==> (r matches Ok(next) && next.instance == self.instance && next.device
                == self.device && next.swap_chain == self.swap_chain && next.pipeline
                == self.pipeline && next.framebuffers@ == made(o@)),
    {
        let batch = settle(&o);
        match batch.failure {
            Some(c) => {
                let mut release: Vec<Release> = Vec::new();
                push_releases_rev(&mut release, ObjectKind::Framebuffer, &batch.made);
                Err(BuildFailure { error: RenderingError::CreateFrameBufferError(c), release })
            },
            None => Ok(
                CommandPoolBuildStage {
                    instance: self.instance,
                    device: self.device,
                    swap_chain: self.swap_chain,
                    pipeline: self.pipeline,
                    framebuffers: batch.made,
                },
            ),
        }
    }
}

/// What the command pool and its buffers are created with.
#[derive(Clone, Copy, Debug, PartialEq, Eq, Structural)]
pub struct CommandPoolRequest {
    pub queue_family: u32,
    /// The pool's create flags: none.
    pub flags: u32,
    /// One primary command buffer per framebuffer.
    pub buffer_count: usize,
}

/// Creates the command pool on the graphics family and its buffers.
pub struct CommandPoolBuildStage {
    pub instance: InstanceHandles,
    pub device: DeviceHandles,
    pub swap_chain: SwapChainData,
    pub pipeline: PipelineHandles,
    pub framebuffers: Vec<u64>,
}

impl CommandPoolBuildStage {
    pub fn command_pool_request(&self) -> (r: CommandPoolRequest)
        ensures
            r.queue_family == self.device.queue_families.graphics,
            r.buffer_count == self.framebuffers@.len(),
            r.flags == 0,
    {
        CommandPoolRequest {
            queue_family: self.device.queue_families.graphics,
            flags: 0,
            buffer_count: self.framebuffers.len(),
        }
    }

    /// Takes the outcome of pool creation and of buffer allocation. A failed
    /// allocation releases the pool.
    pub fn create_command_pool(self, pool: Outcome, buffers: Result<Vec<u64>, i32>) -> (r:
        Result<SyncObjectsBuildStage, BuildFailure>)
        ensures
            pool matches Err(c) ==> (r matches Err(f) && f.error
                == RenderingError::CreateCommandPoolError(c) && f.release@ == Seq::<
                Release,
            >::empty()),
            pool matches Ok(p) ==> match buffers {
                Err(c) => r matches Err(f) && f.error == RenderingError::CreateCommandBufferError(c)
                    && f.release@ == seq![release_of(ObjectKind::CommandPool, p)],
                Ok(bs) => r matches Ok(next) && next.command_pool == p && next.command_buffers
                    == bs && next.instance == self.instance && next.device == self.device
                    && next.swap_chain == self.swap_chain && next.pipeline == self.pipeline
                    && next.framebuffers == self.framebuffers,
            },
    {
        match pool {
            Err(c) => Err(
                BuildFailure {
                    error: RenderingError::CreateCommandPoolError(c),
                    release: Vec::new(),
                },
            ),
            Ok(p) => match buffers {
                Err(c) => {
                    let mut release: Vec<Release> = Vec::new();
                    release.push(Release { kind: ObjectKind::CommandPool, handle: p });
                    Err(BuildFailure { error: RenderingError::CreateCommandBufferError(c), release })
                },
                Ok(bs) => Ok(
                    SyncObjectsBuildStage {
                        instance: self.instance,
                        device: self.device,
                        swap_chain: self.swap_chain,
                        pipeline: self.pipeline,
                        framebuffers: self.framebuffers,
                        command_pool: p,
                        command_buffers: bs,
                    },
                ),
            },
        }
    }
}

/// The number of semaphores made: image available, then render finished.
pub const SYNC_OBJECTS: usize = 2;

/// Creates the semaphores that pace one frame.
pub struct SyncObjectsBuildStage {
    pub instance: InstanceHandles,
    pub device: DeviceHandles,
    pub swap_chain: SwapChainData,
    pub pipeline: PipelineHandles,
    pub framebuffers: Vec<u64>,
    pub command_pool: u64,
    pub command_buffers: Vec<u64>,
}

impl SyncObjectsBuildStage {
    /// Takes the outcomes of the two semaphore creations, image available
    /// first, stopping at the first failure.
    pub fn create_sync_objects(self, o: Vec<Outcome>) -> (r: Result<EndBuildStage, BuildFailure>)
        requires
            settled(o@, SYNC_OBJECTS as nat),
        ensures
            failed(o@) ==> (r matches Err(f) && f.error == RenderingError::CreateSyncObjectsError(
                code_of(o@.last()),
            ) && f.release@ == releases_rev(ObjectKind::Semaphore, made(o@))),
            !failed(o@) ==> (r matches Ok(next) && next.image_available_semaphore == handle_of(
                o@[0],
            ) && next.render_finished_semaphore == handle_of(o@[1]) && next.instance
                == self.instance && next.device == self.device && next.swap_chain
                == self.swap_chain && next.pipeline == self.pipeline && next.framebuffers
                == self.framebuffers && next.command_pool == self.command_pool
                && next.command_buffers == self.command_buffers),
    {
        let batch = settle(&o);
        match batch.failure {
            Some(c) => {
                let mut release: Vec<Release> = Vec::new();
                push_releases_rev(&mut release, ObjectKind::Semaphore, &batch.made);
                Err(BuildFailure { error: RenderingError::CreateSyncObjectsError(c), release })
            },
            None => {
                let image_available_semaphore = batch.made[0];
                let render_finished_semaphore = batch.made[1];
                Ok(
                    EndBuildStage {
                        instance: self.instance,
                        device: self.device,
                        swap_chain: self.swap_chain,
                        pipeline: self.pipeline,
                        framebuffers: self.framebuffers,
                        command_pool: self.command_pool,
                        command_buffers: self.command_buffers,
                        image_available_semaphore,
                        render_finished_semaphore,
                    },
                )
            },
        }
    }
}

/// Every handle of the chain, ready to be handed to the context.
pub struct EndBuildStage {
    pub instance: InstanceHandles,
    pub device: DeviceHandles,
    pub swap_chain: SwapChainData,
    pub pipeline: PipelineHandles,
    pub framebuffers: Vec<u64>,
    pub command_pool: u64,
    pub command_buffers: Vec<u64>,
    pub image_available_semaphore: u64,
    pub render_finished_semaphore: u64,
}

/// The same last stage under its shorter name.
pub type EndBuilder = EndBuildStage;

impl EndBuildStage {
    /// Transfers every handle to the context.
    pub fn build(self) -> (r: RenderingQueue)
        ensures
            r.instance == self.instance,
            r.device == self.device,
            r.swap_chain == self.swap_chain,
            r.pipeline == self.pipeline,
            r.framebuffers == self.framebuffers,
            r.command_pool == self.command_pool,
            r.command_buffers == self.command_buffers,
            r.image_available_semaphore == self.image_available_semaphore,
            r.render_finished_semaphore == self.render_finished_semaphore,
    {
        RenderingQueue::new(
            self.instance,
            self.device,
            self.swap_chain,
            self.pipeline,
            self.framebuffers,
            self.command_pool,
            self.command_buffers,
            self.image_available_semaphore,
            self.render_finished_semaphore,
        )
    }
}

} // verus!
