//! The build chain up to the swap chain: one type per stage, each with one
//! operation that consumes the stage and yields the next.
//!
//! A stage says what native calls to make (its request) and takes their
//! outcomes; it never makes a call itself. Where a stage creates several
//! objects and one creation fails, the failure lists the destroy calls for
//! what that stage had already created, last created first. Handles of earlier
//! stages are carried forward unchanged.
use vstd::prelude::*;
use crate::context::{DeviceHandles, InstanceHandles, SwapChainData};
use crate::error::{BuildFailure, RenderingError, RqResult, SupportIssue};
use crate::handles::{
    code_of, failed, handle_of, made, push_releases_rev, release_of, releases_rev, settle,
    settled, stops_at_failure, ObjectKind, Outcome, Release,
};
use crate::render_stages::PipelineAddingStage;
use crate::physical_device::{
    is_first_suitable, pick_physical_device, required_device_extensions, required_extensions,
    suitable, PhysicalDeviceInfo,
};
use crate::queue_family::{resolved_indices, unique_indices, QueueFamilyIndices};
use crate::swap_chain::{choose_swap_chain_settings, chosen_settings, Extent2D, SwapChainSettings};

verus! {

/// The initial swap chain extent that is asked for.
#[derive(Clone, Copy, Debug, PartialEq, Eq, Structural)]
pub struct RenderingResolution {
    pub width: u32,
    pub height: u32,
}

/// The options that the build recognises.
#[derive(Clone, Copy, Debug, PartialEq, Eq, Structural)]
pub struct RenderingPipelineConfig {
    /// Enables the validation layer and a debug messenger.
    pub use_validation_layer: bool,
    pub rendering_resolution: RenderingResolution,
}

pub open spec fn validation_layer_name() -> Seq<char> {
    "VK_LAYER_KHRONOS_validation"@
}

pub open spec fn debug_utils_extension_name() -> Seq<char> {
    "VK_EXT_debug_utils"@
}

pub open spec fn names_of(v: Seq<String>) -> Seq<Seq<char>> {
    v.map_values(|s: String| s@)
}

/// The validation layer where it is configured, else nothing.
pub open spec fn requested_layers(config: RenderingPipelineConfig) -> Seq<Seq<char>> {
    if config.use_validation_layer {
        seq![validation_layer_name()]
    } else {
        Seq::empty()
    }
}

pub open spec fn resolution_extent(res: RenderingResolution) -> Extent2D {
    Extent2D { width: res.width, height: res.height }
}

fn layers_for(config: &RenderingPipelineConfig) -> (r: Vec<String>)
    ensures
        names_of(r@) == requested_layers(*config),
{
    let mut r: Vec<String> = Vec::new();
    if config.use_validation_layer {
        r.push("VK_LAYER_KHRONOS_validation".to_owned());
    }
    assert(names_of(r@) =~= requested_layers(*config));
    r
}

/// What opening the native API's loader gave.
#[derive(Clone, Copy, Debug, PartialEq, Eq, Structural)]
pub enum LoaderOutcome {
    Loaded,
    /// The shared loader library could not be opened.
    LibraryUnavailable,
    /// The entry points could not be resolved from it.
    EntryUnresolved,
}

/// Opens the connection to the native API.
pub struct InitialBuilder;

/// The same first stage under the name the chain is built by.
pub type RenderingQueueBuilder = InitialBuilder;

impl InitialBuilder {
    pub fn new() -> InitialBuilder {
        InitialBuilder
    }

    /// Takes the outcome of loading the native API.
    pub fn create_entry(self, loader: LoaderOutcome) -> (r: RqResult<InstanceBuilder>)
        ensures
            loader == LoaderOutcome::Loaded <==> r is Ok,
            loader == LoaderOutcome::LibraryUnavailable ==> r == Err::<InstanceBuilder, RenderingError>(RenderingError::LoadLibraryError),
            loader == LoaderOutcome::EntryUnresolved ==> r == Err::<InstanceBuilder, RenderingError>(RenderingError::CreateEntryError),
    {
        match loader {
            LoaderOutcome::Loaded => Ok(InstanceBuilder),
            LoaderOutcome::LibraryUnavailable => Err(RenderingError::LoadLibraryError),
            LoaderOutcome::EntryUnresolved => Err(RenderingError::CreateEntryError),
        }
    }
}

/// The layers and extensions to create the instance with. The caller adds the
/// surface extensions that its window system needs.
#[derive(Debug)]
pub struct InstanceRequest {
    pub layers: Vec<String>,
    pub extensions: Vec<String>,
    /// A debug messenger is to be installed right after the instance.
    pub debug_messenger: bool,
}

/// Creates the instance, and the debug messenger where diagnostics are on.
pub struct InstanceBuilder;

impl InstanceBuilder {
    pub fn instance_request(&self, config: &RenderingPipelineConfig) -> (r: InstanceRequest)
        ensures
            names_of(r.layers@) == requested_layers(*config),
            names_of(r.extensions@) == (if config.use_validation_layer {
                seq![debug_utils_extension_name()]
            } else {
                Seq::<Seq<char>>::empty()
            }),
            r.debug_messenger == config.use_validation_layer,
    {
        let layers = layers_for(config);
        let mut extensions: Vec<String> = Vec::new();
        if config.use_validation_layer {
            extensions.push("VK_EXT_debug_utils".to_owned());
        }
        assert(names_of(extensions@) =~= (if config.use_validation_layer {
            seq![debug_utils_extension_name()]
        } else {
            Seq::<Seq<char>>::empty()
        }));
        InstanceRequest { layers, extensions, debug_messenger: config.use_validation_layer }
    }

    /// Takes the outcome of instance creation and, once the instance exists,
    /// of the debug messenger, which is installed exactly where diagnostics
    /// are configured. A failed messenger releases the instance.
    pub fn create_instance(
        self,
        config: RenderingPipelineConfig,
        instance: Outcome,
        messenger: Option<Outcome>,
    ) -> (r: Result<SurfaceBuilder, BuildFailure>)
        requires
            instance is Ok ==> (messenger is Some <==> config.use_validation_layer),
        ensures
            r matches Ok(s) ==> (s.messenger is Some <==> config.use_validation_layer),
            instance matches Err(c) ==> (r matches Err(f) && f.error
                == RenderingError::CreateInstanceError(c) && f.release@ == Seq::<Release>::empty()),
            instance matches Ok(i) ==> match messenger {
                Some(Err(c)) => r matches Err(f) && f.error == RenderingError::CreateInstanceError(c)
                    && f.release@ == seq![release_of(ObjectKind::Instance, i)],
                Some(Ok(m)) => r matches Ok(s) && s.config == config && s.instance == i
                    && s.messenger == Some(m),
                None => r matches Ok(s) && s.config == config && s.instance == i && s.messenger
                    is None,
            },
    {
        match instance {
            Err(c) => Err(
                BuildFailure { error: RenderingError::CreateInstanceError(c), release: Vec::new() },
            ),
            Ok(i) => match messenger {
                Some(Err(c)) => {
                    let mut release: Vec<Release> = Vec::new();
                    release.push(Release { kind: ObjectKind::Instance, handle: i });
                    Err(BuildFailure { error: RenderingError::CreateInstanceError(c), release })
                },
                Some(Ok(m)) => Ok(SurfaceBuilder { config, instance: i, messenger: Some(m) }),
                None => Ok(SurfaceBuilder { config, instance: i, messenger: None }),
            },
        }
    }
}

/// Binds the instance to the window through a presentation surface.
pub struct SurfaceBuilder {
    pub config: RenderingPipelineConfig,
    pub instance: u64,
    pub messenger: Option<u64>,
}

impl SurfaceBuilder {
    /// Takes the outcome of surface creation.
    pub fn create_surface(self, surface: Outcome) -> (r: RqResult<PhysicalDeviceBuilder>)
        ensures
            surface matches Err(c) ==> r == Err::<PhysicalDeviceBuilder, RenderingError>(
                RenderingError::SupportError(SupportIssue::SurfaceUnavailable(c)),
            ),
            surface matches Ok(s) ==> (r matches Ok(next) && next.config == self.config
                && next.instance == (InstanceHandles {
                instance: self.instance,
                messenger: self.messenger,
                surface: s,
            })),
    {
        match surface {
            Err(c) => Err(RenderingError::SupportError(SupportIssue::SurfaceUnavailable(c))),
            Ok(s) => Ok(
                PhysicalDeviceBuilder {
                    config: self.config,
                    instance: InstanceHandles {
                        instance: self.instance,
                        messenger: self.messenger,
                        surface: s,
                    },
                },
            ),
        }
    }
}

/// Picks the accelerator.
pub struct PhysicalDeviceBuilder {
    pub config: RenderingPipelineConfig,
    pub instance: InstanceHandles,
}

/// What the logical device stage holds once `devices[i]` was picked.
pub open spec fn picked(
    stage: PhysicalDeviceBuilder,
    devices: Seq<PhysicalDeviceInfo>,
    i: int,
    next: LogicalDeviceBuilder,
) -> bool {
    &&& is_first_suitable(devices, i)
    &&& next.config == stage.config
    &&& next.instance == stage.instance
    &&& next.physical_device == devices[i].device
    &&& resolved_indices(devices[i].queue_families@, next.queue_families)
    &&& next.settings == chosen_settings(
        devices[i].swap_chain_support->Some_0,
        resolution_extent(stage.config.rendering_resolution),
    )
}

impl PhysicalDeviceBuilder {
    /// Takes the enumerated accelerators (or the enumeration's status code),
    /// picks the first suitable one, resolves its queue families and
    /// negotiates its swap chain for the configured resolution.
    pub fn choose_physical_device(self, devices: Result<Vec<PhysicalDeviceInfo>, i32>) -> (r:
        RqResult<LogicalDeviceBuilder>)
        requires
            devices matches Ok(ds) ==> forall|i: int|
                0 <= i < ds@.len() ==> (#[trigger] ds@[i]).wf(),
        ensures
            devices matches Err(c) ==> r == Err::<LogicalDeviceBuilder, RenderingError>(
                RenderingError::ChoosePhysicalDeviceError(c),
            ),
            devices matches Ok(ds) ==> (r is Err <==> forall|j: int|
                0 <= j < ds@.len() ==> !suitable(#[trigger] ds@[j])),
            devices is Ok && r is Err ==> r == Err::<LogicalDeviceBuilder, RenderingError>(
                RenderingError::SupportError(SupportIssue::NoSuitableDevice),
            ),
            devices matches Ok(ds) ==> (r matches Ok(next) ==> exists|i: int|
                picked(self, ds@, i, next)),
    {
        let ds = match devices {
            Err(c) => {
                return Err(RenderingError::ChoosePhysicalDeviceError(c));
            },
            Ok(ds) => ds,
        };
        let i = match pick_physical_device(&ds) {
            Err(_) => {
                return Err(RenderingError::SupportError(SupportIssue::NoSuitableDevice));
            },
            Ok(i) => i,
        };
        let d = &ds[i];
        let queue_families = match QueueFamilyIndices::create(&d.queue_families) {
            Some(q) => q,
            None => {
                proof {
                    assert(suitable(ds@[i as int]));
                }
                return Err(RenderingError::SupportError(SupportIssue::NoSuitableDevice));
            },
        };
        let requested = Extent2D {
            width: self.config.rendering_resolution.width,
            height: self.config.rendering_resolution.height,
        };
        let settings = match &d.swap_chain_support {
            Some(support) => choose_swap_chain_settings(support, requested),
            None => {
                proof {
                    assert(suitable(ds@[i as int]));
                }
                return Err(RenderingError::SupportError(SupportIssue::NoSuitableDevice));
            },
        };
        let next = LogicalDeviceBuilder {
            config: self.config,
            instance: self.instance,
            physical_device: d.device,
            queue_families,
            settings,
        };
        assert(picked(self, ds@, i as int, next));
        Ok(next)
    }
}

/// What the logical device is created with. Every queue family gets one
/// queue of priority one.
#[derive(Debug)]
pub struct DeviceRequest {
    pub physical_device: u64,
    pub queue_families: Vec<u32>,
    pub layers: Vec<String>,
    pub extensions: Vec<String>,
}

/// Creates the logical device on the picked accelerator.
pub struct LogicalDeviceBuilder {
    pub config: RenderingPipelineConfig,
    pub instance: InstanceHandles,
    pub physical_device: u64,
    pub queue_families: QueueFamilyIndices,
    pub settings: SwapChainSettings,
}

impl LogicalDeviceBuilder {
    /// One queue per distinct family, the validation layer where configured,
    /// and the swap chain extension.
    pub fn device_request(&self) -> (r: DeviceRequest)
        ensures
            r.physical_device == self.physical_device,
            r.queue_families@ == unique_indices(self.queue_families),
            names_of(r.layers@) == requested_layers(self.config),
            names_of(r.extensions@) == required_extensions(),
    {
        let extensions = required_device_extensions();
        assert(names_of(extensions@) =~= required_extensions());
        DeviceRequest {
            physical_device: self.physical_device,
            queue_families: self.queue_families.get_unique_indices(),
            layers: layers_for(&self.config),
            extensions,
        }
    }

    /// Takes the outcome of device creation.
    pub fn create_logical_device(self, device: Outcome) -> (r: RqResult<SwapChainBuilder>)
        ensures
            device matches Err(c) ==> r == Err::<SwapChainBuilder, RenderingError>(
                RenderingError::CreateLogicalDeviceError(c),
            ),
            device matches Ok(d) ==> (r matches Ok(next) && next.instance == self.instance
                && next.settings == self.settings && next.device == (DeviceHandles {
                physical_device: self.physical_device,
                queue_families: self.queue_families,
                device: d,
            })),
    {
        match device {
            Err(c) => Err(RenderingError::CreateLogicalDeviceError(c)),
            Ok(d) => Ok(
                SwapChainBuilder {
                    instance: self.instance,
                    device: DeviceHandles {
                        physical_device: self.physical_device,
                        queue_families: self.queue_families,
                        device: d,
                    },
                    settings: self.settings,
                },
            ),
        }
    }
}

/// Creates the swap chain, fetches its images and makes one view per image.
pub struct SwapChainBuilder {
    pub instance: InstanceHandles,
    pub device: DeviceHandles,
    pub settings: SwapChainSettings,
}

/// What the swap chain is created with.
#[derive(Debug)]
pub struct SwapChainRequest {
    pub surface: u64,
    pub settings: SwapChainSettings,
    /// The distinct queue families that use the images.
    pub queue_families: Vec<u32>,
    /// The images are shared between two families rather than owned by one.
    pub concurrent_sharing: bool,
}

/// The destroy calls for a swap chain stage that failed: the views made,
/// last first, then the swap chain if it was made.
pub open spec fn swap_chain_failure_release(swap_chain: Outcome, views: Seq<Outcome>) -> Seq<
    Release,
> {
    releases_rev(ObjectKind::ImageView, made(views)) + match swap_chain {
        Ok(s) => seq![release_of(ObjectKind::SwapChain, s)],
        Err(_) => Seq::empty(),
    }
}

/// The status code that a failed swap chain stage reports: the first call
/// that failed.
pub open spec fn swap_chain_failure_code(
    swap_chain: Outcome,
    images: Result<Vec<u64>, i32>,
    views: Seq<Outcome>,
) -> Option<i32> {
    match swap_chain {
        Err(c) => Some(c),
        Ok(_) => match images {
            Err(c) => Some(c),
            Ok(_) => if failed(views) {
                Some(code_of(views.last()))
            } else {
                None
            },
        },
    }
}

impl SwapChainBuilder {
    pub fn swap_chain_request(&self) -> (r: SwapChainRequest)
        ensures
            r.surface == self.instance.surface,
            r.settings == self.settings,
            r.queue_families@ == unique_indices(self.device.queue_families),
            r.concurrent_sharing == (self.device.queue_families.graphics
                != self.device.queue_families.present),
    {
        SwapChainRequest {
            surface: self.instance.surface,
            settings: self.settings,
            queue_families: self.device.queue_families.get_unique_indices(),
            concurrent_sharing: self.device.queue_families.graphics
                != self.device.queue_families.present,
        }
    }

    /// Takes the outcome of swap chain creation, of fetching its images, and
    /// of the image view creations in image order (stopping at the first
    /// failure).
    pub fn create_swap_chain(
        self,
        swap_chain: Outcome,
        images: Result<Vec<u64>, i32>,
        views: Vec<Outcome>,
    ) -> (r: Result<PipelineAddingStage, BuildFailure>)
        requires
            stops_at_failure(views@),
            images matches Ok(imgs) ==> settled(views@, imgs@.len()),
        ensures
            swap_chain_failure_code(swap_chain, images, views@) matches Some(c) ==> (r matches Err(
                f,
            ) && f.error == RenderingError::CreateSwapChainError(c) && f.release@
                == swap_chain_failure_release(swap_chain, views@)),
            swap_chain_failure_code(swap_chain, images, views@) is None ==> (r matches Ok(next)
                && next.instance == self.instance && next.device == self.device
                && next.swap_chain.swap_chain == handle_of(swap_chain)
                && next.swap_chain.settings == self.settings && Ok::<Vec<u64>, i32>(
                next.swap_chain.images,
            ) == images && next.swap_chain.image_views@ == made(views@)),
    {
        let batch = settle(&views);
        let code = match swap_chain {
            Err(c) => Some(c),
            Ok(_) => match &images {
                Err(c) => Some(*c),
                Ok(_) => batch.failure,
            },
        };
        match code {
            Some(c) => {
                let mut release: Vec<Release> = Vec::new();
                push_releases_rev(&mut release, ObjectKind::ImageView, &batch.made);
                if let Ok(s) = swap_chain {
                    release.push(Release { kind: ObjectKind::SwapChain, handle: s });
                }
                assert(release@ =~= swap_chain_failure_release(swap_chain, views@));
                Err(BuildFailure { error: RenderingError::CreateSwapChainError(c), release })
            },
            None => {
                let s = match swap_chain {
                    Ok(s) => s,
                    Err(_) => 0,
                };
                let imgs = match images {
                    Ok(imgs) => imgs,
                    Err(_) => Vec::new(),
                };
                Ok(
                    PipelineAddingStage {
                        instance: self.instance,
                        device: self.device,
                        swap_chain: SwapChainData {
                            swap_chain: s,
                            settings: self.settings,
                            images: imgs,
                            image_views: batch.made,
                        },
                    },
                )
            },
        }
    }
}

} // verus!
