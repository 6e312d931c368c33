//! Capability checks on one accelerator, and selection of the first suitable one.
use vstd::prelude::*;
use crate::queue_family::{
    find_present_queue_index, find_queue_index, has_graphics_family, has_present_family,
    is_first_with_flags, QueueFamilyInfo, QUEUE_GRAPHICS_BIT,
};
use crate::swap_chain::SwapChainSupport;

verus! {

/// The class of an accelerator.
#[derive(Clone, Copy, Debug, PartialEq, Eq, Structural)]
pub enum DeviceKind {
    Discrete,
    Integrated,
    Other,
}

/// Why an accelerator was rejected; the checks run in this order.
#[derive(Clone, Copy, Debug, PartialEq, Eq, Structural)]
pub enum SuitabilityIssue {
    NotDiscrete,
    MissingGeometryShader,
    MissingGraphicsQueue,
    MissingPresentQueue,
    MissingExtensions,
    SwapChainUnsupported,
}

#[derive(Clone, Copy, Debug, PartialEq, Eq, Structural)]
pub enum PickPhysicalDeviceError {
    SuitableDeviceNotFound,
    SuitabilityError(SuitabilityIssue),
}

/// Everything the checks read about one accelerator, as queried from the driver.
#[derive(Debug)]
pub struct PhysicalDeviceInfo {
    /// The accelerator's handle.
    pub device: u64,
    pub kind: DeviceKind,
    pub geometry_shader: bool,
    pub queue_families: Vec<QueueFamilyInfo>,
    /// The names of the supported device extensions; `None` where they could
    /// not be listed.
    pub extensions: Option<Vec<String>>,
    /// The swap chain capabilities with the bound surface; `None` where they
    /// could not be queried.
    pub swap_chain_support: Option<SwapChainSupport>,
}

/// `VK_KHR_swapchain`, the one device extension that is required.
pub open spec fn required_extensions() -> Seq<Seq<char>> {
    seq!["VK_KHR_swapchain"@]
}

pub open spec fn lists_name(names: Seq<String>, name: Seq<char>) -> bool {
    exists|i: int| 0 <= i < names.len() && (#[trigger] names[i])@ == name
}

pub open spec fn extensions_supported(extensions: Option<Vec<String>>) -> bool {
    match extensions {
        Some(names) => forall|k: int|
            0 <= k < required_extensions().len() ==> lists_name(
                names@,
                #[trigger] required_extensions()[k],
            ),
        None => false,
    }
}

pub open spec fn swap_chain_adequate(support: Option<SwapChainSupport>) -> bool {
    match support {
        Some(s) => s.formats@.len() > 0 && s.present_modes@.len() > 0,
        None => false,
    }
}

/// The first check that the accelerator fails, if any.
pub open spec fn first_issue(d: PhysicalDeviceInfo) -> Option<SuitabilityIssue> {
    if d.kind != DeviceKind::Discrete {
        Some(SuitabilityIssue::NotDiscrete)
    } else if !d.geometry_shader {
        Some(SuitabilityIssue::MissingGeometryShader)
    } else if !has_graphics_family(d.queue_families@) {
        Some(SuitabilityIssue::MissingGraphicsQueue)
    } else if !has_present_family(d.queue_families@) {
        Some(SuitabilityIssue::MissingPresentQueue)
    } else if !extensions_supported(d.extensions) {
        Some(SuitabilityIssue::MissingExtensions)
    } else if !swap_chain_adequate(d.swap_chain_support) {
        Some(SuitabilityIssue::SwapChainUnsupported)
    } else {
        None
    }
}

pub open spec fn suitable(d: PhysicalDeviceInfo) -> bool {
    first_issue(d) is None
}

/// `i` is the first suitable accelerator of the list.
pub open spec fn is_first_suitable(devices: Seq<PhysicalDeviceInfo>, i: int) -> bool {
    &&& 0 <= i < devices.len()
    &&& suitable(devices[i])
    &&& forall|j: int| 0 <= j < i ==> !suitable(#[trigger] devices[j])
}

/// The names of the required device extensions.
pub fn required_device_extensions() -> (r: Vec<String>)
    ensures
        r@.len() == required_extensions().len(),
        forall|k: int| 0 <= k < r@.len() ==> (#[trigger] r@[k])@ == required_extensions()[k],
{
    let mut r: Vec<String> = Vec::new();
    r.push("VK_KHR_swapchain".to_owned());
    r
}

/// Whether `names` holds `name`.
pub fn contains_name(names: &Vec<String>, name: &String) -> (r: bool)
    ensures
        r == lists_name(names@, name@),
{
    let mut i: usize = 0;
    while i < names.len()
        invariant
            0 <= i <= names@.len(),
            forall|j: int| 0 <= j < i ==> (#[trigger] names@[j])@ != name@,
        decreases names@.len() - i,
    {
        if names[i] == *name {
            return true;
        }
        i = i + 1;
    }
    false
}

impl PhysicalDeviceInfo {
    /// Its queue family indices fit in `u32`, as the API counts them.
    pub open spec fn wf(&self) -> bool {
        self.queue_families@.len() <= u32::MAX
    }

    /// The first queue family whose flags contain `flags`.
    pub fn get_queue_index(&self, flags: u32) -> (r: Option<u32>)
        requires
            self.wf(),
        ensures
            match r {
                Some(i) => is_first_with_flags(self.queue_families@, flags, i as int),
                None => forall|j: int|
                    0 <= j < self.queue_families@.len()
                        ==> !crate::queue_family::has_flags(#[trigger] self.queue_families@[j], flags),
            },
    {
        find_queue_index(&self.queue_families, flags)
    }

    /// The first queue family that can present to the bound surface.
    pub fn get_present_queue_index(&self) -> (r: Option<u32>)
        requires
            self.wf(),
        ensures
            match r {
                Some(i) => crate::queue_family::is_first_present(self.queue_families@, i as int),
                None => !has_present_family(self.queue_families@),
            },
    {
        find_present_queue_index(&self.queue_families)
    }

    /// Whether every required device extension is supported.
    pub fn check_extensions(&self) -> (r: bool)
        ensures
            r == extensions_supported(self.extensions),
    {
        match &self.extensions {
            None => false,
            Some(names) => {
                let required = required_device_extensions();
                let mut k: usize = 0;
                while k < required.len()
                    invariant
                        self.extensions == Some(*names),
                        0 <= k <= required@.len(),
                        required@.len() == required_extensions().len(),
                        forall|m: int|
                            0 <= m < required@.len() ==> (#[trigger] required@[m])@
                                == required_extensions()[m],
                        forall|m: int|
                            0 <= m < k ==> lists_name(names@, #[trigger] required_extensions()[m]),
                    decreases required@.len() - k,
                {
                    let found = contains_name(names, &required[k]);
                    assert(required@[k as int]@ == required_extensions()[k as int]);
                    if !found {
                        assert(!lists_name(names@, required_extensions()[k as int]));
                        return false;
                    }
                    k = k + 1;
                }
                true
            },
        }
    }

    /// Runs the checks in order and reports the first that fails.
    pub fn check(&self) -> (r: Result<(), PickPhysicalDeviceError>)
        requires
            self.wf(),
        ensures
            match first_issue(*self) {
                None => r is Ok,
                Some(issue) => r == Err::<(), _>(PickPhysicalDeviceError::SuitabilityError(issue)),
            },
    {
        if self.kind != DeviceKind::Discrete {
            return Err(PickPhysicalDeviceError::SuitabilityError(SuitabilityIssue::NotDiscrete));
        }
        if !self.geometry_shader {
            return Err(
                PickPhysicalDeviceError::SuitabilityError(SuitabilityIssue::MissingGeometryShader),
            );
        }
        let graphics = self.get_queue_index(QUEUE_GRAPHICS_BIT);
        if graphics.is_none() {
            proof {
                if has_graphics_family(self.queue_families@) {
                    let k = choose|k: int|
                        is_first_with_flags(self.queue_families@, QUEUE_GRAPHICS_BIT, k);
                    assert(!crate::queue_family::has_flags(
                        self.queue_families@[k],
                        QUEUE_GRAPHICS_BIT,
                    ));
                }
            }
            return Err(
                PickPhysicalDeviceError::SuitabilityError(SuitabilityIssue::MissingGraphicsQueue),
            );
        }
        if self.get_present_queue_index().is_none() {
            return Err(
                PickPhysicalDeviceError::SuitabilityError(SuitabilityIssue::MissingPresentQueue),
            );
        }
        if !self.check_extensions() {
            return Err(
                PickPhysicalDeviceError::SuitabilityError(SuitabilityIssue::MissingExtensions),
            );
        }
        let adequate = match &self.swap_chain_support {
            Some(s) => s.formats.len() > 0 && s.present_modes.len() > 0,
            None => false,
        };
        if !adequate {
            return Err(
                PickPhysicalDeviceError::SuitabilityError(SuitabilityIssue::SwapChainUnsupported),
            );
        }
        Ok(())
    }
}

/// The index of the first suitable accelerator in enumeration order; there is
/// no scoring among several suitable ones.
pub fn pick_physical_device(devices: &Vec<PhysicalDeviceInfo>) -> (r: Result<
    usize,
    PickPhysicalDeviceError,
>)
    requires
        forall|i: int| 0 <= i < devices@.len() ==> (#[trigger] devices@[i]).wf(),
    ensures
        match r {
            Ok(i) => is_first_suitable(devices@, i as int),
            Err(e) => e == PickPhysicalDeviceError::SuitableDeviceNotFound && forall|j: int|
                0 <= j < devices@.len() ==> !suitable(#[trigger] devices@[j]),
        },
{
    let mut i: usize = 0;
    while i < devices.len()
        invariant
            0 <= i <= devices@.len(),
            forall|k: int| 0 <= k < devices@.len() ==> (#[trigger] devices@[k]).wf(),
            forall|j: int| 0 <= j < i ==> !suitable(#[trigger] devices@[j]),
        decreases devices@.len() - i,
    {
        if devices[i].check().is_ok() {
            return Ok(i);
        }
        i = i + 1;
    }
    Err(PickPhysicalDeviceError::SuitableDeviceNotFound)
}

} // verus!
