use vstd::prelude::*;

use crate::error::BootstrapError;

verus! {

/// Bit of a queue family's capability flags that marks graphics support.
pub const QUEUE_GRAPHICS_BIT: u32 = 1;

/// Kind of hardware that a physical device reports.
#[derive(Clone, Copy, Debug, PartialEq, Eq, Structural)]
pub enum DeviceType {
    Other,
    IntegratedGpu,
    DiscreteGpu,
    VirtualGpu,
    Cpu,
}

/// Why a candidate physical device was not accepted.
#[derive(Clone, Copy, Debug, PartialEq, Eq, Structural)]
pub enum SuitabilityError {
    /// Only discrete and integrated GPUs are accepted.
    WrongDeviceType,
    /// The device lacks geometry shader support.
    MissingGeometryShader,
    /// No queue family of the device supports graphics work.
    MissingGraphicsQueueFamily,
}

impl SuitabilityError {
    /// Human-readable reason.
    pub fn message(&self) -> (r: &'static str)
        ensures
            *self == SuitabilityError::WrongDeviceType ==> r@ == "Only discrete and integrated GPUs are supported."@,
            *self == SuitabilityError::MissingGeometryShader ==> r@ == "Missing geometry shader support."@,
            *self == SuitabilityError::MissingGraphicsQueueFamily ==> r@ == "Missing required queue families."@,
    {
        match self {
            SuitabilityError::WrongDeviceType => "Only discrete and integrated GPUs are supported.",
            SuitabilityError::MissingGeometryShader => "Missing geometry shader support.",
            SuitabilityError::MissingGraphicsQueueFamily => "Missing required queue families.",
        }
    }
}

/// What the selection logic reads of one enumerated physical device.
#[derive(Clone, Debug)]
pub struct DeviceInfo {
    pub device_type: DeviceType,
    pub geometry_shader: bool,
    /// Capability flags of each queue family, in enumeration order.
    pub queue_families: Vec<u32>,
}

/// The queue family indices the context needs from a device.
#[derive(Clone, Copy, Debug, PartialEq, Eq, Structural)]
pub struct QueueFamilyIndices {
    pub graphics: u32,
}

pub open spec fn is_graphics(flags: u32) -> bool {
    flags & QUEUE_GRAPHICS_BIT == QUEUE_GRAPHICS_BIT
}

pub open spec fn has_graphics_family(families: Seq<u32>) -> bool {
    exists|j: int| 0 <= j < families.len() && is_graphics(#[trigger] families[j])
}

/// `i` is the lowest index of a graphics-capable family.
pub open spec fn is_first_graphics_family(families: Seq<u32>, i: int) -> bool {
    &&& 0 <= i < families.len()
    &&& is_graphics(families[i])
    &&& forall|j: int| 0 <= j < i ==> !is_graphics(#[trigger] families[j])
}

pub open spec fn is_gpu(t: DeviceType) -> bool {
    t == DeviceType::DiscreteGpu || t == DeviceType::IntegratedGpu
}

/// Outcome of the suitability checks, in the order they are made.
pub open spec fn suitability(d: DeviceInfo) -> Result<(), SuitabilityError> {
    if !is_gpu(d.device_type) {
        Err(SuitabilityError::WrongDeviceType)
    } else if !d.geometry_shader {
        Err(SuitabilityError::MissingGeometryShader)
    } else if !has_graphics_family(d.queue_families@) {
        Err(SuitabilityError::MissingGraphicsQueueFamily)
    } else {
        Ok(())
    }
}

pub open spec fn is_suitable(d: DeviceInfo) -> bool {
    suitability(d) is Ok
}

/// Queue family counts are reported as `u32`.
pub open spec fn well_formed(d: DeviceInfo) -> bool {
    d.queue_families@.len() <= u32::MAX
}

impl QueueFamilyIndices {
    /// Finds the first queue family, in enumeration order, that supports
    /// graphics work.
    pub fn get(families: &Vec<u32>) -> (r: Result<QueueFamilyIndices, SuitabilityError>)
        requires
            families@.len() <= u32::MAX,
        ensures
            r is Ok <==> has_graphics_family(families@),
            r matches Ok(q) ==> is_first_graphics_family(families@, q.graphics as int),
            r matches Err(e) ==> e == SuitabilityError::MissingGraphicsQueueFamily,
    {
        let mut i: usize = 0;
        while i < families.len()
            invariant
                i <= families@.len() <= u32::MAX,
                forall|j: int| 0 <= j < i ==> !is_graphics(#[trigger] families@[j]),
            decreases families@.len() - i,
        {
            if families[i] & QUEUE_GRAPHICS_BIT == QUEUE_GRAPHICS_BIT {
                return Ok(QueueFamilyIndices { graphics: i as u32 });
            }
            i = i + 1;
        }
        Err(SuitabilityError::MissingGraphicsQueueFamily)
    }
}

/// Checks one candidate device: device type, then geometry shader support,
/// then a graphics-capable queue family. Stops at the first failing check.
pub fn check_physical_device(device: &DeviceInfo) -> (r: Result<QueueFamilyIndices, SuitabilityError>)
    requires
        well_formed(*device),
    ensures
        r matches Ok(q) ==> suitability(*device) is Ok && is_first_graphics_family(
            device.queue_families@,
            q.graphics as int,
        ),
        r matches Err(e) ==> suitability(*device) == Err::<(), SuitabilityError>(e),
{
    if device.device_type != DeviceType::DiscreteGpu && device.device_type != DeviceType::IntegratedGpu {
        return Err(SuitabilityError::WrongDeviceType);
    }
    if !device.geometry_shader {
        return Err(SuitabilityError::MissingGeometryShader);
    }
    QueueFamilyIndices::get(&device.queue_families)
}

/// The device chosen for the context and its graphics queue family.
#[derive(Clone, Copy, Debug, PartialEq, Eq, Structural)]
pub struct SelectedDevice {
    /// Position of the device in the enumeration.
    pub index: usize,
    pub graphics_family: u32,
}

/// Result of a selection: the reason each skipped device was refused, in
/// enumeration order, and the chosen device if any.
#[derive(Debug)]
pub struct DeviceSelection {
    pub skipped: Vec<SuitabilityError>,
    pub outcome: Result<SelectedDevice, BootstrapError>,
}

/// Index of the first suitable device in `devices`, if there is one.
pub open spec fn first_suitable(devices: Seq<DeviceInfo>, i: int) -> bool {
    &&& 0 <= i < devices.len()
    &&& is_suitable(devices[i])
    &&& forall|j: int| 0 <= j < i ==> !is_suitable(#[trigger] devices[j])
}

pub open spec fn none_suitable(devices: Seq<DeviceInfo>) -> bool {
    forall|j: int| 0 <= j < devices.len() ==> !is_suitable(#[trigger] devices[j])
}

/// Evaluates the devices in enumeration order and selects the first one
/// that passes the suitability checks.
pub fn pick_physical_device(devices: &Vec<DeviceInfo>) -> (r: DeviceSelection)
    requires
        forall|j: int| 0 <= j < devices@.len() ==> well_formed(#[trigger] devices@[j]),
    ensures
        r.outcome matches Ok(s) ==> first_suitable(devices@, s.index as int)
            && is_first_graphics_family(devices@[s.index as int].queue_families@, s.graphics_family as int)
            && r.skipped@.len() == s.index,
        r.outcome is Err <==> none_suitable(devices@),
        r.outcome matches Err(e) ==> e == BootstrapError::NoSuitableDevice && r.skipped@.len() == devices@.len(),
        forall|j: int| 0 <= j < r.skipped@.len() ==> suitability(devices@[j]) == Err::<(), SuitabilityError>(
            #[trigger] r.skipped@[j],
        ),
{
    let mut skipped: Vec<SuitabilityError> = Vec::new();
    let mut i: usize = 0;
    while i < devices.len()
        invariant
            i <= devices@.len(),
            skipped@.len() == i,
            forall|j: int| 0 <= j < devices@.len() ==> well_formed(#[trigger] devices@[j]),
            forall|j: int| 0 <= j < i ==> suitability(devices@[j]) == Err::<(), SuitabilityError>(#[trigger] skipped@[j]),
        decreases devices@.len() - i,
    {
        match check_physical_device(&devices[i]) {
            Ok(q) => {
                assert forall|j: int| 0 <= j < i implies !is_suitable(#[trigger] devices@[j]) by {
                    assert(suitability(devices@[j]) == Err::<(), SuitabilityError>(skipped@[j]));
                }
                return DeviceSelection {
                    skipped,
                    outcome: Ok(SelectedDevice { index: i, graphics_family: q.graphics }),
                };
            },
            Err(e) => {
                skipped.push(e);
            },
        }
        i = i + 1;
    }
    assert forall|j: int| 0 <= j < devices@.len() implies !is_suitable(#[trigger] devices@[j]) by {
        assert(suitability(devices@[j]) == Err::<(), SuitabilityError>(skipped@[j]));
    }
    DeviceSelection { skipped, outcome: Err(BootstrapError::NoSuitableDevice) }
}

} // verus!
