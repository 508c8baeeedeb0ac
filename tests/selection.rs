use gpu_bootstrap::device::{
    check_physical_device, pick_physical_device, DeviceInfo, DeviceType, QueueFamilyIndices,
    SelectedDevice, SuitabilityError, QUEUE_GRAPHICS_BIT,
};
use gpu_bootstrap::error::BootstrapError;

const COMPUTE: u32 = 0x2;
const TRANSFER: u32 = 0x4;

fn device(device_type: DeviceType, geometry_shader: bool, queue_families: Vec<u32>) -> DeviceInfo {
    DeviceInfo { device_type, geometry_shader, queue_families }
}

#[test]
fn scenario_cpu_only_has_no_suitable_device() {
    let devices = vec![device(DeviceType::Cpu, true, vec![QUEUE_GRAPHICS_BIT])];
    let selection = pick_physical_device(&devices);
    assert_eq!(selection.outcome, Err(BootstrapError::NoSuitableDevice));
    assert_eq!(selection.skipped, vec![SuitabilityError::WrongDeviceType]);
}

#[test]
fn scenario_single_discrete_gpu_is_selected() {
    let devices = vec![device(DeviceType::DiscreteGpu, true, vec![QUEUE_GRAPHICS_BIT])];
    let selection = pick_physical_device(&devices);
    assert_eq!(selection.outcome, Ok(SelectedDevice { index: 0, graphics_family: 0 }));
    assert!(selection.skipped.is_empty());
}

#[test]
fn scenario_device_without_geometry_shader_is_skipped() {
    let devices = vec![
        device(DeviceType::DiscreteGpu, false, vec![QUEUE_GRAPHICS_BIT]),
        device(DeviceType::IntegratedGpu, true, vec![QUEUE_GRAPHICS_BIT]),
    ];
    let selection = pick_physical_device(&devices);
    assert_eq!(selection.outcome, Ok(SelectedDevice { index: 1, graphics_family: 0 }));
    assert_eq!(selection.skipped, vec![SuitabilityError::MissingGeometryShader]);
}

#[test]
fn empty_device_list_has_no_suitable_device() {
    let selection = pick_physical_device(&Vec::new());
    assert_eq!(selection.outcome, Err(BootstrapError::NoSuitableDevice));
    assert!(selection.skipped.is_empty());
}

#[test]
fn first_of_several_suitable_devices_is_selected() {
    let devices = vec![
        device(DeviceType::VirtualGpu, true, vec![QUEUE_GRAPHICS_BIT]),
        device(DeviceType::IntegratedGpu, true, vec![COMPUTE, QUEUE_GRAPHICS_BIT]),
        device(DeviceType::DiscreteGpu, true, vec![QUEUE_GRAPHICS_BIT]),
    ];
    let selection = pick_physical_device(&devices);
    assert_eq!(selection.outcome, Ok(SelectedDevice { index: 1, graphics_family: 1 }));
    assert_eq!(selection.skipped, vec![SuitabilityError::WrongDeviceType]);
}

#[test]
fn every_reason_is_reported_when_none_pass() {
    let devices = vec![
        device(DeviceType::Other, true, vec![QUEUE_GRAPHICS_BIT]),
        device(DeviceType::DiscreteGpu, false, vec![QUEUE_GRAPHICS_BIT]),
        device(DeviceType::DiscreteGpu, true, vec![COMPUTE | TRANSFER]),
    ];
    let selection = pick_physical_device(&devices);
    assert_eq!(selection.outcome, Err(BootstrapError::NoSuitableDevice));
    assert_eq!(
        selection.skipped,
        vec![
            SuitabilityError::WrongDeviceType,
            SuitabilityError::MissingGeometryShader,
            SuitabilityError::MissingGraphicsQueueFamily,
        ]
    );
}

#[test]
fn checks_stop_at_the_device_type() {
    let d = device(DeviceType::Cpu, false, Vec::new());
    assert_eq!(check_physical_device(&d), Err(SuitabilityError::WrongDeviceType));
}

#[test]
fn suitable_device_reports_its_graphics_family() {
    let d = device(DeviceType::IntegratedGpu, true, vec![TRANSFER, COMPUTE, QUEUE_GRAPHICS_BIT | COMPUTE]);
    assert_eq!(check_physical_device(&d), Ok(QueueFamilyIndices { graphics: 2 }));
}

#[test]
fn lowest_graphics_family_is_chosen() {
    let families = vec![COMPUTE, QUEUE_GRAPHICS_BIT | COMPUTE, QUEUE_GRAPHICS_BIT];
    assert_eq!(QueueFamilyIndices::get(&families), Ok(QueueFamilyIndices { graphics: 1 }));
}

#[test]
fn no_graphics_family_is_an_error() {
    let families = vec![COMPUTE, TRANSFER, COMPUTE | TRANSFER];
    assert_eq!(QueueFamilyIndices::get(&families), Err(SuitabilityError::MissingGraphicsQueueFamily));
    assert_eq!(QueueFamilyIndices::get(&Vec::new()), Err(SuitabilityError::MissingGraphicsQueueFamily));
}

#[test]
fn suitability_messages() {
    assert_eq!(SuitabilityError::WrongDeviceType.message(), "Only discrete and integrated GPUs are supported.");
    assert_eq!(SuitabilityError::MissingGeometryShader.message(), "Missing geometry shader support.");
    assert_eq!(SuitabilityError::MissingGraphicsQueueFamily.message(), "Missing required queue families.");
}
