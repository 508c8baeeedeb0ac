use gpu_bootstrap::bootstrap::{Action, Bootstrap, Event, Stage};
use gpu_bootstrap::capability::{ApiVersion, BuildConfig, Extension, Layer, MessengerConfig, Platform};
use gpu_bootstrap::device::{DeviceInfo, DeviceType, SelectedDevice, QUEUE_GRAPHICS_BIT};
use gpu_bootstrap::error::BootstrapError;
use gpu_bootstrap::lifecycle::{teardown_plan, CreatedResources, Resource};

fn created(messenger: bool, device: bool, instance: bool) -> CreatedResources {
    CreatedResources { messenger, device, instance }
}

fn gpu() -> DeviceInfo {
    DeviceInfo { device_type: DeviceType::DiscreteGpu, geometry_shader: true, queue_families: vec![QUEUE_GRAPHICS_BIT] }
}

fn config(diagnostics: bool) -> BuildConfig {
    BuildConfig { diagnostics, platform: Platform::Other }
}

#[test]
fn teardown_releases_messenger_then_device_then_instance() {
    assert_eq!(
        teardown_plan(created(true, true, true)),
        vec![Resource::DebugMessenger, Resource::Device, Resource::Instance]
    );
    assert_eq!(teardown_plan(created(false, true, true)), vec![Resource::Device, Resource::Instance]);
    assert_eq!(teardown_plan(created(true, false, true)), vec![Resource::DebugMessenger, Resource::Instance]);
    assert_eq!(teardown_plan(created(false, false, true)), vec![Resource::Instance]);
    assert!(teardown_plan(CreatedResources::none()).is_empty());
}

#[test]
fn diagnostics_bring_up_creates_and_releases_everything() {
    let b = Bootstrap::new(config(true), 1);
    let (b, a) = b.step(Event::LoaderReady(ApiVersion::new(1, 3, 0)));
    assert!(matches!(a, Action::ListLayers));
    let (b, a) = b.step(Event::LayersListed(vec!["VK_LAYER_KHRONOS_validation".to_string()]));
    match a {
        Action::CreateInstance(q) => {
            assert_eq!(q.layers, vec![Layer::Validation]);
            assert_eq!(q.extensions, vec![Extension::Windowing(0), Extension::DebugUtils]);
        }
        other => panic!("unexpected action {:?}", other),
    }
    let (b, a) = b.step(Event::InstanceCreated);
    assert!(matches!(a, Action::CreateMessenger(MessengerConfig { severity_mask: 0x1111, type_mask: 0x7 })));
    let (b, a) = b.step(Event::MessengerCreated);
    assert!(matches!(a, Action::ListDevices));
    let devices = vec![DeviceInfo { geometry_shader: false, ..gpu() }, gpu()];
    let (b, a) = b.step(Event::DevicesListed(devices));
    match a {
        Action::CreateDevice(s, q) => {
            assert_eq!(s, SelectedDevice { index: 1, graphics_family: 0 });
            assert_eq!(q.queue_family_index, 0);
            assert_eq!(q.queue_count, 1);
        }
        other => panic!("unexpected action {:?}", other),
    }
    let (b, a) = b.step(Event::DeviceCreated);
    assert!(matches!(a, Action::Finish(SelectedDevice { index: 1, graphics_family: 0 })));
    assert_eq!(b.stage, Stage::Ready);
    assert_eq!(b.shutdown(), vec![Resource::DebugMessenger, Resource::Device, Resource::Instance]);
}

#[test]
fn release_bring_up_never_asks_for_a_messenger() {
    let b = Bootstrap::new(config(false), 0);
    let (b, _) = b.step(Event::LoaderReady(ApiVersion::new(1, 0, 0)));
    let (b, a) = b.step(Event::LayersListed(Vec::new()));
    match a {
        Action::CreateInstance(q) => {
            assert!(q.layers.is_empty());
            assert!(q.extensions.is_empty());
            assert_eq!(q.debug_messenger, None);
        }
        other => panic!("unexpected action {:?}", other),
    }
    let (b, a) = b.step(Event::InstanceCreated);
    assert!(matches!(a, Action::ListDevices));
    let (b, _) = b.step(Event::DevicesListed(vec![gpu()]));
    let (b, _) = b.step(Event::DeviceCreated);
    assert_eq!(b.shutdown(), vec![Resource::Device, Resource::Instance]);
}

#[test]
fn missing_validation_layer_aborts_before_creating_anything() {
    let b = Bootstrap::new(config(true), 2);
    let (b, _) = b.step(Event::LoaderReady(ApiVersion::new(1, 3, 0)));
    let (b, a) = b.step(Event::LayersListed(Vec::new()));
    match a {
        Action::Abort(e, plan) => {
            assert_eq!(e, BootstrapError::Capability);
            assert!(plan.is_empty());
        }
        other => panic!("unexpected action {:?}", other),
    }
    assert_eq!(b.stage, Stage::Failed);
    assert!(b.shutdown().is_empty());
}

#[test]
fn cpu_only_bring_up_releases_the_instance() {
    let b = Bootstrap::new(config(false), 0);
    let (b, _) = b.step(Event::LoaderReady(ApiVersion::new(1, 0, 0)));
    let (b, _) = b.step(Event::LayersListed(Vec::new()));
    let (b, _) = b.step(Event::InstanceCreated);
    let cpu = DeviceInfo { device_type: DeviceType::Cpu, ..gpu() };
    let (_, a) = b.step(Event::DevicesListed(vec![cpu]));
    match a {
        Action::Abort(e, plan) => {
            assert_eq!(e, BootstrapError::NoSuitableDevice);
            assert_eq!(plan, vec![Resource::Instance]);
        }
        other => panic!("unexpected action {:?}", other),
    }
}

#[test]
fn failed_device_creation_releases_messenger_and_instance() {
    let b = Bootstrap::new(config(true), 0);
    let (b, _) = b.step(Event::LoaderReady(ApiVersion::new(1, 0, 0)));
    let (b, _) = b.step(Event::LayersListed(vec!["VK_LAYER_KHRONOS_validation".to_string()]));
    let (b, _) = b.step(Event::InstanceCreated);
    let (b, _) = b.step(Event::MessengerCreated);
    let (b, _) = b.step(Event::DevicesListed(vec![gpu()]));
    let (_, a) = b.step(Event::DeviceFailed);
    match a {
        Action::Abort(e, plan) => {
            assert_eq!(e, BootstrapError::DeviceCreation);
            assert_eq!(plan, vec![Resource::DebugMessenger, Resource::Instance]);
        }
        other => panic!("unexpected action {:?}", other),
    }
}

#[test]
fn each_failure_maps_to_its_error() {
    let (_, a) = Bootstrap::new(config(false), 0).step(Event::LoaderFailed);
    assert!(matches!(a, Action::Abort(BootstrapError::Loader, _)));
    let (b, _) = Bootstrap::new(config(false), 0).step(Event::LoaderReady(ApiVersion::new(1, 0, 0)));
    let (b2, _) = b.step(Event::LayersListed(Vec::new()));
    let (_, a) = b2.step(Event::InstanceFailed);
    match a {
        Action::Abort(e, plan) => {
            assert_eq!(e, BootstrapError::InstanceCreation);
            assert!(plan.is_empty());
        }
        other => panic!("unexpected action {:?}", other),
    }
    let (_, a) = b.step(Event::QueryFailed);
    assert!(matches!(a, Action::Abort(BootstrapError::Loader, _)));
}

#[test]
fn out_of_order_event_is_ignored() {
    let b = Bootstrap::new(config(false), 0);
    let (next, a) = b.step(Event::DeviceCreated);
    assert!(matches!(a, Action::Ignore));
    assert_eq!(next.stage, Stage::Loading);
    assert!(next.shutdown().is_empty());
}
