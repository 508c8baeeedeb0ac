use vstd::prelude::*;

use crate::capability::{
    create_device_request, create_instance_request, debug_messenger_for, device_request_matches,
    instance_request_matches, needs_portability, negotiate, offers_validation, ApiVersion,
    BuildConfig, Capabilities, DeviceRequest, InstanceRequest, MessengerConfig,
};
use crate::device::{
    first_suitable, is_first_graphics_family, none_suitable, pick_physical_device, well_formed,
    DeviceInfo, SelectedDevice,
};
use crate::error::BootstrapError;
use crate::lifecycle::{teardown_order, teardown_plan, CreatedResources, Resource};

verus! {

/// Where the bring-up of the context stands.
#[derive(Clone, Copy, Debug, PartialEq, Eq, Structural)]
pub enum Stage {
    /// Waiting for the API loader.
    Loading,
    /// Waiting for the host's list of instance layers.
    ListingLayers,
    /// Waiting for the instance to be created.
    CreatingInstance,
    /// Waiting for the debug messenger to be created.
    CreatingMessenger,
    /// Waiting for the list of physical devices.
    ListingDevices,
    /// Waiting for the logical device and its queue.
    CreatingDevice,
    /// The context is complete.
    Ready,
    /// Bring-up failed; what had been created was handed back for release.
    Failed,
}

/// What the driver side reports back after performing an action.
#[derive(Debug)]
pub enum Event {
    LoaderReady(ApiVersion),
    LoaderFailed,
    LayersListed(Vec<String>),
    InstanceCreated,
    InstanceFailed,
    MessengerCreated,
    MessengerFailed,
    DevicesListed(Vec<DeviceInfo>),
    /// An enumeration call (layers or physical devices) failed.
    QueryFailed,
    DeviceCreated,
    DeviceFailed,
}

/// What the driver side is asked to do next.
#[derive(Debug)]
pub enum Action {
    ListLayers,
    CreateInstance(InstanceRequest),
    CreateMessenger(MessengerConfig),
    ListDevices,
    CreateDevice(SelectedDevice, DeviceRequest),
    /// The context is complete, bound to this device.
    Finish(SelectedDevice),
    /// Release these objects in this order, then report the error.
    Abort(BootstrapError, Vec<Resource>),
    /// The event does not belong to the current stage.
    Ignore,
}

/// The decisions of the bring-up sequence: fed the result of each driver
/// call, it says which call to make next, and on failure which objects to
/// release.
#[derive(Clone, Copy, Debug)]
pub struct Bootstrap {
    pub config: BuildConfig,
    /// Number of instance extensions the windowing system requires.
    pub window_extensions: usize,
    pub stage: Stage,
    pub caps: Capabilities,
    pub created: CreatedResources,
    pub selected: Option<SelectedDevice>,
}

pub open spec fn nothing_created(c: CreatedResources) -> bool {
    !c.messenger && !c.device && !c.instance
}

impl Bootstrap {
    /// Objects exist exactly as far as the sequence has come, and the
    /// debug messenger exists only in diagnostics mode.
    pub open spec fn wf(self) -> bool {
        &&& self.caps.diagnostics == self.config.diagnostics
        &&& match self.stage {
            Stage::Loading | Stage::ListingLayers | Stage::CreatingInstance | Stage::Failed => nothing_created(
                self.created,
            ),
            Stage::CreatingMessenger => self.created.instance && !self.created.messenger
                && !self.created.device && self.caps.diagnostics,
            Stage::ListingDevices => self.created.instance && self.created.messenger
                == self.caps.diagnostics && !self.created.device,
            Stage::CreatingDevice => self.created.instance && self.created.messenger
                == self.caps.diagnostics && !self.created.device && self.selected is Some,
            Stage::Ready => self.created.instance && self.created.messenger == self.caps.diagnostics
                && self.created.device && self.selected is Some,
        }
    }

    /// Bring-up has failed: everything created was handed back, in release
    /// order, together with `err`.
    pub open spec fn aborted(self, next: Bootstrap, action: Action, err: BootstrapError) -> bool {
        &&& next.stage == Stage::Failed
        &&& match action {
            Action::Abort(e, plan) => e == err && plan@ == teardown_order(self.created),
            _ => false,
        }
    }

    /// The event is out of place: nothing changes.
    pub open spec fn ignored(self, next: Bootstrap, action: Action) -> bool {
        next == self && action is Ignore
    }

    /// A bring-up that has not started: nothing created, waiting for the
    /// loader.
    pub fn new(config: BuildConfig, window_extensions: usize) -> (r: Bootstrap)
        ensures
            r.wf(),
            r.config == config,
            r.window_extensions == window_extensions,
            r.stage == Stage::Loading,
            nothing_created(r.created),
            r.selected is None,
    {
        Bootstrap {
            config,
            window_extensions,
            stage: Stage::Loading,
            caps: Capabilities { diagnostics: config.diagnostics, portability: false },
            created: CreatedResources::none(),
            selected: None,
        }
    }

    fn abort(self, err: BootstrapError) -> (r: (Bootstrap, Action))
        requires
            self.wf(),
        ensures
            self.aborted(r.0, r.1, err),
            r.0.wf(),
            r.0.config == self.config,
            r.0.window_extensions == self.window_extensions,
    {
        let plan = teardown_plan(self.created);
        let next = Bootstrap { stage: Stage::Failed, created: CreatedResources::none(), ..self };
        (next, Action::Abort(err, plan))
    }

    /// Takes the result of the last action and decides the next one.
    pub fn step(self, event: Event) -> (r: (Bootstrap, Action))
        requires
            self.wf(),
            event matches Event::DevicesListed(ds) ==> forall|j: int|
                0 <= j < ds@.len() ==> well_formed(#[trigger] ds@[j]),
        ensures
            r.0.wf(),
            r.0.config == self.config,
            r.0.window_extensions == self.window_extensions,
            self.stage == Stage::Loading ==> match event {
                Event::LoaderReady(v) => r.0.stage == Stage::ListingLayers && r.0.caps.portability
                    == needs_portability(self.config.platform, v) && r.1 is ListLayers,
                Event::LoaderFailed => self.aborted(r.0, r.1, BootstrapError::Loader),
                _ => self.ignored(r.0, r.1),
            },
            self.stage == Stage::ListingLayers ==> match event {
                Event::LayersListed(av) => if self.caps.diagnostics && !offers_validation(av@) {
                    self.aborted(r.0, r.1, BootstrapError::Capability)
                } else {
                    r.0.stage == Stage::CreatingInstance && r.0.caps == self.caps && match r.1 {
                        Action::CreateInstance(q) => instance_request_matches(
                            self.caps,
                            self.window_extensions as nat,
                            q,
                        ),
                        _ => false,
                    }
                },
                Event::QueryFailed => self.aborted(r.0, r.1, BootstrapError::Loader),
                _ => self.ignored(r.0, r.1),
            },
            self.stage == Stage::CreatingInstance ==> match event {
                Event::InstanceCreated => r.0.caps == self.caps && if self.caps.diagnostics {
                    r.0.stage == Stage::CreatingMessenger && match r.1 {
                        Action::CreateMessenger(m) => Some(m) == debug_messenger_for(self.caps),
                        _ => false,
                    }
                } else {
                    r.0.stage == Stage::ListingDevices && r.1 is ListDevices
                },
                Event::InstanceFailed => self.aborted(r.0, r.1, BootstrapError::InstanceCreation),
                _ => self.ignored(r.0, r.1),
            },
            self.stage == Stage::CreatingMessenger ==> match event {
                Event::MessengerCreated => r.0.stage == Stage::ListingDevices && r.0.caps == self.caps
                    && r.1 is ListDevices,
                Event::MessengerFailed => self.aborted(r.0, r.1, BootstrapError::InstanceCreation),
                _ => self.ignored(r.0, r.1),
            },
            self.stage == Stage::ListingDevices ==> match event {
                Event::DevicesListed(ds) => if none_suitable(ds@) {
                    self.aborted(r.0, r.1, BootstrapError::NoSuitableDevice)
                } else {
                    r.0.stage == Stage::CreatingDevice && r.0.caps == self.caps && match r.1 {
                        Action::CreateDevice(s, q) => {
                            &&& r.0.selected == Some(s)
                            &&& first_suitable(ds@, s.index as int)
                            &&& is_first_graphics_family(
                                ds@[s.index as int].queue_families@,
                                s.graphics_family as int,
                            )
                            &&& device_request_matches(self.caps, s, q)
                        },
                        _ => false,
                    }
                },
                Event::QueryFailed => self.aborted(r.0, r.1, BootstrapError::NoSuitableDevice),
                _ => self.ignored(r.0, r.1),
            },
            self.stage == Stage::CreatingDevice ==> match event {
                Event::DeviceCreated => r.0.stage == Stage::Ready && r.0.selected == self.selected
                    && match r.1 {
                    Action::Finish(s) => self.selected == Some(s),
                    _ => false,
                },
                Event::DeviceFailed => self.aborted(r.0, r.1, BootstrapError::DeviceCreation),
                _ => self.ignored(r.0, r.1),
            },
            self.stage == Stage::Ready || self.stage == Stage::Failed ==> self.ignored(r.0, r.1),
    {
        match self.stage {
            Stage::Loading => match event {
                Event::LoaderReady(v) => {
                    let caps = negotiate(self.config, v);
                    (Bootstrap { stage: Stage::ListingLayers, caps, ..self }, Action::ListLayers)
                },
                Event::LoaderFailed => self.abort(BootstrapError::Loader),
                _ => (self, Action::Ignore),
            },
            Stage::ListingLayers => match event {
                Event::LayersListed(av) => match create_instance_request(
                    self.caps,
                    &av,
                    self.window_extensions,
                ) {
                    Ok(q) => (
                        Bootstrap { stage: Stage::CreatingInstance, ..self },
                        Action::CreateInstance(q),
                    ),
                    Err(e) => self.abort(e),
                },
                Event::QueryFailed => self.abort(BootstrapError::Loader),
                _ => (self, Action::Ignore),
            },
            Stage::CreatingInstance => match event {
                Event::InstanceCreated => {
                    let created = CreatedResources { instance: true, ..self.created };
                    if self.caps.diagnostics {
                        let m = MessengerConfig {
                            severity_mask: crate::capability::SEVERITY_ALL,
                            type_mask: crate::capability::MESSAGE_TYPES_ALL,
                        };
                        (
                            Bootstrap { stage: Stage::CreatingMessenger, created, ..self },
                            Action::CreateMessenger(m),
                        )
                    } else {
                        (
                            Bootstrap { stage: Stage::ListingDevices, created, ..self },
                            Action::ListDevices,
                        )
                    }
                },
                Event::InstanceFailed => self.abort(BootstrapError::InstanceCreation),
                _ => (self, Action::Ignore),
            },
            Stage::CreatingMessenger => match event {
                Event::MessengerCreated => {
                    let created = CreatedResources { messenger: true, ..self.created };
                    (Bootstrap { stage: Stage::ListingDevices, created, ..self }, Action::ListDevices)
                },
                Event::MessengerFailed => self.abort(BootstrapError::InstanceCreation),
                _ => (self, Action::Ignore),
            },
            Stage::ListingDevices => match event {
                Event::DevicesListed(ds) => {
                    let selection = pick_physical_device(&ds);
                    match selection.outcome {
                        Ok(s) => {
                            let q = create_device_request(self.caps, s);
                            (
                                Bootstrap {
                                    stage: Stage::CreatingDevice,
                                    selected: Some(s),
                                    ..self
                                },
                                Action::CreateDevice(s, q),
                            )
                        },
                        Err(e) => self.abort(e),
                    }
                },
                Event::QueryFailed => self.abort(BootstrapError::NoSuitableDevice),
                _ => (self, Action::Ignore),
            },
            Stage::CreatingDevice => match event {
                Event::DeviceCreated => {
                    let created = CreatedResources { device: true, ..self.created };
                    let s = self.selected.unwrap();
                    (Bootstrap { stage: Stage::Ready, created, ..self }, Action::Finish(s))
                },
                Event::DeviceFailed => self.abort(BootstrapError::DeviceCreation),
                _ => (self, Action::Ignore),
            },
            Stage::Ready | Stage::Failed => (self, Action::Ignore),
        }
    }

    /// The objects to release when the application shuts down, in release
    /// order. A failed bring-up has already handed back what it created.
    pub fn shutdown(self) -> (r: Vec<Resource>)
        requires
            self.wf(),
        ensures
            r@ == teardown_order(self.created),
    {
        teardown_plan(self.created)
    }
}

/// Until the instance exists, a failing bring-up has nothing to release:
/// a refusal at the layer check comes before any object is created.
pub proof fn nothing_to_release_before_instance(b: Bootstrap)
    requires
        b.wf(),
        b.stage == Stage::Loading || b.stage == Stage::ListingLayers || b.stage
            == Stage::CreatingInstance,
    ensures
        teardown_order(b.created).len() == 0,
{
}

/// Without diagnostics mode no debug messenger exists at any stage.
pub proof fn no_messenger_without_diagnostics(b: Bootstrap)
    requires
        b.wf(),
        !b.config.diagnostics,
    ensures
        !b.created.messenger,
        forall|i: int|
            0 <= i < teardown_order(b.created).len() ==> #[trigger] teardown_order(b.created)[i]
                != Resource::DebugMessenger,
{
    assert(teardown_order(b.created) =~= (if b.created.device {
        seq![Resource::Device]
    } else {
        seq![]
    }) + (if b.created.instance {
        seq![Resource::Instance]
    } else {
        seq![]
    }));
}

} // verus!
