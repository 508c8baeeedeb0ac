use vstd::prelude::*;

use crate::device::SelectedDevice;
use crate::error::BootstrapError;

verus! {

/// An API version as major, minor and patch numbers.
#[derive(Clone, Copy, Debug, PartialEq, Eq, Structural)]
pub struct ApiVersion {
    pub major: u32,
    pub minor: u32,
    pub patch: u32,
}

/// Versions order by major, then minor, then patch number.
pub open spec fn version_at_least(v: ApiVersion, w: ApiVersion) -> bool {
    v.major > w.major || (v.major == w.major && (v.minor > w.minor || (v.minor == w.minor
        && v.patch >= w.patch)))
}

impl ApiVersion {
    pub fn new(major: u32, minor: u32, patch: u32) -> (r: ApiVersion)
        ensures
            r == (ApiVersion { major, minor, patch }),
    {
        ApiVersion { major, minor, patch }
    }

    pub fn at_least(&self, other: &ApiVersion) -> (r: bool)
        ensures
            r == version_at_least(*self, *other),
    {
        self.major > other.major || (self.major == other.major && (self.minor > other.minor || (
        self.minor == other.minor && self.patch >= other.patch)))
    }
}

/// The loader version from which the portability subset is required on
/// macOS.
pub open spec fn portability_min_version() -> ApiVersion {
    ApiVersion { major: 1, minor: 3, patch: 216 }
}

/// The version requested for the application, the engine and the API.
pub open spec fn base_version() -> ApiVersion {
    ApiVersion { major: 1, minor: 0, patch: 0 }
}

/// The platform the context is built for.
#[derive(Clone, Copy, Debug, PartialEq, Eq, Structural)]
pub enum Platform {
    /// Runs the API through a portability layer.
    MacOs,
    Other,
}

/// Build-time settings: whether diagnostics (validation) are on, and the
/// target platform.
#[derive(Clone, Copy, Debug, PartialEq, Eq, Structural)]
pub struct BuildConfig {
    pub diagnostics: bool,
    pub platform: Platform,
}

/// What was decided once about the host: whether diagnostics are requested
/// and whether the portability subset must be enabled.
#[derive(Clone, Copy, Debug, PartialEq, Eq, Structural)]
pub struct Capabilities {
    pub diagnostics: bool,
    pub portability: bool,
}

pub open spec fn needs_portability(platform: Platform, loader: ApiVersion) -> bool {
    platform == Platform::MacOs && version_at_least(loader, portability_min_version())
}

/// Settles the capability flags from the build settings and the version of
/// the loader.
pub fn negotiate(config: BuildConfig, loader: ApiVersion) -> (r: Capabilities)
    ensures
        r.diagnostics == config.diagnostics,
        r.portability == needs_portability(config.platform, loader),
{
    let min = ApiVersion::new(1, 3, 216);
    let portability = match config.platform {
        Platform::MacOs => loader.at_least(&min),
        Platform::Other => false,
    };
    Capabilities { diagnostics: config.diagnostics, portability }
}

/// A layer the context may request.
#[derive(Clone, Copy, Debug, PartialEq, Eq, Structural)]
pub enum Layer {
    /// The Khronos validation layer.
    Validation,
}

/// An extension the context may request.
#[derive(Clone, Copy, Debug, PartialEq, Eq, Structural)]
pub enum Extension {
    /// The extension at this position of the list that the windowing
    /// system requires.
    Windowing(usize),
    DebugUtils,
    GetPhysicalDeviceProperties2,
    PortabilityEnumeration,
    PortabilitySubset,
}

/// Severity bits of a debug messenger: verbose, info, warning and error.
pub const SEVERITY_ALL: u32 = 0x1111;

/// Message type bits of a debug messenger: general, validation and
/// performance.
pub const MESSAGE_TYPES_ALL: u32 = 0x7;

/// What the debug messenger chained into instance creation listens to.
#[derive(Clone, Copy, Debug, PartialEq, Eq, Structural)]
pub struct MessengerConfig {
    pub severity_mask: u32,
    pub type_mask: u32,
}

/// Everything an instance-creation call is given.
#[derive(Clone, Debug)]
pub struct InstanceRequest {
    pub application_version: ApiVersion,
    pub engine_version: ApiVersion,
    pub api_version: ApiVersion,
    pub layers: Vec<Layer>,
    pub extensions: Vec<Extension>,
    /// Whether the portability-enumeration creation flag is set.
    pub enumerate_portability: bool,
    /// The messenger chained into the request, present exactly in
    /// diagnostics mode.
    pub debug_messenger: Option<MessengerConfig>,
}

/// Everything a logical-device-creation call is given, apart from the queue
/// priority, which is always the highest.
#[derive(Clone, Debug)]
pub struct DeviceRequest {
    pub queue_family_index: u32,
    pub queue_count: u32,
    pub layers: Vec<Layer>,
    pub extensions: Vec<Extension>,
}

pub open spec fn requested_layers(diagnostics: bool) -> Seq<Layer> {
    if diagnostics {
        seq![Layer::Validation]
    } else {
        seq![]
    }
}

pub open spec fn windowing_extensions(n: nat) -> Seq<Extension> {
    Seq::new(n, |i: int| Extension::Windowing(i as usize))
}

/// Windowing extensions first, then the debug extension in diagnostics
/// mode, then the two portability extensions where they are needed.
pub open spec fn instance_extensions(caps: Capabilities, window_extensions: nat) -> Seq<Extension> {
    windowing_extensions(window_extensions) + (if caps.diagnostics {
        seq![Extension::DebugUtils]
    } else {
        seq![]
    }) + (if caps.portability {
        seq![Extension::GetPhysicalDeviceProperties2, Extension::PortabilityEnumeration]
    } else {
        seq![]
    })
}

pub open spec fn device_extensions(caps: Capabilities) -> Seq<Extension> {
    if caps.portability {
        seq![Extension::PortabilitySubset]
    } else {
        seq![]
    }
}

pub open spec fn debug_messenger_for(caps: Capabilities) -> Option<MessengerConfig> {
    if caps.diagnostics {
        Some(MessengerConfig { severity_mask: SEVERITY_ALL, type_mask: MESSAGE_TYPES_ALL })
    } else {
        None
    }
}

/// The instance request that the negotiated capabilities call for.
pub open spec fn instance_request_matches(caps: Capabilities, window_extensions: nat, q: InstanceRequest) -> bool {
    &&& q.application_version == base_version()
    &&& q.engine_version == base_version()
    &&& q.api_version == base_version()
    &&& q.layers@ == requested_layers(caps.diagnostics)
    &&& q.extensions@ == instance_extensions(caps, window_extensions)
    &&& q.enumerate_portability == caps.portability
    &&& q.debug_messenger == debug_messenger_for(caps)
}

/// The device request for the selected device: one queue of its graphics
/// family.
pub open spec fn device_request_matches(caps: Capabilities, selected: SelectedDevice, r: DeviceRequest) -> bool {
    &&& r.queue_family_index == selected.graphics_family
    &&& r.queue_count == 1
    &&& r.layers@ == requested_layers(caps.diagnostics)
    &&& r.extensions@ == device_extensions(caps)
}

pub open spec fn validation_layer_name() -> Seq<char> {
    "VK_LAYER_KHRONOS_validation"@
}

pub open spec fn offers_validation(available: Seq<String>) -> bool {
    exists|i: int| 0 <= i < available.len() && (#[trigger] available[i])@ == validation_layer_name()
}

/// Whether the host's layer list holds the validation layer.
pub fn validation_layer_available(available: &Vec<String>) -> (r: bool)
    ensures
        r == offers_validation(available@),
{
    let name = String::from_str("VK_LAYER_KHRONOS_validation");
    let mut i: usize = 0;
    while i < available.len()
        invariant
            i <= available@.len(),
            name@ == validation_layer_name(),
            forall|j: int| 0 <= j < i ==> (#[trigger] available@[j])@ != validation_layer_name(),
        decreases available@.len() - i,
    {
        if available[i] == name {
            return true;
        }
        i = i + 1;
    }
    false
}

fn layers_for(diagnostics: bool) -> (r: Vec<Layer>)
    ensures
        r@ == requested_layers(diagnostics),
{
    let mut layers: Vec<Layer> = Vec::new();
    if diagnostics {
        layers.push(Layer::Validation);
    }
    proof {
        if diagnostics {
            assert(layers@ =~= requested_layers(diagnostics));
        } else {
            assert(layers@ =~= requested_layers(diagnostics));
        }
    }
    layers
}

/// Builds the instance-creation request. In diagnostics mode the validation
/// layer must be offered by the host, else the request is refused before
/// anything is created.
pub fn create_instance_request(
    caps: Capabilities,
    available_layers: &Vec<String>,
    window_extensions: usize,
) -> (r: Result<InstanceRequest, BootstrapError>)
    ensures
        r is Err <==> caps.diagnostics && !offers_validation(available_layers@),
        r matches Err(e) ==> e == BootstrapError::Capability,
        r matches Ok(q) ==> instance_request_matches(caps, window_extensions as nat, q),
        !caps.diagnostics ==> (r matches Ok(q) && {
            &&& q.debug_messenger is None
            &&& forall|i: int| 0 <= i < q.layers@.len() ==> #[trigger] q.layers@[i] != Layer::Validation
            &&& forall|i: int|
                0 <= i < q.extensions@.len() ==> #[trigger] q.extensions@[i] != Extension::DebugUtils
        }),
{
    if caps.diagnostics && !validation_layer_available(available_layers) {
        return Err(BootstrapError::Capability);
    }
    let layers = layers_for(caps.diagnostics);
    let mut extensions: Vec<Extension> = Vec::new();
    let mut i: usize = 0;
    while i < window_extensions
        invariant
            i <= window_extensions,
            extensions@ == windowing_extensions(i as nat),
        decreases window_extensions - i,
    {
        extensions.push(Extension::Windowing(i));
        i = i + 1;
        assert(extensions@ =~= windowing_extensions(i as nat));
    }
    let ghost base = extensions@;
    if caps.diagnostics {
        extensions.push(Extension::DebugUtils);
    }
    let ghost with_debug = extensions@;
    assert(with_debug =~= base + (if caps.diagnostics {
        seq![Extension::DebugUtils]
    } else {
        seq![]
    }));
    if caps.portability {
        extensions.push(Extension::GetPhysicalDeviceProperties2);
        extensions.push(Extension::PortabilityEnumeration);
    }
    assert(extensions@ =~= instance_extensions(caps, window_extensions as nat));
    let debug_messenger = if caps.diagnostics {
        Some(MessengerConfig { severity_mask: SEVERITY_ALL, type_mask: MESSAGE_TYPES_ALL })
    } else {
        None
    };
    proof {
        if !caps.diagnostics {
            assert forall|i: int| 0 <= i < extensions@.len() implies #[trigger] extensions@[i]
                != Extension::DebugUtils by {
                if i >= window_extensions {
                    assert(extensions@[i] == instance_extensions(caps, window_extensions as nat)[i]);
                }
            }
        }
    }
    Ok(
        InstanceRequest {
            application_version: ApiVersion::new(1, 0, 0),
            engine_version: ApiVersion::new(1, 0, 0),
            api_version: ApiVersion::new(1, 0, 0),
            layers,
            extensions,
            enumerate_portability: caps.portability,
            debug_messenger,
        },
    )
}

/// Builds the logical-device request: one queue of the selected graphics
/// family, the same layers as the instance, and the portability subset
/// where it is needed.
pub fn create_device_request(caps: Capabilities, selected: SelectedDevice) -> (r: DeviceRequest)
    ensures
        device_request_matches(caps, selected, r),
{
    let layers = layers_for(caps.diagnostics);
    let mut extensions: Vec<Extension> = Vec::new();
    if caps.portability {
        extensions.push(Extension::PortabilitySubset);
    }
    assert(extensions@ =~= device_extensions(caps));
    DeviceRequest { queue_family_index: selected.graphics_family, queue_count: 1, layers, extensions }
}

} // verus!
