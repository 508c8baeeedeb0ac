use vstd::prelude::*;

verus! {

/// Failures that end the bring-up of the context.
#[derive(Clone, Copy, Debug, PartialEq, Eq, Structural)]
pub enum BootstrapError {
    /// The API loader library could not be found or initialised.
    Loader,
    /// A required layer is not offered by the host.
    Capability,
    /// The driver refused to create the instance.
    InstanceCreation,
    /// No enumerated physical device passed the suitability checks.
    NoSuitableDevice,
    /// The driver refused to create the logical device.
    DeviceCreation,
}

impl BootstrapError {
    /// Human-readable description.
    pub fn message(&self) -> (r: &'static str)
        ensures
            *self == BootstrapError::Loader ==> r@ == "Failed to load the API loader library."@,
            *self == BootstrapError::Capability ==> r@ == "Validation layer requested but not supported!"@,
            *self == BootstrapError::InstanceCreation ==> r@ == "Failed to create the instance."@,
            *self == BootstrapError::NoSuitableDevice ==> r@ == "Failed to find suitable physical device."@,
            *self == BootstrapError::DeviceCreation ==> r@ == "Failed to create the logical device."@,
    {
        match self {
            BootstrapError::Loader => "Failed to load the API loader library.",
            BootstrapError::Capability => "Validation layer requested but not supported!",
            BootstrapError::InstanceCreation => "Failed to create the instance.",
            BootstrapError::NoSuitableDevice => "Failed to find suitable physical device.",
            BootstrapError::DeviceCreation => "Failed to create the logical device.",
        }
    }
}

} // verus!
