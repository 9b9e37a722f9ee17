//! The errors of the tool, and the exit status that each leads to.

use vstd::prelude::*;

verus! {

/// A field of a device descriptor that is absent or has the wrong type.
#[derive(Debug, Clone, Copy, PartialEq, Eq)]
pub enum DescriptorField {
    /// `Device.id`, a string.
    DeviceId,
    /// `CompileTimeConfigPrefix`, a string.
    CompileTimeConfigPrefix,
    /// `DeviceConfig`, a sequence.
    DeviceConfig,
    /// `compile_time_prefix`, a string, in the entry of `DeviceConfig` at
    /// this index.
    DeviceConfigPrefix(usize),
    /// `value`, a string, in the entry of `DeviceConfig` at this index.
    DeviceConfigValue(usize),
    /// `Networks[0].config`, a sequence.
    NetworkConfig,
    /// `compile_time_prefix`, a string, in the entry of
    /// `Networks[0].config` at this index.
    NetworkConfigPrefix(usize),
    /// `value`, a string, in the entry of `Networks[0].config` at this
    /// index.
    NetworkConfigValue(usize),
}

/// Why the text of a device descriptor was not accepted.
#[derive(Debug, Clone, Copy, PartialEq, Eq)]
pub enum DescriptorFault {
    /// The text could nest more deeply than is read.
    TooDeep,
    /// The text is not YAML.
    Syntax,
    /// The text holds no document.
    NoDocument,
    /// The first document lacks this field, or holds something else there.
    Field(DescriptorField),
}

/// A credential of the network that a device joins.
#[derive(Debug, Clone, Copy, PartialEq, Eq)]
pub enum CredentialField {
    DevEui,
    AppEui,
    AppKey,
}

/// Everything that ends an invocation of the tool early.
#[derive(Debug, Clone, Copy, PartialEq, Eq)]
pub enum TyrError {
    /// The configuration file is there and cannot be read as a
    /// configuration.
    ConfigParseError,
    /// The configuration file or its directory could not be written.
    ConfigIoError,
    /// There is no descriptor file for the device.
    DescriptorNotFound,
    /// The descriptor file does not hold a descriptor.
    DescriptorParseError(DescriptorFault),
    /// The descriptor belongs to another device.
    DeviceIdMismatch,
    /// The configured devices directory does not exist.
    DevicesPathMissing,
    /// The configured sketch does not exist.
    SketchPathMissing,
    /// The toolchain did not answer when asked for its version.
    ToolchainMissing,
    /// A command of the toolchain ended with a failure status.
    SubprocessFailure,
    /// A command of the toolchain succeeded and printed something other
    /// than JSON.
    MalformedOutput,
    /// A credential does not have the length that its kind requires.
    InvalidCredentialLength(CredentialField),
}

/// The exit status of an invocation with this outcome: 0 on success, 1 on
/// every error.
pub open spec fn spec_exit_code(outcome: Result<(), TyrError>) -> i32 {
    match outcome {
        Ok(_) => 0,
        Err(_) => 1,
    }
}

/// The exit status of an invocation with this outcome.
pub fn exit_code(outcome: &Result<(), TyrError>) -> (code: i32)
    ensures
        code == spec_exit_code(*outcome),
{
    match outcome {
        Ok(_) => 0,
        Err(_) => 1,
    }
}

} // verus!
