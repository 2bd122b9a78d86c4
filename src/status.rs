use vstd::prelude::*;

use coreclr_hosting_shared::StatusCode;

verus! {

/// The `i32` that the native library returns for a plain success.
pub open spec fn spec_success() -> i32 {
    0
}

/// The `i32` returned when the configuration is compatible with hosting
/// components that were already initialized.
pub open spec fn spec_success_host_already_initialized() -> i32 {
    1
}

/// The `i32` returned when the configuration's runtime properties differ from
/// those of hosting components that were already initialized.
pub open spec fn spec_success_different_runtime_properties() -> i32 {
    2
}

/// The `i32` returned for a call that the host context's state does not allow
/// (`0x800080a3` read as `i32`).
pub open spec fn spec_host_invalid_state() -> i32 {
    -2147450717i32
}

/// The `i32` returned for a scenario that the hosting API does not support
/// (`0x800080a6` read as `i32`).
pub open spec fn spec_host_api_unsupported_scenario() -> i32 {
    -2147450714i32
}

/// Relies on `coreclr_hosting_shared::StatusCode::Success`, declared as 0.
#[verifier::external_body]
pub(crate) fn success() -> (r: i32)
    ensures
        r == spec_success(),
{
    StatusCode::Success as i32
}

/// Relies on `coreclr_hosting_shared::StatusCode::Success_HostAlreadyInitialized`,
/// declared as 1.
#[verifier::external_body]
pub(crate) fn success_host_already_initialized() -> (r: i32)
    ensures
        r == spec_success_host_already_initialized(),
{
    StatusCode::Success_HostAlreadyInitialized as i32
}

/// Relies on `coreclr_hosting_shared::StatusCode::Success_DifferentRuntimeProperties`,
/// declared as 2.
#[verifier::external_body]
pub(crate) fn success_different_runtime_properties() -> (r: i32)
    ensures
        r == spec_success_different_runtime_properties(),
{
    StatusCode::Success_DifferentRuntimeProperties as i32
}

/// Relies on `coreclr_hosting_shared::StatusCode::HostInvalidState`, declared
/// as `0x800080a3` in a `u32` representation; `as i32` keeps the bits.
#[verifier::external_body]
pub(crate) fn host_invalid_state() -> (r: i32)
    ensures
        r == spec_host_invalid_state(),
{
    StatusCode::HostInvalidState as i32
}

/// Relies on `coreclr_hosting_shared::StatusCode::HostApiUnsupportedScenario`,
/// declared as `0x800080a6` in a `u32` representation; `as i32` keeps the bits.
#[verifier::external_body]
pub(crate) fn host_api_unsupported_scenario() -> (r: i32)
    ensures
        r == spec_host_api_unsupported_scenario(),
{
    StatusCode::HostApiUnsupportedScenario as i32
}

/// How a status returned by an initialization call reads.
#[derive(Clone, Copy, Debug, PartialEq, Eq, Structural)]
pub enum InitOutcome {
    /// The hosting components were initialized by this call.
    Initialized,
    /// They were already initialized, compatibly with the configuration.
    AlreadyInitialized,
    /// They were already initialized with runtime properties that differ from
    /// the configuration's; still a success, whose acceptability the caller judges.
    DifferentRuntimeProperties,
    /// Any other status: the call failed.
    Failed,
}

pub open spec fn spec_init_outcome(status: i32) -> InitOutcome {
    if status == spec_success() {
        InitOutcome::Initialized
    } else if status == spec_success_host_already_initialized() {
        InitOutcome::AlreadyInitialized
    } else if status == spec_success_different_runtime_properties() {
        InitOutcome::DifferentRuntimeProperties
    } else {
        InitOutcome::Failed
    }
}

/// Reads the status returned by an initialization call.
pub fn init_outcome(status: i32) -> (r: InitOutcome)
    ensures
        r == spec_init_outcome(status),
{
    if status == success() {
        InitOutcome::Initialized
    } else if status == success_host_already_initialized() {
        InitOutcome::AlreadyInitialized
    } else if status == success_different_runtime_properties() {
        InitOutcome::DifferentRuntimeProperties
    } else {
        InitOutcome::Failed
    }
}

} // verus!
