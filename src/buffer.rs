use vstd::prelude::*;

use crate::status::{spec_success, success};

verus! {

/// The `i32` returned when the caller's buffer is too small for the result
/// (`0x80008098` read as `i32`).
pub open spec fn spec_host_api_buffer_too_small() -> i32 {
    -2147450728i32
}

/// Relies on `coreclr_hosting_shared::StatusCode::HostApiBufferTooSmall`,
/// declared as `0x80008098` in a `u32` representation; `as i32` keeps the bits.
#[verifier::external_body]
fn host_api_buffer_too_small() -> (r: i32)
    ensures
        r == spec_host_api_buffer_too_small(),
{
    coreclr_hosting_shared::StatusCode::HostApiBufferTooSmall as i32
}

/// What to do after a call that fills a caller-provided buffer, such as
/// `hostfxr_get_native_search_directories`.
#[derive(Clone, Copy, Debug, PartialEq, Eq, Structural)]
pub enum BufferStep {
    /// The buffer holds the result.
    Done,
    /// The buffer was too small and left unchanged: call again with a buffer
    /// of this many characters.
    Grow(usize),
    /// The call failed with this status.
    Failed(i32),
}

/// The step after a buffer-filling call that returned `status` and reported
/// `required` characters (terminator included) for a buffer of `capacity`
/// characters.
///
/// A too-small report is only believed where it asks for more than the buffer
/// had; otherwise it is passed on as a failure, so that a caller that follows
/// the steps never calls twice with the same size.
pub fn buffer_step(status: i32, required: i32, capacity: usize) -> (r: BufferStep)
    ensures
        status == spec_success() ==> r == BufferStep::Done,
        status == spec_host_api_buffer_too_small() && required > capacity ==> r == BufferStep::Grow(
            required as usize,
        ),
        status == spec_host_api_buffer_too_small() && required <= capacity ==> r == BufferStep::Failed(status),
        status != spec_success() && status != spec_host_api_buffer_too_small() ==> r == BufferStep::Failed(status),
        r matches BufferStep::Grow(n) ==> n > capacity,
{
    if status == success() {
        BufferStep::Done
    } else if status == host_api_buffer_too_small() {
        if required > 0 && required as usize > capacity {
            BufferStep::Grow(required as usize)
        } else {
            BufferStep::Failed(status)
        }
    } else {
        BufferStep::Failed(status)
    }
}

} // verus!
