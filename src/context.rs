use vstd::prelude::*;

use crate::delegate::hostfxr_delegate_type;
use crate::status::{
    host_api_unsupported_scenario, host_invalid_state, init_outcome, spec_host_api_unsupported_scenario,
    spec_host_invalid_state, spec_init_outcome, spec_success, success, InitOutcome,
};

verus! {

/// How a host context was initialized.
#[derive(Clone, Copy, Debug, PartialEq, Eq, Structural)]
pub enum InitKind {
    /// By `hostfxr_initialize_for_dotnet_command_line`.
    CommandLine,
    /// By `hostfxr_initialize_for_runtime_config`.
    RuntimeConfig,
}

/// Why a call on a host context was refused before it reached the native
/// library, or why an initialization gave no context.
#[derive(Clone, Copy, Debug, PartialEq, Eq, Structural)]
pub enum ContextError {
    /// The context was closed.
    Closed,
    /// A context of this kind cannot hand out delegates of the kind asked for.
    UnsupportedDelegate(hostfxr_delegate_type),
    /// Only a context initialized for a command line can run the application.
    NotCommandLine,
    /// The initialization call failed with the given status.
    InitializationFailed(i32),
    /// The initialization call reported success but handed back a null handle.
    NullHandle,
    /// The delegate call failed with the given status.
    DelegateFailed(i32),
    /// The delegate call reported success but handed back a null pointer.
    NullDelegate,
}

impl ContextError {
    pub open spec fn spec_status(self) -> i32 {
        match self {
            ContextError::Closed => spec_host_invalid_state(),
            ContextError::UnsupportedDelegate(_) => spec_host_api_unsupported_scenario(),
            ContextError::NotCommandLine => spec_host_api_unsupported_scenario(),
            ContextError::InitializationFailed(s) => s,
            ContextError::NullHandle => spec_host_invalid_state(),
            ContextError::DelegateFailed(s) => s,
            ContextError::NullDelegate => spec_host_invalid_state(),
        }
    }

    /// The native status code that stands for the error: the native one where
    /// the native library gave it, and otherwise the one it gives for the
    /// same refusal.
    pub fn status(&self) -> (r: i32)
        ensures
            r == self.spec_status(),
    {
        match self {
            ContextError::Closed => host_invalid_state(),
            ContextError::UnsupportedDelegate(_) => host_api_unsupported_scenario(),
            ContextError::NotCommandLine => host_api_unsupported_scenario(),
            ContextError::InitializationFailed(s) => *s,
            ContextError::NullHandle => host_invalid_state(),
            ContextError::DelegateFailed(s) => *s,
            ContextError::NullDelegate => host_invalid_state(),
        }
    }
}

/// Whether a context of kind `kind` can hand out delegates of kind `dt`: one
/// initialized from a runtime configuration hands out every kind; one
/// initialized for a command line only the two function-pointer kinds.
pub open spec fn spec_delegate_supported(kind: InitKind, dt: hostfxr_delegate_type) -> bool {
    ||| kind is RuntimeConfig
    ||| dt is hdt_load_assembly_and_get_function_pointer
    ||| dt is hdt_get_function_pointer
}

#[verifier::when_used_as_spec(spec_delegate_supported)]
pub fn delegate_supported(kind: InitKind, dt: hostfxr_delegate_type) -> (r: bool)
    ensures
        r == spec_delegate_supported(kind, dt),
{
    match kind {
        InitKind::RuntimeConfig => true,
        InitKind::CommandLine => match dt {
            hostfxr_delegate_type::hdt_load_assembly_and_get_function_pointer => true,
            hostfxr_delegate_type::hdt_get_function_pointer => true,
            _ => false,
        },
    }
}

/// Whether an initialization of kind `kind` that returned `status` succeeded.
/// An initialization for a command line succeeds with a plain success only;
/// one from a runtime configuration also when the hosting components were
/// already initialized, compatibly or with different properties.
pub open spec fn spec_initialization_succeeded(kind: InitKind, status: i32) -> bool {
    match kind {
        InitKind::CommandLine => status == spec_success(),
        InitKind::RuntimeConfig => !(spec_init_outcome(status) is Failed),
    }
}

/// A host context handed out by the native library, and whether it is still
/// open. Every call that names the context goes through it, so that a closed
/// context is never named to the native library again.
#[derive(Debug)]
pub struct HostContext {
    handle: usize,
    kind: InitKind,
    open: bool,
}

impl HostContext {
    pub closed spec fn spec_handle(&self) -> usize {
        self.handle
    }

    pub closed spec fn spec_kind(&self) -> InitKind {
        self.kind
    }

    pub closed spec fn spec_is_open(&self) -> bool {
        self.open
    }

    /// What `delegate_request` gives on `self`.
    pub open spec fn spec_delegate_request(&self, dt: hostfxr_delegate_type) -> Result<(usize, i32), ContextError> {
        if !self.spec_is_open() {
            Err(ContextError::Closed)
        } else if !spec_delegate_supported(self.spec_kind(), dt) {
            Err(ContextError::UnsupportedDelegate(dt))
        } else {
            Ok((self.spec_handle(), dt.spec_value()))
        }
    }

    /// What `run_request` gives on `self`.
    pub open spec fn spec_run_request(&self) -> Result<usize, ContextError> {
        if !self.spec_is_open() {
            Err(ContextError::Closed)
        } else if !(self.spec_kind() is CommandLine) {
            Err(ContextError::NotCommandLine)
        } else {
            Ok(self.spec_handle())
        }
    }

    /// What `handle` gives on `self`.
    pub open spec fn spec_handle_request(&self) -> Result<usize, ContextError> {
        if self.spec_is_open() {
            Ok(self.spec_handle())
        } else {
            Err(ContextError::Closed)
        }
    }

    /// The context that an initialization of kind `kind` gave, from the status
    /// it returned and the handle it wrote.
    pub fn from_initialization(kind: InitKind, status: i32, handle: usize) -> (r: Result<HostContext, ContextError>)
        ensures
            !spec_initialization_succeeded(kind, status) ==> r == Err::<HostContext, ContextError>(
                ContextError::InitializationFailed(status),
            ),
            spec_initialization_succeeded(kind, status) && handle == 0 ==> r == Err::<HostContext, ContextError>(
                ContextError::NullHandle,
            ),
            r is Ok <==> spec_initialization_succeeded(kind, status) && handle != 0,
            r matches Ok(c) ==> c.spec_handle() == handle && c.spec_kind() == kind && c.spec_is_open(),
    {
        let succeeded = match kind {
            InitKind::CommandLine => status == success(),
            InitKind::RuntimeConfig => match init_outcome(status) {
                InitOutcome::Failed => false,
                _ => true,
            },
        };
        if !succeeded {
            Err(ContextError::InitializationFailed(status))
        } else if handle == 0 {
            Err(ContextError::NullHandle)
        } else {
            Ok(HostContext { handle, kind, open: true })
        }
    }

    pub fn kind(&self) -> (r: InitKind)
        ensures
            r == self.spec_kind(),
    {
        self.kind
    }

    pub fn is_open(&self) -> (r: bool)
        ensures
            r == self.spec_is_open(),
    {
        self.open
    }

    /// The handle to name to the native library, while the context is open.
    pub fn handle(&self) -> (r: Result<usize, ContextError>)
        ensures
            r == self.spec_handle_request(),
    {
        if self.open {
            Ok(self.handle)
        } else {
            Err(ContextError::Closed)
        }
    }

    /// The handle and the raw delegate kind to hand to
    /// `hostfxr_get_runtime_delegate`, where the call is allowed.
    pub fn delegate_request(&self, dt: hostfxr_delegate_type) -> (r: Result<(usize, i32), ContextError>)
        ensures
            r == self.spec_delegate_request(dt),
    {
        if !self.open {
            Err(ContextError::Closed)
        } else if !delegate_supported(self.kind, dt) {
            Err(ContextError::UnsupportedDelegate(dt))
        } else {
            Ok((self.handle, dt.value()))
        }
    }

    /// The handle to hand to `hostfxr_run_app`, where the call is allowed.
    pub fn run_request(&self) -> (r: Result<usize, ContextError>)
        ensures
            r == self.spec_run_request(),
    {
        if !self.open {
            Err(ContextError::Closed)
        } else {
            match self.kind {
                InitKind::CommandLine => Ok(self.handle),
                InitKind::RuntimeConfig => Err(ContextError::NotCommandLine),
            }
        }
    }

    /// Marks the context closed and gives the handle to hand to
    /// `hostfxr_close`; a context already closed is refused and left as it is.
    pub fn close(&mut self) -> (r: Result<usize, ContextError>)
        ensures
            r == old(self).spec_handle_request(),
            final(self).spec_handle() == old(self).spec_handle(),
            final(self).spec_kind() == old(self).spec_kind(),
            !final(self).spec_is_open(),
    {
        if self.open {
            self.open = false;
            Ok(self.handle)
        } else {
            Err(ContextError::Closed)
        }
    }
}

/// The delegate that `hostfxr_get_runtime_delegate` gave, from the status it
/// returned and the pointer it wrote.
pub fn delegate_from_result(status: i32, address: usize) -> (r: Result<usize, ContextError>)
    ensures
        status != spec_success() ==> r == Err::<usize, ContextError>(ContextError::DelegateFailed(status)),
        status == spec_success() && address == 0 ==> r == Err::<usize, ContextError>(ContextError::NullDelegate),
        status == spec_success() && address != 0 ==> r == Ok::<usize, ContextError>(address),
{
    if status != success() {
        Err(ContextError::DelegateFailed(status))
    } else if address == 0 {
        Err(ContextError::NullDelegate)
    } else {
        Ok(address)
    }
}

/// Once closed, a context names its handle to no further call: every request
/// on it is refused with the invalid-state status.
pub proof fn lemma_closed_context_rejects(c: HostContext, dt: hostfxr_delegate_type)
    requires
        !c.spec_is_open(),
    ensures
        c.spec_delegate_request(dt) == Err::<(usize, i32), ContextError>(ContextError::Closed),
        c.spec_run_request() == Err::<usize, ContextError>(ContextError::Closed),
        c.spec_handle_request() == Err::<usize, ContextError>(ContextError::Closed),
        ContextError::Closed.spec_status() == spec_host_invalid_state(),
{
}

} // verus!
