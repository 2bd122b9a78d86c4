use hostfxr_sys::context::{delegate_from_result, delegate_supported, ContextError, HostContext, InitKind};
use hostfxr_sys::hostfxr_delegate_type;
use hostfxr_sys::status::{init_outcome, InitOutcome};

const HOST_INVALID_STATE: i32 = 0x800080a3u32 as i32;
const HOST_API_UNSUPPORTED_SCENARIO: i32 = 0x800080a6u32 as i32;
const CORE_HOST_INCOMPATIBLE_CONFIG: i32 = 0x800080a5u32 as i32;

#[test]
fn runtime_config_end_to_end() {
    let mut ctx = HostContext::from_initialization(InitKind::RuntimeConfig, 0, 0x5000).unwrap();
    assert!(ctx.is_open());
    let (handle, kind) = ctx
        .delegate_request(hostfxr_delegate_type::hdt_load_assembly_and_get_function_pointer)
        .unwrap();
    assert_eq!(handle, 0x5000);
    assert_eq!(kind, 5);
    assert_eq!(delegate_from_result(0, 0x7000), Ok(0x7000));
    assert_eq!(ctx.close(), Ok(0x5000));
    assert!(!ctx.is_open());
    let err = ctx
        .delegate_request(hostfxr_delegate_type::hdt_load_assembly_and_get_function_pointer)
        .unwrap_err();
    assert_eq!(err, ContextError::Closed);
    assert_eq!(err.status(), HOST_INVALID_STATE);
    assert_eq!(ctx.handle(), Err(ContextError::Closed));
    assert_eq!(ctx.run_request(), Err(ContextError::Closed));
    assert_eq!(ctx.close(), Err(ContextError::Closed));
}

#[test]
fn runtime_config_success_variants() {
    for status in [0, 1, 2] {
        assert!(HostContext::from_initialization(InitKind::RuntimeConfig, status, 1).is_ok());
    }
    assert_eq!(init_outcome(0), InitOutcome::Initialized);
    assert_eq!(init_outcome(1), InitOutcome::AlreadyInitialized);
    assert_eq!(init_outcome(2), InitOutcome::DifferentRuntimeProperties);
    assert_eq!(init_outcome(CORE_HOST_INCOMPATIBLE_CONFIG), InitOutcome::Failed);
    assert_eq!(
        HostContext::from_initialization(InitKind::RuntimeConfig, CORE_HOST_INCOMPATIBLE_CONFIG, 1).unwrap_err(),
        ContextError::InitializationFailed(CORE_HOST_INCOMPATIBLE_CONFIG)
    );
}

#[test]
fn command_line_initialization() {
    let ctx = HostContext::from_initialization(InitKind::CommandLine, 0, 0x10).unwrap();
    assert_eq!(ctx.kind(), InitKind::CommandLine);
    assert_eq!(ctx.run_request(), Ok(0x10));
    assert_eq!(
        HostContext::from_initialization(InitKind::CommandLine, 1, 0x10).unwrap_err(),
        ContextError::InitializationFailed(1)
    );
    assert_eq!(
        HostContext::from_initialization(InitKind::CommandLine, HOST_INVALID_STATE, 0x10).unwrap_err(),
        ContextError::InitializationFailed(HOST_INVALID_STATE)
    );
}

#[test]
fn null_handle_is_refused() {
    let err = HostContext::from_initialization(InitKind::RuntimeConfig, 0, 0).unwrap_err();
    assert_eq!(err, ContextError::NullHandle);
    assert_eq!(err.status(), HOST_INVALID_STATE);
}

#[test]
fn command_line_context_limits_delegates() {
    let ctx = HostContext::from_initialization(InitKind::CommandLine, 0, 0x10).unwrap();
    assert_eq!(ctx.delegate_request(hostfxr_delegate_type::hdt_get_function_pointer), Ok((0x10, 6)));
    let err = ctx.delegate_request(hostfxr_delegate_type::hdt_com_activation).unwrap_err();
    assert_eq!(err, ContextError::UnsupportedDelegate(hostfxr_delegate_type::hdt_com_activation));
    assert_eq!(err.status(), HOST_API_UNSUPPORTED_SCENARIO);
    assert!(!delegate_supported(InitKind::CommandLine, hostfxr_delegate_type::hdt_load_assembly));
    assert!(delegate_supported(InitKind::RuntimeConfig, hostfxr_delegate_type::hdt_load_assembly));
}

#[test]
fn runtime_config_context_cannot_run() {
    let ctx = HostContext::from_initialization(InitKind::RuntimeConfig, 0, 0x10).unwrap();
    assert_eq!(ctx.run_request(), Err(ContextError::NotCommandLine));
    assert_eq!(ContextError::NotCommandLine.status(), HOST_API_UNSUPPORTED_SCENARIO);
    assert_eq!(ctx.handle(), Ok(0x10));
}

#[test]
fn delegate_results() {
    assert_eq!(delegate_from_result(0, 0), Err(ContextError::NullDelegate));
    assert_eq!(delegate_from_result(HOST_INVALID_STATE, 0x10), Err(ContextError::DelegateFailed(HOST_INVALID_STATE)));
    assert_eq!(ContextError::DelegateFailed(-7).status(), -7);
}
