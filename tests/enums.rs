use hostfxr_sys::hostfxr_delegate_type;
use hostfxr_sys::hostfxr_resolve_sdk2_flags_t;
use hostfxr_sys::hostfxr_resolve_sdk2_result_key_t;
use hostfxr_sys::Tier;

const ALL_KINDS: [hostfxr_delegate_type; 9] = [
    hostfxr_delegate_type::hdt_com_activation,
    hostfxr_delegate_type::hdt_load_in_memory_assembly,
    hostfxr_delegate_type::hdt_winrt_activation,
    hostfxr_delegate_type::hdt_com_register,
    hostfxr_delegate_type::hdt_com_unregister,
    hostfxr_delegate_type::hdt_load_assembly_and_get_function_pointer,
    hostfxr_delegate_type::hdt_get_function_pointer,
    hostfxr_delegate_type::hdt_load_assembly,
    hostfxr_delegate_type::hdt_load_assembly_bytes,
];

#[test]
fn delegate_kinds_have_fixed_values() {
    let values: Vec<i32> = ALL_KINDS.iter().map(|k| k.value()).collect();
    assert_eq!(values, vec![0, 1, 2, 3, 4, 5, 6, 7, 8]);
    assert_eq!(hostfxr_delegate_type::hdt_load_assembly_and_get_function_pointer.value(), 5);
    assert_eq!(hostfxr_delegate_type::hdt_load_assembly_bytes.value(), 8);
}

#[test]
fn delegate_kind_round_trips() {
    for k in ALL_KINDS {
        assert_eq!(hostfxr_delegate_type::from_value(k.value()), Some(k));
    }
    for v in 0..=8 {
        assert_eq!(hostfxr_delegate_type::from_value(v).map(|k| k.value()), Some(v));
    }
}

#[test]
fn delegate_kind_rejects_unknown_values() {
    assert_eq!(hostfxr_delegate_type::from_value(-1), None);
    assert_eq!(hostfxr_delegate_type::from_value(9), None);
    assert_eq!(hostfxr_delegate_type::from_value(i32::MAX), None);
    assert_eq!(hostfxr_delegate_type::from_value(i32::MIN), None);
}

#[test]
fn delegate_kinds_by_tier() {
    assert!(!hostfxr_delegate_type::hdt_com_activation.is_available(Tier::NetCore2_1));
    assert!(hostfxr_delegate_type::hdt_com_activation.is_available(Tier::NetCore3_0));
    assert!(hostfxr_delegate_type::hdt_load_assembly_and_get_function_pointer.is_available(Tier::NetCore3_0));
    assert!(!hostfxr_delegate_type::hdt_get_function_pointer.is_available(Tier::NetCore3_0));
    assert!(hostfxr_delegate_type::hdt_get_function_pointer.is_available(Tier::Net5_0));
    assert!(!hostfxr_delegate_type::hdt_load_assembly.is_available(Tier::NetCore3_0));
    assert!(!hostfxr_delegate_type::hdt_load_assembly_bytes.is_available(Tier::NetCore3_0));
    assert!(!hostfxr_delegate_type::hdt_load_assembly.is_available(Tier::Net5_0));
    assert!(hostfxr_delegate_type::hdt_load_assembly.is_available(Tier::Net8_0));
    assert!(hostfxr_delegate_type::hdt_load_assembly_bytes.is_available(Tier::Net8_0));
    assert!(hostfxr_delegate_type::hdt_winrt_activation.is_available(Tier::NetCore3_0));
    assert!(!hostfxr_delegate_type::hdt_winrt_activation.is_available(Tier::Net5_0));
    assert!(!hostfxr_delegate_type::hdt_winrt_activation.is_available(Tier::Net8_0));
}

#[test]
fn result_keys_have_fixed_values() {
    assert_eq!(hostfxr_resolve_sdk2_result_key_t::resolved_sdk_dir.value(), 0);
    assert_eq!(hostfxr_resolve_sdk2_result_key_t::global_json_path.value(), 1);
    for k in [
        hostfxr_resolve_sdk2_result_key_t::resolved_sdk_dir,
        hostfxr_resolve_sdk2_result_key_t::global_json_path,
    ] {
        assert_eq!(hostfxr_resolve_sdk2_result_key_t::from_value(k.value()), Some(k));
    }
    assert_eq!(hostfxr_resolve_sdk2_result_key_t::from_value(2), None);
    assert_eq!(hostfxr_resolve_sdk2_result_key_t::from_value(-1), None);
}

#[test]
fn resolve_flags_values() {
    assert_eq!(hostfxr_resolve_sdk2_flags_t::none, 0);
    assert_eq!(hostfxr_resolve_sdk2_flags_t::disallow_prerelease, 1);
}

#[test]
fn tier_ladder_is_ordered() {
    let ladder = [Tier::NetCore1_0, Tier::NetCore2_0, Tier::NetCore2_1, Tier::NetCore3_0, Tier::Net5_0, Tier::Net8_0];
    for (i, a) in ladder.iter().enumerate() {
        assert_eq!(a.rank() as usize, i);
        for (j, b) in ladder.iter().enumerate() {
            assert_eq!(a.includes(*b), i >= j);
        }
    }
}
