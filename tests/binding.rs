use hostfxr_sys::binding::{BindError, Hostfxr};
use hostfxr_sys::entry::{all_entry_points_vec, entry_points, symbol_names, EntryPoint, Target};
use hostfxr_sys::Tier;

fn target(tier: Tier) -> Target {
    Target { tier, undocumented: false }
}

fn bind_all(t: Target) -> Hostfxr {
    let n = symbol_names(t).len();
    let found: Vec<Option<usize>> = (0..n).map(|i| Some(0x1000 + 16 * i)).collect();
    Hostfxr::bind(t, &found).expect("every symbol was found")
}

const LIFECYCLE: [EntryPoint; 9] = [
    EntryPoint::hostfxr_set_error_writer,
    EntryPoint::hostfxr_initialize_for_dotnet_command_line,
    EntryPoint::hostfxr_initialize_for_runtime_config,
    EntryPoint::hostfxr_get_runtime_property_value,
    EntryPoint::hostfxr_set_runtime_property_value,
    EntryPoint::hostfxr_get_runtime_properties,
    EntryPoint::hostfxr_run_app,
    EntryPoint::hostfxr_get_runtime_delegate,
    EntryPoint::hostfxr_close,
];

#[test]
fn symbol_names_match_exports() {
    assert_eq!(EntryPoint::hostfxr_main.symbol_name(), "hostfxr_main");
    assert_eq!(
        EntryPoint::hostfxr_initialize_for_runtime_config.symbol_name(),
        "hostfxr_initialize_for_runtime_config"
    );
    assert_eq!(EntryPoint::hostfxr_close.symbol_name(), "hostfxr_close");
    let all = all_entry_points_vec();
    assert_eq!(all.len(), 16);
    for e in &all {
        assert_eq!(format!("{:?}", e), e.symbol_name());
    }
}

#[test]
fn tier_1_0_exposes_only_main() {
    let t = target(Tier::NetCore1_0);
    assert_eq!(entry_points(t), vec![EntryPoint::hostfxr_main]);
    assert_eq!(symbol_names(t), vec!["hostfxr_main"]);
    let table = bind_all(t);
    assert_eq!(table.len(), 1);
    assert_eq!(table.get(EntryPoint::hostfxr_main), Some(0x1000));
    for e in all_entry_points_vec() {
        if e != EntryPoint::hostfxr_main {
            assert_eq!(table.get(e), None);
        }
    }
}

#[test]
fn tier_3_0_exposes_host_context_life_cycle() {
    let t = target(Tier::NetCore3_0);
    let table = bind_all(t);
    assert_eq!(table.len(), 15);
    for e in LIFECYCLE {
        assert!(table.get(e).is_some(), "{:?}", e);
    }
    assert!(table.get(EntryPoint::hostfxr_main).is_some());
    assert!(table.get(EntryPoint::hostfxr_resolve_sdk2).is_some());
    assert_eq!(table.get(EntryPoint::hostfxr_main_bundle_startupinfo), None);
    assert!(!hostfxr_sys::hostfxr_delegate_type::hdt_load_assembly.is_available(t.tier));
    assert!(!hostfxr_sys::hostfxr_delegate_type::hdt_load_assembly_bytes.is_available(t.tier));
}

#[test]
fn tier_2_1_lacks_host_context_life_cycle() {
    let table = bind_all(target(Tier::NetCore2_1));
    assert_eq!(table.len(), 6);
    for e in LIFECYCLE {
        assert_eq!(table.get(e), None);
    }
    assert!(table.get(EntryPoint::hostfxr_get_native_search_directories).is_some());
}

#[test]
fn undocumented_entry_point_needs_opt_in() {
    let t = Target { tier: Tier::NetCore2_1, undocumented: true };
    assert_eq!(symbol_names(t).len(), 7);
    assert!(symbol_names(t).contains(&"hostfxr_main_bundle_startupinfo"));
    let table = bind_all(t);
    assert!(table.get(EntryPoint::hostfxr_main_bundle_startupinfo).is_some());
    assert!(!symbol_names(target(Tier::Net8_0)).contains(&"hostfxr_main_bundle_startupinfo"));
}

#[test]
fn table_keeps_addresses_in_order() {
    let t = target(Tier::Net8_0);
    let names = symbol_names(t);
    let found: Vec<Option<usize>> = (0..names.len()).map(|i| Some(100 + i)).collect();
    let table = Hostfxr::bind(t, &found).unwrap();
    assert_eq!(table.target(), t);
    for (i, e) in entry_points(t).into_iter().enumerate() {
        assert_eq!(table.get(e), Some(100 + i));
        assert_eq!(e.symbol_name(), names[i]);
    }
}

#[test]
fn one_missing_symbol_fails_the_whole_table() {
    let t = target(Tier::NetCore3_0);
    let names = symbol_names(t);
    for missing in 0..names.len() {
        let found: Vec<Option<usize>> =
            (0..names.len()).map(|i| if i == missing { None } else { Some(0x4000 + i) }).collect();
        let r = Hostfxr::bind(t, &found);
        assert_eq!(r.err(), Some(BindError::MissingSymbol(entry_points(t)[missing])));
    }
}

#[test]
fn first_unbound_symbol_is_reported() {
    let t = target(Tier::NetCore3_0);
    let n = symbol_names(t).len();
    let mut found: Vec<Option<usize>> = (0..n).map(|i| Some(0x4000 + i)).collect();
    found[3] = Some(0);
    found[7] = None;
    assert_eq!(
        Hostfxr::bind(t, &found).err(),
        Some(BindError::NullSymbol(EntryPoint::hostfxr_resolve_sdk2))
    );
    found[3] = Some(1);
    assert_eq!(
        Hostfxr::bind(t, &found).err(),
        Some(BindError::MissingSymbol(EntryPoint::hostfxr_initialize_for_dotnet_command_line))
    );
}

#[test]
fn lookup_count_must_match() {
    let t = target(Tier::NetCore2_0);
    assert_eq!(
        Hostfxr::bind(t, &vec![Some(1)]).err(),
        Some(BindError::LookupCountMismatch { expected: 2, given: 1 })
    );
    assert_eq!(
        Hostfxr::bind(t, &vec![]).err(),
        Some(BindError::LookupCountMismatch { expected: 2, given: 0 })
    );
}
