use vstd::prelude::*;

use crate::tier::Tier;

verus! {

/// An entry point exported by the native hosting library. Each variant is
/// named exactly as the exported symbol.
#[allow(non_camel_case_types)]
#[derive(Clone, Copy, Debug, PartialEq, Eq, Structural, Hash)]
pub enum EntryPoint {
    hostfxr_main,
    hostfxr_resolve_sdk,
    hostfxr_main_startupinfo,
    hostfxr_main_bundle_startupinfo,
    hostfxr_resolve_sdk2,
    hostfxr_get_available_sdks,
    hostfxr_get_native_search_directories,
    hostfxr_set_error_writer,
    hostfxr_initialize_for_dotnet_command_line,
    hostfxr_initialize_for_runtime_config,
    hostfxr_get_runtime_property_value,
    hostfxr_set_runtime_property_value,
    hostfxr_get_runtime_properties,
    hostfxr_run_app,
    hostfxr_get_runtime_delegate,
    hostfxr_close,
}

/// The versions and options under which a binding table is built: a library
/// version, and whether entry points that the native library exports without
/// documenting them are wanted as well.
#[derive(Clone, Copy, Debug, PartialEq, Eq, Structural, Hash)]
pub struct Target {
    pub tier: Tier,
    pub undocumented: bool,
}

/// Every entry point, in the order in which a binding table holds them.
pub open spec fn all_entry_points() -> Seq<EntryPoint> {
    seq![
        EntryPoint::hostfxr_main,
        EntryPoint::hostfxr_resolve_sdk,
        EntryPoint::hostfxr_main_startupinfo,
        EntryPoint::hostfxr_main_bundle_startupinfo,
        EntryPoint::hostfxr_resolve_sdk2,
        EntryPoint::hostfxr_get_available_sdks,
        EntryPoint::hostfxr_get_native_search_directories,
        EntryPoint::hostfxr_set_error_writer,
        EntryPoint::hostfxr_initialize_for_dotnet_command_line,
        EntryPoint::hostfxr_initialize_for_runtime_config,
        EntryPoint::hostfxr_get_runtime_property_value,
        EntryPoint::hostfxr_set_runtime_property_value,
        EntryPoint::hostfxr_get_runtime_properties,
        EntryPoint::hostfxr_run_app,
        EntryPoint::hostfxr_get_runtime_delegate,
        EntryPoint::hostfxr_close,
    ]
}

/// The entry points that a library built for `target` exports, in table order.
pub open spec fn target_entry_points(target: Target) -> Seq<EntryPoint> {
    all_entry_points().filter(|e: EntryPoint| e.spec_is_exposed(target))
}

impl EntryPoint {
    /// The exported symbol name, character for character.
    pub open spec fn spec_symbol_name(self) -> Seq<char> {
        match self {
            EntryPoint::hostfxr_main => "hostfxr_main"@,
            EntryPoint::hostfxr_resolve_sdk => "hostfxr_resolve_sdk"@,
            EntryPoint::hostfxr_main_startupinfo => "hostfxr_main_startupinfo"@,
            EntryPoint::hostfxr_main_bundle_startupinfo => "hostfxr_main_bundle_startupinfo"@,
            EntryPoint::hostfxr_resolve_sdk2 => "hostfxr_resolve_sdk2"@,
            EntryPoint::hostfxr_get_available_sdks => "hostfxr_get_available_sdks"@,
            EntryPoint::hostfxr_get_native_search_directories => "hostfxr_get_native_search_directories"@,
            EntryPoint::hostfxr_set_error_writer => "hostfxr_set_error_writer"@,
            EntryPoint::hostfxr_initialize_for_dotnet_command_line => "hostfxr_initialize_for_dotnet_command_line"@,
            EntryPoint::hostfxr_initialize_for_runtime_config => "hostfxr_initialize_for_runtime_config"@,
            EntryPoint::hostfxr_get_runtime_property_value => "hostfxr_get_runtime_property_value"@,
            EntryPoint::hostfxr_set_runtime_property_value => "hostfxr_set_runtime_property_value"@,
            EntryPoint::hostfxr_get_runtime_properties => "hostfxr_get_runtime_properties"@,
            EntryPoint::hostfxr_run_app => "hostfxr_run_app"@,
            EntryPoint::hostfxr_get_runtime_delegate => "hostfxr_get_runtime_delegate"@,
            EntryPoint::hostfxr_close => "hostfxr_close"@,
        }
    }

    /// The first library version that exports the entry point.
    pub open spec fn spec_introduced_in(self) -> Tier {
        match self {
            EntryPoint::hostfxr_main => Tier::NetCore1_0,
            EntryPoint::hostfxr_resolve_sdk => Tier::NetCore2_0,
            EntryPoint::hostfxr_main_startupinfo => Tier::NetCore2_1,
            EntryPoint::hostfxr_main_bundle_startupinfo => Tier::NetCore2_1,
            EntryPoint::hostfxr_resolve_sdk2 => Tier::NetCore2_1,
            EntryPoint::hostfxr_get_available_sdks => Tier::NetCore2_1,
            EntryPoint::hostfxr_get_native_search_directories => Tier::NetCore2_1,
            _ => Tier::NetCore3_0,
        }
    }

    /// Whether the native library exports the entry point without documenting it.
    pub open spec fn spec_is_undocumented(self) -> bool {
        self is hostfxr_main_bundle_startupinfo
    }

    /// Whether a binding table built for `target` holds the entry point.
    pub open spec fn spec_is_exposed(self, target: Target) -> bool {
        &&& target.tier.spec_includes(self.spec_introduced_in())
        &&& (self.spec_is_undocumented() ==> target.undocumented)
    }

    pub fn symbol_name(self) -> (r: &'static str)
        ensures
            r@ == self.spec_symbol_name(),
    {
        match self {
            EntryPoint::hostfxr_main => "hostfxr_main",
            EntryPoint::hostfxr_resolve_sdk => "hostfxr_resolve_sdk",
            EntryPoint::hostfxr_main_startupinfo => "hostfxr_main_startupinfo",
            EntryPoint::hostfxr_main_bundle_startupinfo => "hostfxr_main_bundle_startupinfo",
            EntryPoint::hostfxr_resolve_sdk2 => "hostfxr_resolve_sdk2",
            EntryPoint::hostfxr_get_available_sdks => "hostfxr_get_available_sdks",
            EntryPoint::hostfxr_get_native_search_directories => "hostfxr_get_native_search_directories",
            EntryPoint::hostfxr_set_error_writer => "hostfxr_set_error_writer",
            EntryPoint::hostfxr_initialize_for_dotnet_command_line => "hostfxr_initialize_for_dotnet_command_line",
            EntryPoint::hostfxr_initialize_for_runtime_config => "hostfxr_initialize_for_runtime_config",
            EntryPoint::hostfxr_get_runtime_property_value => "hostfxr_get_runtime_property_value",
            EntryPoint::hostfxr_set_runtime_property_value => "hostfxr_set_runtime_property_value",
            EntryPoint::hostfxr_get_runtime_properties => "hostfxr_get_runtime_properties",
            EntryPoint::hostfxr_run_app => "hostfxr_run_app",
            EntryPoint::hostfxr_get_runtime_delegate => "hostfxr_get_runtime_delegate",
            EntryPoint::hostfxr_close => "hostfxr_close",
        }
    }

    #[verifier::when_used_as_spec(spec_introduced_in)]
    pub fn introduced_in(self) -> (r: Tier)
        ensures
            r == self.spec_introduced_in(),
    {
        match self {
            EntryPoint::hostfxr_main => Tier::NetCore1_0,
            EntryPoint::hostfxr_resolve_sdk => Tier::NetCore2_0,
            EntryPoint::hostfxr_main_startupinfo => Tier::NetCore2_1,
            EntryPoint::hostfxr_main_bundle_startupinfo => Tier::NetCore2_1,
            EntryPoint::hostfxr_resolve_sdk2 => Tier::NetCore2_1,
            EntryPoint::hostfxr_get_available_sdks => Tier::NetCore2_1,
            EntryPoint::hostfxr_get_native_search_directories => Tier::NetCore2_1,
            _ => Tier::NetCore3_0,
        }
    }

    #[verifier::when_used_as_spec(spec_is_exposed)]
    pub fn is_exposed(self, target: Target) -> (r: bool)
        ensures
            r == self.spec_is_exposed(target),
    {
        let undocumented = match self {
            EntryPoint::hostfxr_main_bundle_startupinfo => true,
            _ => false,
        };
        target.tier.includes(self.introduced_in()) && (!undocumented || target.undocumented)
    }
}

/// Every entry point, in table order.
pub fn all_entry_points_vec() -> (r: Vec<EntryPoint>)
    ensures
        r@ == all_entry_points(),
{
    let r = vec![
        EntryPoint::hostfxr_main,
        EntryPoint::hostfxr_resolve_sdk,
        EntryPoint::hostfxr_main_startupinfo,
        EntryPoint::hostfxr_main_bundle_startupinfo,
        EntryPoint::hostfxr_resolve_sdk2,
        EntryPoint::hostfxr_get_available_sdks,
        EntryPoint::hostfxr_get_native_search_directories,
        EntryPoint::hostfxr_set_error_writer,
        EntryPoint::hostfxr_initialize_for_dotnet_command_line,
        EntryPoint::hostfxr_initialize_for_runtime_config,
        EntryPoint::hostfxr_get_runtime_property_value,
        EntryPoint::hostfxr_set_runtime_property_value,
        EntryPoint::hostfxr_get_runtime_properties,
        EntryPoint::hostfxr_run_app,
        EntryPoint::hostfxr_get_runtime_delegate,
        EntryPoint::hostfxr_close,
    ];
    assert(r@ =~= all_entry_points());
    r
}

/// The entry points that a binding table built for `target` holds, in table order.
pub fn entry_points(target: Target) -> (r: Vec<EntryPoint>)
    ensures
        r@ == target_entry_points(target),
{
    let all = all_entry_points_vec();
    let mut r: Vec<EntryPoint> = Vec::new();
    let mut i: usize = 0;
    while i < all.len()
        invariant
            all@ == all_entry_points(),
            0 <= i <= all.len(),
            r@ == all@.take(i as int).filter(|e: EntryPoint| e.spec_is_exposed(target)),
        decreases all.len() - i,
    {
        let e = all[i];
        proof {
            assert(all@.take(i as int + 1).drop_last() =~= all@.take(i as int));
            reveal(Seq::filter);
        }
        if e.is_exposed(target) {
            r.push(e);
        }
        i += 1;
    }
    assert(all@.take(all.len() as int) =~= all@);
    r
}

/// The symbol names to look up for a binding table built for `target`, in
/// table order.
pub fn symbol_names(target: Target) -> (r: Vec<&'static str>)
    ensures
        r@.len() == target_entry_points(target).len(),
        forall|i: int|
            0 <= i < r@.len() ==> r@[i]@ == (#[trigger] target_entry_points(target)[i]).spec_symbol_name(),
{
    let entries = entry_points(target);
    let mut r: Vec<&'static str> = Vec::new();
    let mut i: usize = 0;
    while i < entries.len()
        invariant
            entries@ == target_entry_points(target),
            0 <= i <= entries.len(),
            r@.len() == i,
            forall|j: int| 0 <= j < i ==> r@[j]@ == (#[trigger] entries@[j]).spec_symbol_name(),
        decreases entries.len() - i,
    {
        r.push(entries[i].symbol_name());
        i += 1;
    }
    r
}

/// Position of `e` in `all_entry_points()`.
pub open spec fn ordinal(e: EntryPoint) -> int {
    match e {
        EntryPoint::hostfxr_main => 0,
        EntryPoint::hostfxr_resolve_sdk => 1,
        EntryPoint::hostfxr_main_startupinfo => 2,
        EntryPoint::hostfxr_main_bundle_startupinfo => 3,
        EntryPoint::hostfxr_resolve_sdk2 => 4,
        EntryPoint::hostfxr_get_available_sdks => 5,
        EntryPoint::hostfxr_get_native_search_directories => 6,
        EntryPoint::hostfxr_set_error_writer => 7,
        EntryPoint::hostfxr_initialize_for_dotnet_command_line => 8,
        EntryPoint::hostfxr_initialize_for_runtime_config => 9,
        EntryPoint::hostfxr_get_runtime_property_value => 10,
        EntryPoint::hostfxr_set_runtime_property_value => 11,
        EntryPoint::hostfxr_get_runtime_properties => 12,
        EntryPoint::hostfxr_run_app => 13,
        EntryPoint::hostfxr_get_runtime_delegate => 14,
        EntryPoint::hostfxr_close => 15,
    }
}

proof fn lemma_ordinal_at(i: int)
    requires
        0 <= i < 16,
    ensures
        ordinal(all_entry_points()[i]) == i,
{
    let s = all_entry_points();
    if i == 0 { assert(s[0] == EntryPoint::hostfxr_main); }
    else if i == 1 { assert(s[1] == EntryPoint::hostfxr_resolve_sdk); }
    else if i == 2 { assert(s[2] == EntryPoint::hostfxr_main_startupinfo); }
    else if i == 3 { assert(s[3] == EntryPoint::hostfxr_main_bundle_startupinfo); }
    else if i == 4 { assert(s[4] == EntryPoint::hostfxr_resolve_sdk2); }
    else if i == 5 { assert(s[5] == EntryPoint::hostfxr_get_available_sdks); }
    else if i == 6 { assert(s[6] == EntryPoint::hostfxr_get_native_search_directories); }
    else if i == 7 { assert(s[7] == EntryPoint::hostfxr_set_error_writer); }
    else if i == 8 { assert(s[8] == EntryPoint::hostfxr_initialize_for_dotnet_command_line); }
    else if i == 9 { assert(s[9] == EntryPoint::hostfxr_initialize_for_runtime_config); }
    else if i == 10 { assert(s[10] == EntryPoint::hostfxr_get_runtime_property_value); }
    else if i == 11 { assert(s[11] == EntryPoint::hostfxr_set_runtime_property_value); }
    else if i == 12 { assert(s[12] == EntryPoint::hostfxr_get_runtime_properties); }
    else if i == 13 { assert(s[13] == EntryPoint::hostfxr_run_app); }
    else if i == 14 { assert(s[14] == EntryPoint::hostfxr_get_runtime_delegate); }
    else { assert(s[15] == EntryPoint::hostfxr_close); }
}

/// Every entry point stands in `all_entry_points()`, at its ordinal, once.
pub proof fn lemma_all_entry_points_distinct(e: EntryPoint)
    ensures
        all_entry_points().no_duplicates(),
        all_entry_points()[ordinal(e)] == e,
        all_entry_points().contains(e),
{
    let s = all_entry_points();
    assert forall|i: int, j: int| 0 <= i < s.len() && 0 <= j < s.len() && i != j implies s[i] != s[j] by {
        lemma_ordinal_at(i);
        lemma_ordinal_at(j);
    }
    let k = ordinal(e);
    lemma_ordinal_at(k);
    assert(s[k] == e) by {
        match e {
            _ => {},
        }
    }
}

/// Keeping some elements of a sequence without duplicates gives a sequence
/// without duplicates, of elements of the first.
pub proof fn lemma_filter_no_duplicates(s: Seq<EntryPoint>, p: spec_fn(EntryPoint) -> bool)
    requires
        s.no_duplicates(),
    ensures
        s.filter(p).no_duplicates(),
        forall|x: EntryPoint| #[trigger] s.filter(p).contains(x) ==> s.contains(x),
    decreases s.len(),
{
    reveal(Seq::filter);
    if s.len() > 0 {
        let d = s.drop_last();
        assert(d.no_duplicates());
        lemma_filter_no_duplicates(d, p);
        let last = s.last();
        let f = d.filter(p);
        assert forall|x: EntryPoint| d.contains(x) implies s.contains(x) by {
            let k = choose|k: int| 0 <= k < d.len() && d[k] == x;
            assert(s[k] == x);
        }
        assert(!d.contains(last)) by {
            if d.contains(last) {
                let k = choose|k: int| 0 <= k < d.len() && d[k] == last;
                assert(s[k] == s[s.len() - 1]);
            }
        }
        if p(last) {
            let g = f.push(last);
            assert(!f.contains(last));
            assert forall|i: int, j: int| 0 <= i < g.len() && 0 <= j < g.len() && i != j implies g[i] != g[j] by {
                if i == f.len() {
                    assert(g[j] == f[j]);
                    assert(f.contains(f[j]));
                } else if j == f.len() {
                    assert(g[i] == f[i]);
                    assert(f.contains(f[i]));
                }
            }
            assert forall|x: EntryPoint| g.contains(x) implies s.contains(x) by {
                let k = choose|k: int| 0 <= k < g.len() && g[k] == x;
                if k < f.len() {
                    assert(f[k] == x);
                    assert(f.contains(x));
                } else {
                    assert(s[s.len() - 1] == x);
                }
            }
        }
    }
}

/// A target's list of entry points holds no entry point twice.
pub proof fn lemma_target_entry_points_distinct(target: Target)
    ensures
        target_entry_points(target).no_duplicates(),
{
    lemma_all_entry_points_distinct(EntryPoint::hostfxr_main);
    lemma_filter_no_duplicates(all_entry_points(), |e: EntryPoint| e.spec_is_exposed(target));
}

/// A library of a later version exports every entry point of an earlier one.
pub proof fn lemma_tiers_cumulative(a: Target, b: Target, e: EntryPoint)
    requires
        b.tier.spec_includes(a.tier),
        a.undocumented ==> b.undocumented,
        e.spec_is_exposed(a),
    ensures
        e.spec_is_exposed(b),
{
}

} // verus!
