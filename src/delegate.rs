use vstd::prelude::*;

use crate::tier::Tier;

verus! {

/// Kind of runtime functionality requested through `hostfxr_get_runtime_delegate`.
///
/// The native library reads the kind as an `i32`; `value` gives that number,
/// which never changes once assigned, even when later versions add kinds.
#[allow(non_camel_case_types)]
#[derive(Clone, Copy, Debug, PartialEq, Eq, Structural, Hash)]
pub enum hostfxr_delegate_type {
    hdt_com_activation,
    hdt_load_in_memory_assembly,
    hdt_winrt_activation,
    hdt_com_register,
    hdt_com_unregister,
    hdt_load_assembly_and_get_function_pointer,
    hdt_get_function_pointer,
    hdt_load_assembly,
    hdt_load_assembly_bytes,
}

impl hostfxr_delegate_type {
    /// The integer the native library assigns to the kind.
    pub open spec fn spec_value(self) -> i32 {
        match self {
            hostfxr_delegate_type::hdt_com_activation => 0,
            hostfxr_delegate_type::hdt_load_in_memory_assembly => 1,
            hostfxr_delegate_type::hdt_winrt_activation => 2,
            hostfxr_delegate_type::hdt_com_register => 3,
            hostfxr_delegate_type::hdt_com_unregister => 4,
            hostfxr_delegate_type::hdt_load_assembly_and_get_function_pointer => 5,
            hostfxr_delegate_type::hdt_get_function_pointer => 6,
            hostfxr_delegate_type::hdt_load_assembly => 7,
            hostfxr_delegate_type::hdt_load_assembly_bytes => 8,
        }
    }

    /// The kind that the native library reads from the integer `v`, if any.
    pub open spec fn spec_from_value(v: i32) -> Option<hostfxr_delegate_type> {
        if v == 0 {
            Some(hostfxr_delegate_type::hdt_com_activation)
        } else if v == 1 {
            Some(hostfxr_delegate_type::hdt_load_in_memory_assembly)
        } else if v == 2 {
            Some(hostfxr_delegate_type::hdt_winrt_activation)
        } else if v == 3 {
            Some(hostfxr_delegate_type::hdt_com_register)
        } else if v == 4 {
            Some(hostfxr_delegate_type::hdt_com_unregister)
        } else if v == 5 {
            Some(hostfxr_delegate_type::hdt_load_assembly_and_get_function_pointer)
        } else if v == 6 {
            Some(hostfxr_delegate_type::hdt_get_function_pointer)
        } else if v == 7 {
            Some(hostfxr_delegate_type::hdt_load_assembly)
        } else if v == 8 {
            Some(hostfxr_delegate_type::hdt_load_assembly_bytes)
        } else {
            None
        }
    }

    /// The first library version that accepts the kind.
    pub open spec fn introduced_in(self) -> Tier {
        match self {
            hostfxr_delegate_type::hdt_get_function_pointer => Tier::Net5_0,
            hostfxr_delegate_type::hdt_load_assembly => Tier::Net8_0,
            hostfxr_delegate_type::hdt_load_assembly_bytes => Tier::Net8_0,
            _ => Tier::NetCore3_0,
        }
    }

    /// Whether a library of version `tier` accepts the kind. WinRT activation
    /// was dropped in 5.0; every other kind stays once introduced.
    pub open spec fn spec_is_available(self, tier: Tier) -> bool {
        &&& tier.spec_includes(self.introduced_in())
        &&& (self is hdt_winrt_activation ==> !tier.spec_includes(Tier::Net5_0))
    }

    #[verifier::when_used_as_spec(spec_value)]
    pub fn value(self) -> (r: i32)
        ensures
            r == self.spec_value(),
    {
        match self {
            hostfxr_delegate_type::hdt_com_activation => 0,
            hostfxr_delegate_type::hdt_load_in_memory_assembly => 1,
            hostfxr_delegate_type::hdt_winrt_activation => 2,
            hostfxr_delegate_type::hdt_com_register => 3,
            hostfxr_delegate_type::hdt_com_unregister => 4,
            hostfxr_delegate_type::hdt_load_assembly_and_get_function_pointer => 5,
            hostfxr_delegate_type::hdt_get_function_pointer => 6,
            hostfxr_delegate_type::hdt_load_assembly => 7,
            hostfxr_delegate_type::hdt_load_assembly_bytes => 8,
        }
    }

    #[verifier::when_used_as_spec(spec_from_value)]
    pub fn from_value(v: i32) -> (r: Option<hostfxr_delegate_type>)
        ensures
            r == Self::spec_from_value(v),
    {
        match v {
            0 => Some(hostfxr_delegate_type::hdt_com_activation),
            1 => Some(hostfxr_delegate_type::hdt_load_in_memory_assembly),
            2 => Some(hostfxr_delegate_type::hdt_winrt_activation),
            3 => Some(hostfxr_delegate_type::hdt_com_register),
            4 => Some(hostfxr_delegate_type::hdt_com_unregister),
            5 => Some(hostfxr_delegate_type::hdt_load_assembly_and_get_function_pointer),
            6 => Some(hostfxr_delegate_type::hdt_get_function_pointer),
            7 => Some(hostfxr_delegate_type::hdt_load_assembly),
            8 => Some(hostfxr_delegate_type::hdt_load_assembly_bytes),
            _ => None,
        }
    }

    #[verifier::when_used_as_spec(spec_is_available)]
    pub fn is_available(self, tier: Tier) -> (r: bool)
        ensures
            r == self.spec_is_available(tier),
    {
        let introduced = match self {
            hostfxr_delegate_type::hdt_get_function_pointer => Tier::Net5_0,
            hostfxr_delegate_type::hdt_load_assembly => Tier::Net8_0,
            hostfxr_delegate_type::hdt_load_assembly_bytes => Tier::Net8_0,
            _ => Tier::NetCore3_0,
        };
        let dropped = match self {
            hostfxr_delegate_type::hdt_winrt_activation => tier.includes(Tier::Net5_0),
            _ => false,
        };
        tier.includes(introduced) && !dropped
    }
}

/// Reading back the integer of a kind gives that kind again.
pub proof fn lemma_delegate_type_value_round_trip(k: hostfxr_delegate_type)
    ensures
        hostfxr_delegate_type::spec_from_value(k.spec_value()) == Some(k),
{
}

/// An integer that names a kind is that kind's integer; the integers in use
/// are exactly `0..=8`.
pub proof fn lemma_delegate_type_raw_round_trip(v: i32)
    ensures
        hostfxr_delegate_type::spec_from_value(v) is Some <==> 0 <= v <= 8,
        hostfxr_delegate_type::spec_from_value(v) matches Some(k) ==> k.spec_value() == v,
{
}

/// No two kinds share an integer.
pub proof fn lemma_delegate_type_value_injective(a: hostfxr_delegate_type, b: hostfxr_delegate_type)
    ensures
        a.spec_value() == b.spec_value() <==> a == b,
{
}

} // verus!
