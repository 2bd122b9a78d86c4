use vstd::layout::{align_of, size_of};
use vstd::prelude::*;

use crate::layout::{c_layout, field_offset, fields_end, struct_align, struct_size, FieldLayout, StructLayout};
use coreclr_hosting_shared::size_t;

verus! {

/// The address that stands for a null pointer.
pub const NULL_ADDRESS: usize = 0;

/// The value passed as the delegate type name to say that the target method is
/// marked with `UnmanagedCallersOnlyAttribute`, so that its name alone
/// identifies it: the largest address, never the null one.
pub const UNMANAGED_CALLERS_ONLY_METHOD: usize = usize::MAX;

/// The inputs common to the initialization calls of the native library.
///
/// `host_path` and `dotnet_root` are the addresses of native strings, with
/// `NULL_ADDRESS` where a path is not given. `size` is the size in bytes of
/// the native struct, by which the native side tells which fields the caller
/// knows of.
#[derive(Clone, Copy, Debug, PartialEq, Eq, Structural)]
pub struct hostfxr_initialize_parameters {
    pub size: size_t,
    pub host_path: usize,
    pub dotnet_root: usize,
}

/// The three fields of the native struct, in order: a `size_t` and two
/// pointers, each laid out as a `usize`.
pub open spec fn parameter_fields() -> Seq<FieldLayout> {
    let w = FieldLayout { size: size_of::<usize>() as usize, align: align_of::<usize>() as usize };
    seq![w, w, w]
}

/// The size in bytes of the native struct: three machine words, without padding.
pub open spec fn parameters_size() -> int {
    3 * size_of::<usize>() as int
}

proof fn lemma_parameter_layout()
    ensures
        size_of::<usize>() == 4 || size_of::<usize>() == 8,
        struct_size(parameter_fields()) == parameters_size(),
        struct_align(parameter_fields()) == align_of::<usize>(),
        field_offset(parameter_fields(), 0) == 0,
        field_offset(parameter_fields(), 1) == size_of::<usize>(),
        field_offset(parameter_fields(), 2) == 2 * size_of::<usize>(),
{
    broadcast use vstd::layout::layout_of_primitives, vstd::layout::align_properties, vstd::layout::align_nonzero;

    let w = size_of::<usize>() as int;
    let a = align_of::<usize>() as int;
    let f = parameter_fields();
    assert(usize::BITS == 32 || usize::BITS == 64);
    assert(align_of::<usize>() > 0);
    assert(w % a == 0);
    let q = w / a;
    vstd::arithmetic::div_mod::lemma_fundamental_div_mod(w, a);
    assert(w == a * q);
    assert(w + w == (2 * q) * a) by (nonlinear_arith)
        requires
            w == a * q,
    ;
    assert(w + w + w == (3 * q) * a) by (nonlinear_arith)
        requires
            w == a * q,
    ;
    vstd::arithmetic::div_mod::lemma_mod_multiples_basic(2 * q, a);
    vstd::arithmetic::div_mod::lemma_mod_multiples_basic(3 * q, a);
    assert(0int % a == 0);
    assert(a <= w) by (nonlinear_arith)
        requires
            w == a * q,
            w > 0,
            a > 0,
    ;
    assert(f[0].size == w && f[0].align == a);
    assert(f[1] == f[0] && f[2] == f[0]);
    assert(f.take(0).len() == 0);
    assert(f.take(1).drop_last() =~= f.take(0));
    assert(f.take(2).drop_last() =~= f.take(1));
    assert(f.drop_last() =~= f.take(2));
    assert(f.take(0) =~= Seq::<FieldLayout>::empty());
    assert(fields_end(f.take(0)) == 0);
    assert(f.take(1).last() == f[0]);
    assert(fields_end(f.take(1)) == w);
    assert(f.take(2).last() == f[1]);
    assert(fields_end(f.take(2)) == 2 * w);
    assert(f.last() == f[2]);
    assert(fields_end(f) == 3 * w);
    assert(struct_align(f.take(0)) == 1);
    assert(struct_align(f.take(1)) == a);
    assert(struct_align(f.take(2)) == a);
    assert(struct_align(f) == a);
}

impl hostfxr_initialize_parameters {
    /// The layout of the native struct on this machine.
    pub fn layout() -> (r: StructLayout)
        ensures
            r.size == parameters_size(),
            r.align == align_of::<usize>(),
            r.offsets@ == seq![0usize, size_of::<usize>() as usize, (2 * size_of::<usize>()) as usize],
    {
        let w = core::mem::size_of::<usize>();
        let a = core::mem::align_of::<usize>();
        vstd::layout::layout_for_type_is_valid::<usize>();
        let field = FieldLayout { size: w, align: a };
        let fields = vec![field, field, field];
        proof {
            lemma_parameter_layout();
            assert(fields@ =~= parameter_fields());
        }
        let l = c_layout(&fields).unwrap();
        assert(l.offsets@ =~= seq![0usize, w, (2 * w) as usize]);
        l
    }

    /// The size in bytes of the native struct on this machine.
    pub fn native_size() -> (r: size_t)
        ensures
            r == parameters_size(),
    {
        let w = core::mem::size_of::<usize>();
        proof {
            lemma_parameter_layout();
        }
        3 * w
    }

    /// Parameters that give the host executable's path and no installation root.
    pub fn with_host_path(host_path: usize) -> (r: hostfxr_initialize_parameters)
        ensures
            r.size == parameters_size(),
            r.host_path == host_path,
            r.dotnet_root == NULL_ADDRESS,
    {
        hostfxr_initialize_parameters { size: Self::native_size(), host_path, dotnet_root: NULL_ADDRESS }
    }

    /// Parameters that give the installation root and no host executable path.
    pub fn with_dotnet_root(dotnet_root: usize) -> (r: hostfxr_initialize_parameters)
        ensures
            r.size == parameters_size(),
            r.host_path == NULL_ADDRESS,
            r.dotnet_root == dotnet_root,
    {
        hostfxr_initialize_parameters { size: Self::native_size(), host_path: NULL_ADDRESS, dotnet_root }
    }
}

/// The sentinel for methods marked `UnmanagedCallersOnlyAttribute` is the
/// largest address, and so is told apart from the null address.
pub proof fn lemma_unmanaged_callers_only_sentinel()
    ensures
        UNMANAGED_CALLERS_ONLY_METHOD == usize::MAX,
        UNMANAGED_CALLERS_ONLY_METHOD != NULL_ADDRESS,
{
}

/// The native struct is three machine words at offsets 0, one word and two
/// words, with no padding; the constructors fill in that size and leave the
/// path they are not given null.
pub proof fn lemma_initialize_parameters_layout(host_path: usize, dotnet_root: usize)
    ensures
        struct_size(parameter_fields()) == parameters_size(),
        parameters_size() == 3 * size_of::<usize>(),
        struct_align(parameter_fields()) == align_of::<usize>(),
        field_offset(parameter_fields(), 0) == 0,
        field_offset(parameter_fields(), 1) == size_of::<usize>(),
        field_offset(parameter_fields(), 2) == 2 * size_of::<usize>(),
{
    lemma_parameter_layout();
}

} // verus!
