use vstd::prelude::*;

verus! {

/// Size and alignment of one field, in bytes.
#[derive(Clone, Copy, Debug, PartialEq, Eq, Structural)]
pub struct FieldLayout {
    pub size: usize,
    pub align: usize,
}

/// Where the fields of a C struct lie, and how large and aligned it is.
#[derive(Debug)]
pub struct StructLayout {
    pub size: usize,
    pub align: usize,
    pub offsets: Vec<usize>,
}

/// `x` rounded up to a multiple of `a`.
pub open spec fn align_up(x: int, a: int) -> int {
    if x % a == 0 {
        x
    } else {
        x + (a - x % a)
    }
}

/// Every field has a nonzero alignment.
pub open spec fn valid_fields(f: Seq<FieldLayout>) -> bool {
    forall|i: int| 0 <= i < f.len() ==> (#[trigger] f[i]).align > 0
}

/// Where the last field of a C struct with fields `f` ends, before any
/// trailing padding: each field starts at the first offset after the previous
/// one that is a multiple of its alignment.
pub open spec fn fields_end(f: Seq<FieldLayout>) -> int
    decreases f.len(),
{
    if f.len() == 0 {
        0
    } else {
        align_up(fields_end(f.drop_last()), f.last().align as int) + f.last().size
    }
}

/// The offset of field `i` of a C struct with fields `f`.
pub open spec fn field_offset(f: Seq<FieldLayout>, i: int) -> int {
    align_up(fields_end(f.take(i)), f[i].align as int)
}

/// The alignment of a C struct with fields `f`: the largest field alignment,
/// and 1 for a struct without fields.
pub open spec fn struct_align(f: Seq<FieldLayout>) -> int
    decreases f.len(),
{
    if f.len() == 0 {
        1
    } else {
        let a = struct_align(f.drop_last());
        if f.last().align as int > a {
            f.last().align as int
        } else {
            a
        }
    }
}

/// The size of a C struct with fields `f`: the end of its last field, rounded
/// up to the struct's alignment.
pub open spec fn struct_size(f: Seq<FieldLayout>) -> int {
    align_up(fields_end(f), struct_align(f))
}

proof fn lemma_align_up_bounds(x: int, a: int)
    requires
        x >= 0,
        a > 0,
    ensures
        x <= align_up(x, a),
        align_up(x, a) % a == 0,
{
    if x % a != 0 {
        assert((x + (a - x % a)) % a == 0) by (nonlinear_arith)
            requires
                a > 0,
                x % a != 0,
        ;
    }
}

proof fn lemma_fields_end_grows(f: Seq<FieldLayout>, i: int, j: int)
    requires
        valid_fields(f),
        0 <= i <= j <= f.len(),
    ensures
        0 <= fields_end(f.take(i)) <= fields_end(f.take(j)),
    decreases j - i,
{
    if i < j {
        lemma_fields_end_grows(f, i, j - 1);
        let g = f.take(j);
        assert(g.drop_last() =~= f.take(j - 1));
        assert(g.last() == f[j - 1]);
        lemma_align_up_bounds(fields_end(f.take(j - 1)), f[j - 1].align as int);
    } else {
        lemma_fields_end_nonneg(f.take(i));
    }
}

proof fn lemma_fields_end_nonneg(f: Seq<FieldLayout>)
    requires
        valid_fields(f),
    ensures
        fields_end(f) >= 0,
    decreases f.len(),
{
    if f.len() > 0 {
        lemma_fields_end_nonneg(f.drop_last());
        lemma_align_up_bounds(fields_end(f.drop_last()), f.last().align as int);
    }
}

proof fn lemma_struct_align_positive(f: Seq<FieldLayout>)
    requires
        valid_fields(f),
    ensures
        struct_align(f) > 0,
        forall|i: int| 0 <= i < f.len() ==> (#[trigger] f[i]).align <= struct_align(f),
    decreases f.len(),
{
    if f.len() > 0 {
        lemma_struct_align_positive(f.drop_last());
        assert forall|i: int| 0 <= i < f.len() implies (#[trigger] f[i]).align <= struct_align(f) by {
            if i < f.len() - 1 {
                assert(f.drop_last()[i] == f[i]);
            }
        }
    }
}

/// Lays out a C struct (`#[repr(C)]`) with the fields `fields`, in order.
///
/// `None` exactly when a field has alignment 0, or the struct would be larger
/// than `usize::MAX` bytes.
pub fn c_layout(fields: &Vec<FieldLayout>) -> (r: Option<StructLayout>)
    ensures
        !valid_fields(fields@) ==> r is None,
        valid_fields(fields@) ==> (r is None <==> struct_size(fields@) > usize::MAX),
        r matches Some(l) ==> {
            &&& l.size == struct_size(fields@)
            &&& l.align == struct_align(fields@)
            &&& l.offsets@.len() == fields@.len()
            &&& forall|i: int|
                0 <= i < fields@.len() ==> #[trigger] l.offsets@[i] == field_offset(fields@, i)
        },
{
    let mut k: usize = 0;
    while k < fields.len()
        invariant
            0 <= k <= fields@.len(),
            forall|j: int| 0 <= j < k ==> (#[trigger] fields@[j]).align > 0,
        decreases fields@.len() - k,
    {
        if fields[k].align == 0 {
            return None;
        }
        k += 1;
    }
    let f = Ghost(fields@);
    proof {
        lemma_fields_end_grows(f@, 0, f@.len() as int);
        assert(f@.take(f@.len() as int) =~= f@);
        lemma_struct_align_positive(f@);
        lemma_align_up_bounds(fields_end(f@), struct_align(f@));
    }
    let mut offsets: Vec<usize> = Vec::new();
    let mut end: usize = 0;
    let mut align: usize = 1;
    let mut i: usize = 0;
    while i < fields.len()
        invariant
            f@ == fields@,
            valid_fields(f@),
            0 <= i <= f@.len(),
            end == fields_end(f@.take(i as int)),
            align == struct_align(f@.take(i as int)),
            fields_end(f@) <= struct_size(f@),
            offsets@.len() == i,
            forall|j: int| 0 <= j < i ==> #[trigger] offsets@[j] == field_offset(f@, j),
        decreases f@.len() - i,
    {
        let field = fields[i];
        let g = Ghost(f@.take(i as int + 1));
        proof {
            assert(g@.drop_last() =~= f@.take(i as int));
            assert(g@.last() == field);
            lemma_fields_end_grows(f@, i as int + 1, f@.len() as int);
            assert(f@.take(f@.len() as int) =~= f@);
            lemma_align_up_bounds(end as int, field.align as int);
        }
        let rem = end % field.align;
        let start = if rem == 0 {
            end
        } else {
            match end.checked_add(field.align - rem) {
                Some(s) => s,
                None => return None,
            }
        };
        let next = match start.checked_add(field.size) {
            Some(n) => n,
            None => return None,
        };
        offsets.push(start);
        end = next;
        if field.align > align {
            align = field.align;
        }
        i += 1;
    }
    proof {
        assert(f@.take(f@.len() as int) =~= f@);
        lemma_struct_align_positive(f@);
        lemma_align_up_bounds(end as int, align as int);
    }
    let rem = end % align;
    let size = if rem == 0 {
        end
    } else {
        match end.checked_add(align - rem) {
            Some(s) => s,
            None => return None,
        }
    };
    Some(StructLayout { size, align, offsets })
}

} // verus!
