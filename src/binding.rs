use vstd::prelude::*;

use crate::entry::{entry_points, target_entry_points, EntryPoint, Target};

verus! {

/// Why a binding table could not be built. Each names the first entry point,
/// in table order, that could not be bound.
#[derive(Clone, Copy, Debug, PartialEq, Eq, Structural)]
pub enum BindError {
    /// The library image does not export the symbol.
    MissingSymbol(EntryPoint),
    /// The library image exports the symbol with a null address.
    NullSymbol(EntryPoint),
    /// The lookups handed in do not match the symbols asked for, one for one.
    LookupCountMismatch { expected: usize, given: usize },
}

/// Whether one symbol lookup gives an address that can be called through.
pub open spec fn is_bound(found: Option<usize>) -> bool {
    found matches Some(a) && a != 0
}

/// A table of resolved native entry points.
///
/// It holds one nonzero address for each entry point that its target exposes,
/// and nothing else: a table is built whole or not at all.
pub struct Hostfxr {
    target: Target,
    entries: Vec<EntryPoint>,
    addresses: Vec<usize>,
}

impl Hostfxr {
    pub closed spec fn spec_target(&self) -> Target {
        self.target
    }

    /// The resolved addresses, in table order.
    pub closed spec fn spec_addresses(&self) -> Seq<usize> {
        self.addresses@
    }

    #[verifier::type_invariant]
    closed spec fn wf(&self) -> bool {
        &&& self.entries@ == target_entry_points(self.target)
        &&& self.addresses@.len() == self.entries@.len()
        &&& forall|i: int| 0 <= i < self.addresses@.len() ==> #[trigger] self.addresses@[i] != 0
    }

    /// The address bound for `e`, if the table holds `e`.
    pub open spec fn spec_address_of(&self, e: EntryPoint) -> Option<usize> {
        let entries = target_entry_points(self.spec_target());
        if entries.contains(e) {
            Some(self.spec_addresses()[entries.index_of(e)])
        } else {
            None
        }
    }

    /// Builds the table for `target` from one lookup per symbol of
    /// `crate::entry::symbol_names(target)`, in the same order: `None` where
    /// the library image lacks the symbol, `Some(address)` where it has it.
    ///
    /// Succeeds exactly when every lookup gave a nonzero address; otherwise
    /// nothing of the table is kept and the error names the first entry point
    /// that failed.
    pub fn bind(target: Target, found: &Vec<Option<usize>>) -> (r: Result<Hostfxr, BindError>)
        ensures
            found@.len() != target_entry_points(target).len() ==> r == Err::<Hostfxr, BindError>(
                BindError::LookupCountMismatch {
                    expected: target_entry_points(target).len() as usize,
                    given: found@.len() as usize,
                },
            ),
            found@.len() == target_entry_points(target).len() ==> (r is Ok <==> forall|i: int|
                0 <= i < found@.len() ==> is_bound(#[trigger] found@[i])),
            r matches Ok(t) ==> {
                &&& t.spec_target() == target
                &&& t.spec_addresses() == found@.map_values(|o: Option<usize>| o->0)
            },
            r matches Err(BindError::MissingSymbol(e)) ==> exists|k: int|
                0 <= k < found@.len() && found@[k] is None && target_entry_points(target)[k] == e
                    && forall|j: int| 0 <= j < k ==> is_bound(#[trigger] found@[j]),
            r matches Err(BindError::NullSymbol(e)) ==> exists|k: int|
                0 <= k < found@.len() && found@[k] == Some(0usize) && target_entry_points(target)[k]
                    == e && forall|j: int| 0 <= j < k ==> is_bound(#[trigger] found@[j]),
    {
        let entries = entry_points(target);
        if found.len() != entries.len() {
            return Err(BindError::LookupCountMismatch { expected: entries.len(), given: found.len() });
        }
        let mut addresses: Vec<usize> = Vec::new();
        let mut i: usize = 0;
        while i < found.len()
            invariant
                entries@ == target_entry_points(target),
                found@.len() == entries@.len(),
                0 <= i <= found@.len(),
                addresses@ == found@.take(i as int).map_values(|o: Option<usize>| o->0),
                forall|j: int| 0 <= j < i ==> is_bound(#[trigger] found@[j]),
            decreases found@.len() - i,
        {
            match found[i] {
                None => {
                    return Err(BindError::MissingSymbol(entries[i]));
                },
                Some(a) => {
                    if a == 0 {
                        return Err(BindError::NullSymbol(entries[i]));
                    }
                    addresses.push(a);
                    assert(addresses@ =~= found@.take(i as int + 1).map_values(
                        |o: Option<usize>| o->0,
                    ));
                },
            }
            i += 1;
        }
        assert(found@.take(found@.len() as int) =~= found@);
        Ok(Hostfxr { target, entries, addresses })
    }

    /// The target the table was built for.
    pub fn target(&self) -> (r: Target)
        ensures
            r == self.spec_target(),
    {
        self.target
    }

    /// The number of entry points the table holds.
    pub fn len(&self) -> (r: usize)
        ensures
            r == target_entry_points(self.spec_target()).len(),
    {
        proof {
            use_type_invariant(self);
        }
        self.entries.len()
    }

    /// The address bound for `e`: `Some` exactly when the table's target
    /// exposes `e`, and then a nonzero address.
    pub fn get(&self, e: EntryPoint) -> (r: Option<usize>)
        ensures
            r == self.spec_address_of(e),
            r is Some <==> e.spec_is_exposed(self.spec_target()),
            r matches Some(a) ==> a != 0,
    {
        proof {
            use_type_invariant(self);
        }
        let mut i: usize = 0;
        while i < self.entries.len()
            invariant
                self.wf(),
                0 <= i <= self.entries@.len(),
                forall|j: int| 0 <= j < i ==> self.entries@[j] != e,
            decreases self.entries@.len() - i,
        {
            if self.entries[i] == e {
                proof {
                    crate::entry::lemma_target_entry_points_distinct(self.target);
                    lemma_index_of_distinct(self.entries@, e, i as int);
                }
                return Some(self.addresses[i]);
            }
            i += 1;
        }
        proof {
            lemma_exposed_iff_listed(self.target, e);
        }
        None
    }
}

proof fn lemma_index_of_distinct(s: Seq<EntryPoint>, e: EntryPoint, i: int)
    requires
        0 <= i < s.len(),
        s[i] == e,
        s.no_duplicates(),
    ensures
        s.contains(e),
        s.index_of(e) == i,
{
    assert(s.contains(e));
    let k = s.index_of(e);
    assert(s[k] == e);
}

#[allow(deprecated)]
/// An entry point appears in a target's list exactly when the target exposes it.
pub proof fn lemma_exposed_iff_listed(target: Target, e: EntryPoint)
    ensures
        target_entry_points(target).contains(e) <==> e.spec_is_exposed(target),
{
    let p = |x: EntryPoint| x.spec_is_exposed(target);
    crate::entry::all_entry_points().filter_lemma(p);
    crate::entry::lemma_all_entry_points_distinct(e);
}

} // verus!
