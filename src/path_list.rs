use vstd::prelude::*;

use coreclr_hosting_shared::char_t;

verus! {

/// The character that separates the paths of a path list returned by the
/// native library: `;` on Windows, `:` elsewhere.
pub open spec fn spec_path_list_separator(windows: bool) -> char_t {
    if windows {
        59
    } else {
        58
    }
}

pub fn path_list_separator(windows: bool) -> (r: char_t)
    ensures
        r == spec_path_list_separator(windows),
{
    if windows {
        59
    } else {
        58
    }
}

/// The pieces of `s` between occurrences of `sep`, in order: one more piece
/// than there are separators, empty pieces included.
pub open spec fn split_on(s: Seq<char_t>, sep: char_t) -> Seq<Seq<char_t>>
    decreases s.len(),
{
    if s.len() == 0 {
        seq![Seq::<char_t>::empty()]
    } else {
        let r = split_on(s.drop_last(), sep);
        if s.last() == sep {
            r.push(Seq::<char_t>::empty())
        } else {
            r.update(r.len() - 1, r.last().push(s.last()))
        }
    }
}

proof fn lemma_split_on_nonempty(s: Seq<char_t>, sep: char_t)
    ensures
        split_on(s, sep).len() >= 1,
    decreases s.len(),
{
    if s.len() > 0 {
        lemma_split_on_nonempty(s.drop_last(), sep);
    }
}

/// Splits a path list, as copied out of a native buffer without its
/// terminator, at each `sep`.
pub fn split_path_list(s: &Vec<char_t>, sep: char_t) -> (r: Vec<Vec<char_t>>)
    ensures
        r@.map_values(|p: Vec<char_t>| p@) == split_on(s@, sep),
{
    let mut parts: Vec<Vec<char_t>> = Vec::new();
    let mut current: Vec<char_t> = Vec::new();
    let mut i: usize = 0;
    while i < s.len()
        invariant
            0 <= i <= s@.len(),
            parts@.map_values(|p: Vec<char_t>| p@).push(current@) == split_on(s@.take(i as int), sep),
        decreases s@.len() - i,
    {
        let c = s[i];
        let ghost before = parts@.map_values(|p: Vec<char_t>| p@).push(current@);
        proof {
            assert(s@.take(i as int + 1).drop_last() =~= s@.take(i as int));
            assert(s@.take(i as int + 1).last() == c);
        }
        if c == sep {
            parts.push(current);
            current = Vec::new();
            assert(parts@.map_values(|p: Vec<char_t>| p@).push(current@) =~= before.push(Seq::<char_t>::empty()));
        } else {
            current.push(c);
            assert(parts@.map_values(|p: Vec<char_t>| p@).push(current@) =~= before.update(
                before.len() - 1,
                before.last().push(c),
            ));
        }
        i += 1;
    }
    assert(s@.take(s@.len() as int) =~= s@);
    let ghost last = current@;
    parts.push(current);
    assert(parts@.map_values(|p: Vec<char_t>| p@) =~= split_on(s@, sep));
    parts
}

} // verus!
