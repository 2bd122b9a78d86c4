use vstd::prelude::*;

use coreclr_hosting_shared::char_t;

verus! {

/// Tag of a value that `hostfxr_resolve_sdk2` hands to its result callback.
#[allow(non_camel_case_types)]
#[derive(Clone, Copy, Debug, PartialEq, Eq, Structural, Hash)]
pub enum hostfxr_resolve_sdk2_result_key_t {
    /// The directory of the resolved SDK; delivered once per resolution, with
    /// a null value where resolution failed.
    resolved_sdk_dir,
    /// The path of the `global.json` that steered resolution; delivered at
    /// most once.
    global_json_path,
}

impl hostfxr_resolve_sdk2_result_key_t {
    /// The integer the native library assigns to the tag.
    pub open spec fn spec_value(self) -> i32 {
        match self {
            hostfxr_resolve_sdk2_result_key_t::resolved_sdk_dir => 0,
            hostfxr_resolve_sdk2_result_key_t::global_json_path => 1,
        }
    }

    /// The tag that the integer `v` stands for, if any.
    pub open spec fn spec_from_value(v: i32) -> Option<hostfxr_resolve_sdk2_result_key_t> {
        if v == 0 {
            Some(hostfxr_resolve_sdk2_result_key_t::resolved_sdk_dir)
        } else if v == 1 {
            Some(hostfxr_resolve_sdk2_result_key_t::global_json_path)
        } else {
            None
        }
    }

    #[verifier::when_used_as_spec(spec_value)]
    pub fn value(self) -> (r: i32)
        ensures
            r == self.spec_value(),
    {
        match self {
            hostfxr_resolve_sdk2_result_key_t::resolved_sdk_dir => 0,
            hostfxr_resolve_sdk2_result_key_t::global_json_path => 1,
        }
    }

    #[verifier::when_used_as_spec(spec_from_value)]
    pub fn from_value(v: i32) -> (r: Option<hostfxr_resolve_sdk2_result_key_t>)
        ensures
            r == Self::spec_from_value(v),
    {
        match v {
            0 => Some(hostfxr_resolve_sdk2_result_key_t::resolved_sdk_dir),
            1 => Some(hostfxr_resolve_sdk2_result_key_t::global_json_path),
            _ => None,
        }
    }
}

/// Reading back the integer of a tag gives that tag again.
pub proof fn lemma_result_key_value_round_trip(k: hostfxr_resolve_sdk2_result_key_t)
    ensures
        hostfxr_resolve_sdk2_result_key_t::spec_from_value(k.spec_value()) == Some(k),
{
}

/// An integer that names a tag is that tag's integer; the integers in use are
/// exactly 0 and 1.
pub proof fn lemma_result_key_raw_round_trip(v: i32)
    ensures
        hostfxr_resolve_sdk2_result_key_t::spec_from_value(v) is Some <==> 0 <= v <= 1,
        hostfxr_resolve_sdk2_result_key_t::spec_from_value(v) matches Some(k) ==> k.spec_value() == v,
{
}

/// One delivery to the result callback, with the string copied out while the
/// callback ran; `None` for a null value.
pub type Sdk2Event = (hostfxr_resolve_sdk2_result_key_t, Option<Vec<char_t>>);

/// The view of one delivery.
pub open spec fn event_view(e: Sdk2Event) -> (hostfxr_resolve_sdk2_result_key_t, Option<Seq<char_t>>) {
    (
        e.0,
        match e.1 {
            Some(v) => Some(v@),
            None => None,
        },
    )
}

/// How many deliveries in `s` carry the tag `k`.
pub open spec fn count_key(s: Seq<(hostfxr_resolve_sdk2_result_key_t, Option<Seq<char_t>>)>, k: hostfxr_resolve_sdk2_result_key_t) -> nat
    decreases s.len(),
{
    if s.len() == 0 {
        0
    } else {
        count_key(s.drop_last(), k) + if s.last().0 == k {
            1nat
        } else {
            0nat
        }
    }
}

/// The position of the last delivery in `s` with the tag `k`, or -1.
pub open spec fn last_index_of_key(s: Seq<(hostfxr_resolve_sdk2_result_key_t, Option<Seq<char_t>>)>, k: hostfxr_resolve_sdk2_result_key_t) -> int
    decreases s.len(),
{
    if s.len() == 0 {
        -1
    } else if s.last().0 == k {
        s.len() - 1
    } else {
        last_index_of_key(s.drop_last(), k)
    }
}

/// What a `hostfxr_resolve_sdk2` call delivered to its result callback, in
/// the order of delivery. The callback records each value as it arrives, so
/// no pointer the native side handed over is kept past the call.
#[derive(Debug)]
pub struct ResolveSdk2Results {
    events: Vec<Sdk2Event>,
}

impl ResolveSdk2Results {
    /// The deliveries so far, in order.
    pub closed spec fn view(&self) -> Seq<(hostfxr_resolve_sdk2_result_key_t, Option<Seq<char_t>>)> {
        self.events@.map_values(|e: Sdk2Event| event_view(e))
    }

    pub fn new() -> (r: ResolveSdk2Results)
        ensures
            r.view() == Seq::<(hostfxr_resolve_sdk2_result_key_t, Option<Seq<char_t>>)>::empty(),
    {
        let r = ResolveSdk2Results { events: Vec::new() };
        assert(r.view() =~= Seq::empty());
        r
    }

    /// Records one delivery, after those before it.
    pub fn record(&mut self, key: hostfxr_resolve_sdk2_result_key_t, value: Option<Vec<char_t>>)
        ensures
            final(self).view() == old(self).view().push(event_view((key, value))),
    {
        let ghost v = event_view((key, value));
        self.events.push((key, value));
        assert(self.view() =~= old(self).view().push(v));
    }

    /// The number of deliveries so far.
    pub fn len(&self) -> (r: usize)
        ensures
            r == self.view().len(),
    {
        self.events.len()
    }

    /// The tag of delivery `i`.
    pub fn key_at(&self, i: usize) -> (r: hostfxr_resolve_sdk2_result_key_t)
        requires
            i < self.view().len(),
        ensures
            r == self.view()[i as int].0,
    {
        self.events[i].0
    }

    /// The value of delivery `i`, `None` where it was null.
    pub fn value_at(&self, i: usize) -> (r: &Option<Vec<char_t>>)
        requires
            i < self.view().len(),
        ensures
            event_view((self.view()[i as int].0, *r)) == self.view()[i as int],
    {
        &self.events[i].1
    }

    /// How many deliveries carried the tag `k`.
    pub fn count(&self, k: hostfxr_resolve_sdk2_result_key_t) -> (r: usize)
        ensures
            r == count_key(self.view(), k),
    {
        let mut n: usize = 0;
        let mut i: usize = 0;
        while i < self.events.len()
            invariant
                0 <= i <= self.view().len(),
                self.view().len() == self.events@.len(),
                n == count_key(self.view().take(i as int), k),
                n <= i,
            decreases self.view().len() - i,
        {
            proof {
                assert(self.view().take(i as int + 1).drop_last() =~= self.view().take(i as int));
            }
            if self.events[i].0 == k {
                n += 1;
            }
            i += 1;
        }
        assert(self.view().take(self.view().len() as int) =~= self.view());
        n
    }

    /// Whether the deliveries keep to what the native library promises: the
    /// SDK directory exactly once, the `global.json` path at most once.
    pub fn is_complete(&self) -> (r: bool)
        ensures
            r == (count_key(self.view(), hostfxr_resolve_sdk2_result_key_t::resolved_sdk_dir) == 1
                && count_key(self.view(), hostfxr_resolve_sdk2_result_key_t::global_json_path) <= 1),
    {
        self.count(hostfxr_resolve_sdk2_result_key_t::resolved_sdk_dir) == 1 && self.count(
            hostfxr_resolve_sdk2_result_key_t::global_json_path,
        ) <= 1
    }

    /// The position of the last delivery with the tag `k`, if any.
    pub fn last_index_of(&self, k: hostfxr_resolve_sdk2_result_key_t) -> (r: Option<usize>)
        ensures
            r is None <==> last_index_of_key(self.view(), k) == -1,
            r matches Some(i) ==> i == last_index_of_key(self.view(), k),
    {
        let mut i: usize = self.events.len();
        assert(self.view().take(i as int) =~= self.view());
        while i > 0
            invariant
                0 <= i <= self.view().len(),
                self.view().len() == self.events@.len(),
                last_index_of_key(self.view(), k) == last_index_of_key(self.view().take(i as int), k),
            decreases i,
        {
            proof {
                assert(self.view().take(i as int).drop_last() =~= self.view().take(i as int - 1));
                assert(self.view().take(i as int).last() == self.view()[i as int - 1]);
            }
            if self.events[i - 1].0 == k {
                return Some(i - 1);
            }
            i -= 1;
        }
        assert(self.view().take(0) =~= Seq::empty());
        None
    }
}

/// Recording appends: every delivery before stays where it was, and the new
/// one comes last.
pub proof fn lemma_record_keeps_order(
    before: Seq<(hostfxr_resolve_sdk2_result_key_t, Option<Seq<char_t>>)>,
    e: (hostfxr_resolve_sdk2_result_key_t, Option<Seq<char_t>>),
)
    ensures
        before.push(e).len() == before.len() + 1,
        before.push(e).last() == e,
        forall|i: int| 0 <= i < before.len() ==> #[trigger] before.push(e)[i] == before[i],
        count_key(before.push(e), e.0) == count_key(before, e.0) + 1,
        last_index_of_key(before.push(e), e.0) == before.len(),
{
    assert(before.push(e).drop_last() =~= before);
}

} // verus!
