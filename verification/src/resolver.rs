//! Device-set resolution: from a set expression and the registry's visible
//! snapshot to the devices a command targets.
//!
//! Exact match first: an expression that equals a stored normalized name (the
//! reserved alias `last` included) targets that single device and
//! short-circuits the scan. Otherwise a bulk scan of the snapshot collects
//! every entry whose name the expression is a prefix of — or every entry when
//! the expression is the reserved wildcard `all` — excluding the `last` alias
//! entry itself, so a broadcast never delivers twice to the most recently
//! added device.
use vstd::prelude::*;
use crate::device::{Device, DeviceView};
use crate::registry::{entries_match, visible, Registry};
use crate::text::{str_eq, str_is_prefix};

verus! {

broadcast use vstd::set::group_set_axioms;

/// Whether the bulk scan includes the entry under `key`: the expression is
/// the wildcard `all` or a prefix of `key`, and `key` is not the reserved
/// alias `last`.
pub open spec fn bulk_match(set: Seq<char>, key: Seq<char>) -> bool {
    (set == "all"@ || set.is_prefix_of(key)) && key != "last"@
}

/// The set of devices a bulk scan of snapshot `m` collects for the
/// expression `set`: the values of all bulk-matched entries.
pub open spec fn bulk_image(set: Seq<char>, m: Map<Seq<char>, DeviceView>) -> Set<DeviceView> {
    Set::new(
        |v: DeviceView|
            exists|k: Seq<char>| #[trigger] m.contains_key(k) && bulk_match(set, k) && m[k] == v,
    )
}

/// How a resolved device sequence `r` reflects the set expression `set`
/// against the snapshot `m`: the single exact match where one exists,
/// otherwise exactly the bulk-matched entries, in no particular order.
pub open spec fn resolves(set: Seq<char>, m: Map<Seq<char>, DeviceView>, r: Seq<DeviceView>) -> bool {
    if m.contains_key(set) {
        r.len() == 1 && r[0] == m[set]
    } else {
        r.to_set() == bulk_image(set, m)
    }
}

/// Resolves a device-set expression against the currently visible snapshot.
/// An expression no entry matches resolves to no devices, without error.
pub fn filter_devices(set: &str, registry: &Registry) -> (r: Vec<Device>)
    ensures
        resolves(set@, visible(*registry), r.deep_view()),
{
    if let Some(d) = registry.get(set) {
        let mut out: Vec<Device> = Vec::new();
        out.push(d);
        proof {
            assert(out.deep_view() =~= seq![out@[0]@]);
        }
        out
    } else {
        let entries = registry.iterate();
        let ghost m = visible(*registry);
        let is_all = str_eq(set, "all");
        let mut out: Vec<Device> = Vec::new();
        let mut i: usize = 0;
        while i < entries.len()
            invariant
                entries_match(m, entries@),
                is_all == (set@ == "all"@),
                i <= entries@.len(),
                forall|j: int|
                    0 <= j < out.deep_view().len() ==> bulk_image(set@, m).contains(
                        #[trigger] out.deep_view()[j],
                    ),
                forall|idx: int|
                    0 <= idx < i && bulk_match(set@, #[trigger] entries@[idx].0@) ==> exists|j: int|
                        0 <= j < out.deep_view().len() && out.deep_view()[j] == m[entries@[idx].0@],
            decreases entries@.len() - i,
        {
            let entry = &entries[i];
            let ghost prev = out.deep_view();
            let included = (is_all || str_is_prefix(set, entry.0.as_str())) && !str_eq(
                entry.0.as_str(),
                "last",
            );
            proof {
                assert(m.contains_key(entries@[i as int].0@) && entries@[i as int].1@
                    == m[entries@[i as int].0@]);
                assert(included == bulk_match(set@, entries@[i as int].0@));
            }
            if included {
                out.push(entry.1.duplicate());
                proof {
                    assert(out.deep_view() =~= prev.push(entries@[i as int].1@));
                    assert(bulk_image(set@, m).contains(out.deep_view()[prev.len() as int]));
                }
            }
            proof {
                assert forall|idx: int|
                    0 <= idx < i + 1 && bulk_match(set@, #[trigger] entries@[idx].0@) implies exists|j: int|
                    0 <= j < out.deep_view().len() && out.deep_view()[j] == m[entries@[idx].0@] by {
                    if idx < i {
                        let j0 = choose|j: int|
                            0 <= j < prev.len() && prev[j] == m[entries@[idx].0@];
                        assert(out.deep_view()[j0] == m[entries@[idx].0@]);
                    } else {
                        assert(included);
                        assert(out.deep_view()[prev.len() as int] == m[entries@[idx].0@]);
                    }
                }
            }
            i += 1;
        }
        proof {
            lemma_collected_is_bulk_image(set@, m, entries@, out.deep_view());
        }
        out
    }
}

/// A sequence whose elements all lie in the bulk image and that covers the
/// value of every bulk-matched entry of a full snapshot listing holds, as a
/// set, exactly the bulk image.
proof fn lemma_collected_is_bulk_image(
    set: Seq<char>,
    m: Map<Seq<char>, DeviceView>,
    entries: Seq<(String, Device)>,
    r: Seq<DeviceView>,
)
    requires
        entries_match(m, entries),
        forall|j: int| 0 <= j < r.len() ==> bulk_image(set, m).contains(#[trigger] r[j]),
        forall|idx: int|
            0 <= idx < entries.len() && bulk_match(set, #[trigger] entries[idx].0@) ==> exists|j: int|
                0 <= j < r.len() && r[j] == m[entries[idx].0@],
    ensures
        r.to_set() == bulk_image(set, m),
{
    assert forall|v: DeviceView| r.to_set().contains(v) implies bulk_image(set, m).contains(v) by {
        let j = choose|j: int| 0 <= j < r.len() && r[j] == v;
        assert(bulk_image(set, m).contains(r[j]));
    }
    assert forall|v: DeviceView| bulk_image(set, m).contains(v) implies r.to_set().contains(v) by {
        let k = choose|k: Seq<char>| #[trigger] m.contains_key(k) && bulk_match(set, k) && m[k]
            == v;
        let idx = choose|idx: int| 0 <= idx < entries.len() && #[trigger] entries[idx].0@ == k;
        assert(bulk_match(set, entries[idx].0@));
        let j = choose|j: int| 0 <= j < r.len() && r[j] == m[entries[idx].0@];
        assert(r.contains(r[j]));
    }
    assert(r.to_set() =~= bulk_image(set, m));
}

/// Resolution is order-independent: any two resolved sequences for one
/// expression against one snapshot hold the same set of devices, whatever
/// order the snapshot was scanned in.
pub proof fn lemma_resolution_order_independent(
    set: Seq<char>,
    m: Map<Seq<char>, DeviceView>,
    r1: Seq<DeviceView>,
    r2: Seq<DeviceView>,
)
    requires
        resolves(set, m, r1),
        resolves(set, m, r2),
    ensures
        r1.to_set() == r2.to_set(),
{
    if m.contains_key(set) {
        lemma_singleton_to_set(r1);
        lemma_singleton_to_set(r2);
        assert(r1.to_set() =~= r2.to_set());
    }
}

/// A one-element sequence's set holds exactly its element.
proof fn lemma_singleton_to_set(r: Seq<DeviceView>)
    requires
        r.len() == 1,
    ensures
        r.to_set() == set![r[0]],
{
    assert forall|v: DeviceView| r.to_set().contains(v) implies set![r[0]].contains(v) by {
        let j = choose|j: int| 0 <= j < r.len() && r[j] == v;
        assert(j == 0);
    }
    assert forall|v: DeviceView| set![r[0]].contains(v) implies r.to_set().contains(v) by {
        assert(r.contains(r[0]));
    }
    assert(r.to_set() =~= set![r[0]]);
}

/// The `last` alias entry never enters a bulk match: a wildcard or prefix
/// broadcast excludes the entry stored under the alias key.
pub proof fn lemma_last_excluded(set: Seq<char>, key: Seq<char>)
    ensures
        key == "last"@ ==> !bulk_match(set, key),
{
}

/// An unresolvable expression — no exact entry, not the wildcard, a prefix of
/// no stored name — resolves to the empty device sequence.
pub proof fn lemma_unresolvable_empty(
    set: Seq<char>,
    m: Map<Seq<char>, DeviceView>,
    r: Seq<DeviceView>,
)
    requires
        resolves(set, m, r),
        !m.contains_key(set),
        set != "all"@,
        forall|k: Seq<char>| #[trigger] m.contains_key(k) ==> !set.is_prefix_of(k),
    ensures
        r =~= Seq::<DeviceView>::empty(),
{
    if r.len() > 0 {
        assert(r.contains(r[0]));
        assert(r.to_set().contains(r[0]));
        let k = choose|k: Seq<char>| #[trigger] m.contains_key(k) && bulk_match(set, k) && m[k]
            == r[0];
        assert(false);
    }
}

} // verus!
