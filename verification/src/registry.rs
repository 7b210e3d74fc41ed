//! The concurrent device registry: one logical writer, many readers.
//!
//! The store is an `evmap` pair of write and read handles held together.
//! Writes are staged on the write handle and become visible to lookups only
//! when [`Registry::refresh`] publishes them; until then every lookup answers
//! from the previously published snapshot. The two maps below — the staged
//! one and the visible one — are named by [`staged`] and [`visible`], and
//! every operation's contract is stated over them.
//!
//! Entries are never removed: a device-removed notification does not evict
//! its entry (the stale handle fails harmlessly when invoked), and the
//! reserved alias key `last` is only ever rebound, never deleted.
use vstd::prelude::*;
use crate::device::{Device, DeviceView};

verus! {

/// The mapping from normalized device name to device that lookups currently
/// answer from: the snapshot published by the latest `refresh`.
pub uninterp spec fn visible(r: Registry) -> Map<Seq<char>, DeviceView>;

/// The mapping from normalized device name to device as staged on the write
/// side: all upserts so far, including those not yet published.
pub uninterp spec fn staged(r: Registry) -> Map<Seq<char>, DeviceView>;

/// The mapping with no entries, as both sides of a fresh registry start out.
pub open spec fn no_entries() -> Map<Seq<char>, DeviceView> {
    Map::<Seq<char>, DeviceView>::empty()
}

/// How a sequence of pairs handed out by [`Registry::iterate`] reflects a
/// snapshot `m`: every pair is an entry of `m`, every key of `m` occurs, and
/// no key occurs twice. The order of the pairs is not specified.
pub open spec fn entries_match(m: Map<Seq<char>, DeviceView>, s: Seq<(String, Device)>) -> bool {
    &&& forall|i: int|
        0 <= i < s.len() ==> #[trigger] m.contains_key(s[i].0@) && s[i].1@ == m[s[i].0@]
    &&& forall|k: Seq<char>|
        m.contains_key(k) ==> exists|i: int| 0 <= i < s.len() && #[trigger] s[i].0@ == k
    &&& forall|i: int, j: int| 0 <= i < j < s.len() ==> s[i].0@ != s[j].0@
}

/// The device registry: a single-writer, multi-reader map from normalized
/// device name to [`Device`], with explicitly published snapshots.
#[verifier::external_body]
pub struct Registry {
    writer: evmap::handles::WriteHandle<String, (String, u32)>,
    reader: evmap::handles::ReadHandle<String, (String, u32)>,
}

impl Registry {
    /// An empty registry: nothing staged, nothing visible.
    ///
    /// Relies on `evmap::new`: the map starts empty, and readers see no
    /// entries before the first publish.
    #[verifier::external_body]
    pub fn new() -> (r: Registry)
        ensures
            staged(r) == no_entries(),
            visible(r) == no_entries(),
    {
        let (writer, reader) = evmap::new();
        Registry { writer, reader }
    }

    /// Stages an upsert of `device` under `name`. Not visible to lookups
    /// until the next [`Registry::refresh`].
    ///
    /// Relies on `evmap::handles::WriteHandle::update`: replaces the key's value bag
    /// with the one given value, visible to readers only after the next
    /// publish.
    #[verifier::external_body]
    pub fn update(&mut self, name: String, device: Device)
        ensures
            staged(*final(self)) == staged(*old(self)).insert(name@, device@),
            visible(*final(self)) == visible(*old(self)),
    {
        self.writer.update(name, (device.name, device.index));
    }

    /// Atomically publishes all staged upserts as the new visible snapshot.
    ///
    /// Relies on `evmap::handles::WriteHandle::publish`: all changes since the last
    /// publish become visible to readers, and no others.
    #[verifier::external_body]
    pub fn refresh(&mut self)
        ensures
            staged(*final(self)) == staged(*old(self)),
            visible(*final(self)) == staged(*old(self)),
    {
        self.writer.publish();
    }

    /// Point lookup of a normalized name in the currently visible snapshot.
    ///
    /// Relies on `evmap::handles::ReadHandle::get_one`: answers from the published
    /// map only, `None` when the key is absent or nothing was published yet.
    #[verifier::external_body]
    pub fn get(&self, name: &str) -> (r: Option<Device>)
        ensures
            match r {
                Some(d) => visible(*self).contains_key(name@) && d@ == visible(*self)[name@],
                None => !visible(*self).contains_key(name@),
            },
    {
        self.reader.get_one(name).map(|g| Device { name: g.0.clone(), index: g.1 })
    }

    /// Every entry of the currently visible snapshot, each key once, in no
    /// particular order.
    ///
    /// Relies on `evmap::handles::ReadHandle::enter` and `MapReadRef::iter`: the
    /// iteration covers exactly the published entries, one value per key as
    /// maintained by `update`.
    #[verifier::external_body]
    pub fn iterate(&self) -> (r: Vec<(String, Device)>)
        ensures
            entries_match(visible(*self), r@),
    {
        let mut out = Vec::new();
        if let Some(guard) = self.reader.enter() {
            for (k, values) in guard.iter() {
                if let Some(v) = values.get_one() {
                    out.push((k.clone(), Device { name: v.0.clone(), index: v.1 }));
                }
            }
        }
        out
    }
}

/// Staging an upsert and publishing it makes the entry visible, and a staged
/// upsert changes nothing visible until the publish.
///
/// `r_up` is a registry as `r0` leaves `update(n, d)`, and `r_pub` one as
/// `r_up` leaves `refresh()`: lookups on `r_up` still answer from `r0`'s
/// snapshot, and on `r_pub` the name `n` answers `d`.
pub proof fn lemma_update_then_refresh(
    r0: Registry,
    r_up: Registry,
    r_pub: Registry,
    n: Seq<char>,
    d: DeviceView,
)
    requires
        staged(r_up) == staged(r0).insert(n, d),
        visible(r_up) == visible(r0),
        staged(r_pub) == staged(r_up),
        visible(r_pub) == staged(r_up),
    ensures
        visible(r_up) == visible(r0),
        visible(r_pub).contains_key(n),
        visible(r_pub)[n] == d,
{
}

} // verus!
