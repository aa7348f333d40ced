//! Host-side reload bookkeeping, as plain data and decisions.
//!
//! A map may be recompiled while its earlier geometry is still spawned.
//! The host folds its asset events into the set of maps that need
//! recompiling, and keys everything it spawned by (layer id, tileset first
//! gid) for chunk meshes and by object gid for sprites, so that a reload
//! can despawn exactly the stale instances and register the new ones.
//! Handles and entities are plain 64-bit ids here; the host owns the real
//! ones.

use vstd::prelude::*;

use crate::document::Tileset;
use crate::objects::ObjectGroup;

verus! {

/// An asset event for one map handle, as the host reports it.
#[derive(Clone, Copy, PartialEq, Eq, Structural, Debug)]
pub enum MapAssetEvent {
    Created { handle: u64 },
    Modified { handle: u64 },
    Removed { handle: u64 },
}

/// Fired once per successful compile of a map.
#[derive(Clone, Copy, PartialEq, Eq, Structural, Debug)]
pub struct MapReadyEvent {
    pub map_handle: u64,
    /// The optional parent entity everything was spawned under.
    pub map_entity_option: Option<u64>,
}

/// Fired once per spawned object placement.
#[derive(Clone, Copy, PartialEq, Eq, Structural, Debug)]
pub struct ObjectReadyEvent {
    pub entity: u64,
    pub map_handle: u64,
    pub map_entity_option: Option<u64>,
}

/// Index of the first occurrence of `x`.
pub open spec fn spec_find_handle(s: Seq<u64>, x: u64) -> Option<int>
    decreases s.len(),
{
    if s.len() == 0 {
        None
    } else if s[0] == x {
        Some(0int)
    } else {
        match spec_find_handle(s.drop_first(), x) {
            Some(i) => Some(i + 1),
            None => None,
        }
    }
}

/// The find succeeds exactly on the handles the sequence contains, and a
/// found index holds the handle.
pub proof fn lemma_find_handle_spec(s: Seq<u64>, x: u64)
    ensures
        (spec_find_handle(s, x) is Some) <==> s.contains(x),
        match spec_find_handle(s, x) {
            Some(i) => 0 <= i < s.len() && s[i] == x,
            None => true,
        },
    decreases s.len(),
{
    if s.len() > 0 {
        lemma_find_handle_spec(s.drop_first(), x);
        if s[0] != x {
            if s.drop_first().contains(x) {
                let i = choose|i: int| 0 <= i < s.drop_first().len() && s.drop_first()[i] == x;
                assert(s[i + 1] == x);
            }
            if s.contains(x) {
                let i = choose|i: int| 0 <= i < s.len() && s[i] == x;
                assert(s.drop_first()[i - 1] == x);
            }
        }
    }
}

proof fn lemma_find_handle_hit(s: Seq<u64>, x: u64, i: int)
    requires
        0 <= i < s.len(),
        s[i] == x,
        forall|k: int| 0 <= k < i ==> s[k] != x,
    ensures
        spec_find_handle(s, x) == Some(i),
    decreases i,
{
    if i > 0 {
        lemma_find_handle_hit(s.drop_first(), x, i - 1);
    }
}

proof fn lemma_find_handle_miss(s: Seq<u64>, x: u64)
    requires
        forall|k: int| 0 <= k < s.len() ==> s[k] != x,
    ensures
        spec_find_handle(s, x) is None,
    decreases s.len(),
{
    if s.len() > 0 {
        lemma_find_handle_miss(s.drop_first(), x);
    }
}

/// Index of the first occurrence of `x` in the vector.
fn find_handle(v: &Vec<u64>, x: u64) -> (r: Option<usize>)
    ensures
        match r {
            Some(i) => spec_find_handle(v@, x) == Some(i as int),
            None => spec_find_handle(v@, x) is None,
        },
{
    let n = v.len();
    let mut i: usize = 0;
    while i < n
        invariant
            n == v@.len(),
            i <= n,
            forall|k: int| 0 <= k < i ==> v@[k] != x,
        decreases n - i,
    {
        if v[i] == x {
            proof {
                lemma_find_handle_hit(v@, x, i as int);
            }
            return Some(i);
        }
        i = i + 1;
    }
    proof {
        lemma_find_handle_miss(v@, x);
    }
    None
}

/// The maps that need recompiling after the first `k` events: a created
/// or modified map joins the set (once), a removed map leaves it — a
/// removal discards any earlier modification, and later events stand on
/// their own.
pub open spec fn spec_changed_maps(events: Seq<MapAssetEvent>, k: int) -> Seq<u64>
    decreases k,
{
    if k <= 0 {
        seq![]
    } else {
        let prev = spec_changed_maps(events, k - 1);
        match events[k - 1] {
            MapAssetEvent::Created { handle } => if prev.contains(handle) {
                prev
            } else {
                prev.push(handle)
            },
            MapAssetEvent::Modified { handle } => if prev.contains(handle) {
                prev
            } else {
                prev.push(handle)
            },
            MapAssetEvent::Removed { handle } => match spec_find_handle(prev, handle) {
                Some(i) => prev.remove(i),
                None => prev,
            },
        }
    }
}

/// The changed-map list never names a map twice: a handle joins only when
/// absent, and a removal only shortens the list.
pub proof fn lemma_changed_maps_no_duplicates(events: Seq<MapAssetEvent>, k: int)
    ensures
        spec_changed_maps(events, k).no_duplicates(),
    decreases k,
{
    if k <= 0 {
        assert(spec_changed_maps(events, k) =~= Seq::<u64>::empty());
    } else {
        lemma_changed_maps_no_duplicates(events, k - 1);
        let prev = spec_changed_maps(events, k - 1);
        match events[k - 1] {
            MapAssetEvent::Created { handle } => {},
            MapAssetEvent::Modified { handle } => {},
            MapAssetEvent::Removed { handle } => {
                match spec_find_handle(prev, handle) {
                    Some(i) => {
                        lemma_find_handle_spec(prev, handle);
                        let shorter = prev.remove(i);
                        assert forall|x: int, y: int|
                            0 <= x < y < shorter.len() implies shorter[x] != shorter[y] by {
                            let xo = if x < i { x } else { x + 1 };
                            let yo = if y < i { y } else { y + 1 };
                            assert(shorter[x] == prev[xo] && shorter[y] == prev[yo]);
                        }
                    },
                    None => {},
                }
            },
        }
    }
}

/// Folds a batch of asset events into the list of maps to recompile, in
/// first-seen order and without duplicates.
pub fn fold_map_events(events: &Vec<MapAssetEvent>) -> (r: Vec<u64>)
    ensures
        r@ == spec_changed_maps(events@, events@.len() as int),
        r@.no_duplicates(),
{
    proof {
        lemma_changed_maps_no_duplicates(events@, events@.len() as int);
    }
    let mut changed: Vec<u64> = Vec::new();
    let n = events.len();
    let mut k: usize = 0;
    while k < n
        invariant
            n == events@.len(),
            k <= n,
            changed@ == spec_changed_maps(events@, k as int),
        decreases n - k,
    {
        let ev = events[k];
        match ev {
            MapAssetEvent::Created { handle } => {
                proof {
                    lemma_find_handle_spec(changed@, handle);
                }
                if find_handle(&changed, handle).is_none() {
                    changed.push(handle);
                }
            },
            MapAssetEvent::Modified { handle } => {
                proof {
                    lemma_find_handle_spec(changed@, handle);
                }
                if find_handle(&changed, handle).is_none() {
                    changed.push(handle);
                }
            },
            MapAssetEvent::Removed { handle } => {
                proof {
                    lemma_find_handle_spec(changed@, handle);
                }
                match find_handle(&changed, handle) {
                    Some(i) => {
                        changed.remove(i);
                    },
                    None => {},
                }
            },
        }
        k = k + 1;
    }
    changed
}

/// Index of the entry with the given chunk key.
pub open spec fn spec_find_layer_key(
    s: Seq<((u32, u32), Vec<u64>)>,
    key: (u32, u32),
) -> Option<int>
    decreases s.len(),
{
    if s.len() == 0 {
        None
    } else if s[0].0 == key {
        Some(0int)
    } else {
        match spec_find_layer_key(s.drop_first(), key) {
            Some(i) => Some(i + 1),
            None => None,
        }
    }
}

proof fn lemma_find_layer_key_hit(s: Seq<((u32, u32), Vec<u64>)>, key: (u32, u32), i: int)
    requires
        0 <= i < s.len(),
        s[i].0 == key,
        forall|k: int| 0 <= k < i ==> (#[trigger] s[k]).0 != key,
    ensures
        spec_find_layer_key(s, key) == Some(i),
    decreases i,
{
    if i > 0 {
        lemma_find_layer_key_hit(s.drop_first(), key, i - 1);
    }
}

proof fn lemma_find_layer_key_miss(s: Seq<((u32, u32), Vec<u64>)>, key: (u32, u32))
    requires
        forall|k: int| 0 <= k < s.len() ==> (#[trigger] s[k]).0 != key,
    ensures
        spec_find_layer_key(s, key) is None,
    decreases s.len(),
{
    if s.len() > 0 {
        lemma_find_layer_key_miss(s.drop_first(), key);
    }
}

/// A found index is in range and holds the key.
pub proof fn lemma_find_layer_key_sound(s: Seq<((u32, u32), Vec<u64>)>, key: (u32, u32))
    ensures
        match spec_find_layer_key(s, key) {
            Some(i) => 0 <= i < s.len() && s[i].0 == key,
            None => true,
        },
    decreases s.len(),
{
    if s.len() > 0 && s[0].0 != key {
        lemma_find_layer_key_sound(s.drop_first(), key);
    }
}

/// The record of what a map's last compile spawned, keyed so that a
/// reload can despawn exactly the stale instances: chunk meshes by
/// (layer id, tileset first gid), object sprites by object gid.
pub struct CreatedMapEntities {
    /// Chunk-mesh entities per (layer id, tileset first gid).
    pub created_layer_entities: Vec<((u32, u32), Vec<u64>)>,
    /// Object-sprite entities per object gid.
    pub created_object_entities: Vec<(u32, Vec<u64>)>,
}

impl CreatedMapEntities {
    /// Each key appears at most once.
    pub open spec fn wf(&self) -> bool {
        &&& forall|i: int, j: int|
            0 <= i < j < self.created_layer_entities@.len() ==> (
            #[trigger] self.created_layer_entities@[i]).0 != (
            #[trigger] self.created_layer_entities@[j]).0
        &&& forall|i: int, j: int|
            0 <= i < j < self.created_object_entities@.len() ==> (
            #[trigger] self.created_object_entities@[i]).0 != (
            #[trigger] self.created_object_entities@[j]).0
    }

    /// An empty record: nothing spawned yet.
    pub fn new() -> (r: CreatedMapEntities)
        ensures
            r.wf(),
            r.created_layer_entities@.len() == 0,
            r.created_object_entities@.len() == 0,
    {
        CreatedMapEntities { created_layer_entities: Vec::new(), created_object_entities: Vec::new() }
    }

    /// Takes the chunk-mesh entities recorded under a key out of the
    /// record and returns them (empty when the key is absent) — the
    /// caller despawns them before registering replacements.
    pub fn remove_layer_entities(&mut self, layer_id: u32, tileset_guid: u32) -> (r: Vec<u64>)
        requires
            old(self).wf(),
        ensures
            final(self).wf(),
            final(self).created_object_entities == old(self).created_object_entities,
            match spec_find_layer_key(
                old(self).created_layer_entities@,
                (layer_id, tileset_guid),
            ) {
                Some(i) => final(self).created_layer_entities@ == old(
                    self,
                ).created_layer_entities@.remove(i) && r == old(self).created_layer_entities@[i].1,
                None => *final(self) == *old(self) && r@.len() == 0,
            },
    {
        proof {
            lemma_find_layer_key_sound(self.created_layer_entities@, (layer_id, tileset_guid));
        }
        match Self::find_layer_key(&self.created_layer_entities, layer_id, tileset_guid) {
            Some(i) => {
                let entry = self.created_layer_entities.remove(i);
                proof {
                    let s = old(self).created_layer_entities@;
                    assert forall|x: int, y: int|
                        0 <= x < y < s.remove(i as int).len() implies (#[trigger] s.remove(
                        i as int,
                    )[x]).0 != (#[trigger] s.remove(i as int)[y]).0 by {
                        let xo = if x < i { x } else { x + 1 };
                        let yo = if y < i { y } else { y + 1 };
                        assert(s.remove(i as int)[x] == s[xo] && s.remove(i as int)[y] == s[yo]);
                    }
                }
                entry.1
            },
            None => Vec::new(),
        }
    }

    /// Records one freshly spawned chunk-mesh entity under its key.
    pub fn insert_layer_entity(&mut self, layer_id: u32, tileset_guid: u32, entity: u64)
        requires
            old(self).wf(),
        ensures
            final(self).wf(),
            final(self).created_object_entities == old(self).created_object_entities,
            match spec_find_layer_key(
                old(self).created_layer_entities@,
                (layer_id, tileset_guid),
            ) {
                Some(i) => {
                    &&& final(self).created_layer_entities@.len()
                        == old(self).created_layer_entities@.len()
                    &&& final(self).created_layer_entities@[i].0 == (layer_id, tileset_guid)
                    &&& final(self).created_layer_entities@[i].1@
                        == old(self).created_layer_entities@[i].1@.push(entity)
                    &&& forall|j: int|
                        0 <= j < old(self).created_layer_entities@.len() && j != i
                            ==> final(self).created_layer_entities@[j]
                            == old(self).created_layer_entities@[j]
                },
                None => {
                    &&& final(self).created_layer_entities@.len()
                        == old(self).created_layer_entities@.len() + 1
                    &&& final(self).created_layer_entities@.last().0 == (layer_id, tileset_guid)
                    &&& final(self).created_layer_entities@.last().1@ == seq![entity]
                    &&& forall|j: int|
                        0 <= j < old(self).created_layer_entities@.len()
                            ==> final(self).created_layer_entities@[j]
                            == old(self).created_layer_entities@[j]
                },
            },
    {
        proof {
            lemma_find_layer_key_sound(self.created_layer_entities@, (layer_id, tileset_guid));
        }
        match Self::find_layer_key(&self.created_layer_entities, layer_id, tileset_guid) {
            Some(i) => {
                let mut entry = self.created_layer_entities.remove(i);
                entry.1.push(entity);
                self.created_layer_entities.insert(i, entry);
                proof {
                    let s = old(self).created_layer_entities@;
                    let t = self.created_layer_entities@;
                    assert(t =~= s.update(i as int, t[i as int]));
                    assert forall|x: int, y: int|
                        0 <= x < y < t.len() implies (#[trigger] t[x]).0 != (#[trigger] t[y]).0 by {
                        assert(t[x].0 == s[x].0 && t[y].0 == s[y].0);
                    }
                }
            },
            None => {
                let mut entities: Vec<u64> = Vec::new();
                entities.push(entity);
                self.created_layer_entities.push(((layer_id, tileset_guid), entities));
                proof {
                    lemma_find_layer_key_none_means_absent(
                        old(self).created_layer_entities@,
                        (layer_id, tileset_guid),
                    );
                }
            },
        }
    }

    /// Takes the sprite entities recorded under an object gid out of the
    /// record and returns them (empty when the gid is absent).
    pub fn remove_object_entities(&mut self, gid: u32) -> (r: Vec<u64>)
        requires
            old(self).wf(),
        ensures
            final(self).wf(),
            final(self).created_layer_entities == old(self).created_layer_entities,
            match spec_find_object_key(old(self).created_object_entities@, gid) {
                Some(i) => final(self).created_object_entities@ == old(
                    self,
                ).created_object_entities@.remove(i) && r == old(self).created_object_entities@[
                    i
                ].1,
                None => *final(self) == *old(self) && r@.len() == 0,
            },
    {
        proof {
            lemma_find_object_key_sound(self.created_object_entities@, gid);
        }
        match Self::find_object_key(&self.created_object_entities, gid) {
            Some(i) => {
                let entry = self.created_object_entities.remove(i);
                proof {
                    let s = old(self).created_object_entities@;
                    assert forall|x: int, y: int|
                        0 <= x < y < s.remove(i as int).len() implies (#[trigger] s.remove(
                        i as int,
                    )[x]).0 != (#[trigger] s.remove(i as int)[y]).0 by {
                        let xo = if x < i { x } else { x + 1 };
                        let yo = if y < i { y } else { y + 1 };
                        assert(s.remove(i as int)[x] == s[xo] && s.remove(i as int)[y] == s[yo]);
                    }
                }
                entry.1
            },
            None => Vec::new(),
        }
    }

    /// Records one freshly spawned object-sprite entity under its gid.
    pub fn insert_object_entity(&mut self, gid: u32, entity: u64)
        requires
            old(self).wf(),
        ensures
            final(self).wf(),
            final(self).created_layer_entities == old(self).created_layer_entities,
            match spec_find_object_key(old(self).created_object_entities@, gid) {
                Some(i) => {
                    &&& final(self).created_object_entities@.len()
                        == old(self).created_object_entities@.len()
                    &&& final(self).created_object_entities@[i].0 == gid
                    &&& final(self).created_object_entities@[i].1@
                        == old(self).created_object_entities@[i].1@.push(entity)
                    &&& forall|j: int|
                        0 <= j < old(self).created_object_entities@.len() && j != i
                            ==> final(self).created_object_entities@[j]
                            == old(self).created_object_entities@[j]
                },
                None => {
                    &&& final(self).created_object_entities@.len()
                        == old(self).created_object_entities@.len() + 1
                    &&& final(self).created_object_entities@.last().0 == gid
                    &&& final(self).created_object_entities@.last().1@ == seq![entity]
                    &&& forall|j: int|
                        0 <= j < old(self).created_object_entities@.len()
                            ==> final(self).created_object_entities@[j]
                            == old(self).created_object_entities@[j]
                },
            },
    {
        proof {
            lemma_find_object_key_sound(self.created_object_entities@, gid);
        }
        match Self::find_object_key(&self.created_object_entities, gid) {
            Some(i) => {
                let mut entry = self.created_object_entities.remove(i);
                entry.1.push(entity);
                self.created_object_entities.insert(i, entry);
                proof {
                    let s = old(self).created_object_entities@;
                    let t = self.created_object_entities@;
                    assert(t =~= s.update(i as int, t[i as int]));
                    assert forall|x: int, y: int|
                        0 <= x < y < t.len() implies (#[trigger] t[x]).0 != (#[trigger] t[y]).0 by {
                        assert(t[x].0 == s[x].0 && t[y].0 == s[y].0);
                    }
                }
            },
            None => {
                let mut entities: Vec<u64> = Vec::new();
                entities.push(entity);
                self.created_object_entities.push((gid, entities));
                proof {
                    lemma_find_object_key_none_means_absent(
                        old(self).created_object_entities@,
                        gid,
                    );
                }
            },
        }
    }

    /// Index of the entry with the given object gid.
    fn find_object_key(v: &Vec<(u32, Vec<u64>)>, gid: u32) -> (r: Option<usize>)
        ensures
            match r {
                Some(i) => spec_find_object_key(v@, gid) == Some(i as int),
                None => spec_find_object_key(v@, gid) is None,
            },
    {
        let n = v.len();
        let mut i: usize = 0;
        while i < n
            invariant
                n == v@.len(),
                i <= n,
                forall|k: int| 0 <= k < i ==> (#[trigger] v@[k]).0 != gid,
            decreases n - i,
        {
            if v[i].0 == gid {
                proof {
                    lemma_find_object_key_hit(v@, gid, i as int);
                }
                return Some(i);
            }
            i = i + 1;
        }
        proof {
            lemma_find_object_key_miss(v@, gid);
        }
        None
    }

    /// Index of the entry with the given chunk key.
    fn find_layer_key(v: &Vec<((u32, u32), Vec<u64>)>, layer_id: u32, tileset_guid: u32) -> (r:
        Option<usize>)
        ensures
            match r {
                Some(i) => spec_find_layer_key(v@, (layer_id, tileset_guid)) == Some(i as int),
                None => spec_find_layer_key(v@, (layer_id, tileset_guid)) is None,
            },
    {
        let n = v.len();
        let mut i: usize = 0;
        while i < n
            invariant
                n == v@.len(),
                i <= n,
                forall|k: int|
                    0 <= k < i ==> (#[trigger] v@[k]).0 != (layer_id, tileset_guid),
            decreases n - i,
        {
            let entry = &v[i];
            if entry.0.0 == layer_id && entry.0.1 == tileset_guid {
                proof {
                    lemma_find_layer_key_hit(v@, (layer_id, tileset_guid), i as int);
                }
                return Some(i);
            }
            i = i + 1;
        }
        proof {
            lemma_find_layer_key_miss(v@, (layer_id, tileset_guid));
        }
        None
    }
}

/// Index of the entry with the given object gid.
pub open spec fn spec_find_object_key(s: Seq<(u32, Vec<u64>)>, gid: u32) -> Option<int>
    decreases s.len(),
{
    if s.len() == 0 {
        None
    } else if s[0].0 == gid {
        Some(0int)
    } else {
        match spec_find_object_key(s.drop_first(), gid) {
            Some(i) => Some(i + 1),
            None => None,
        }
    }
}

proof fn lemma_find_object_key_hit(s: Seq<(u32, Vec<u64>)>, gid: u32, i: int)
    requires
        0 <= i < s.len(),
        s[i].0 == gid,
        forall|k: int| 0 <= k < i ==> (#[trigger] s[k]).0 != gid,
    ensures
        spec_find_object_key(s, gid) == Some(i),
    decreases i,
{
    if i > 0 {
        lemma_find_object_key_hit(s.drop_first(), gid, i - 1);
    }
}

proof fn lemma_find_object_key_miss(s: Seq<(u32, Vec<u64>)>, gid: u32)
    requires
        forall|k: int| 0 <= k < s.len() ==> (#[trigger] s[k]).0 != gid,
    ensures
        spec_find_object_key(s, gid) is None,
    decreases s.len(),
{
    if s.len() > 0 {
        lemma_find_object_key_miss(s.drop_first(), gid);
    }
}

/// A found index is in range and holds the gid.
pub proof fn lemma_find_object_key_sound(s: Seq<(u32, Vec<u64>)>, gid: u32)
    ensures
        match spec_find_object_key(s, gid) {
            Some(i) => 0 <= i < s.len() && s[i].0 == gid,
            None => true,
        },
    decreases s.len(),
{
    if s.len() > 0 && s[0].0 != gid {
        lemma_find_object_key_sound(s.drop_first(), gid);
    }
}

proof fn lemma_find_object_key_none_means_absent(s: Seq<(u32, Vec<u64>)>, gid: u32)
    requires
        spec_find_object_key(s, gid) is None,
    ensures
        forall|k: int| 0 <= k < s.len() ==> (#[trigger] s[k]).0 != gid,
    decreases s.len(),
{
    if s.len() > 0 {
        lemma_find_object_key_none_means_absent(s.drop_first(), gid);
        assert forall|k: int| 0 <= k < s.len() implies (#[trigger] s[k]).0 != gid by {
            if k > 0 {
                assert(s.drop_first()[k - 1] == s[k]);
            }
        }
    }
}

/// An absent key occurs in no entry.
proof fn lemma_find_layer_key_none_means_absent(s: Seq<((u32, u32), Vec<u64>)>, key: (u32, u32))
    requires
        spec_find_layer_key(s, key) is None,
    ensures
        forall|k: int| 0 <= k < s.len() ==> (#[trigger] s[k]).0 != key,
    decreases s.len(),
{
    if s.len() > 0 {
        lemma_find_layer_key_none_means_absent(s.drop_first(), key);
        assert forall|k: int| 0 <= k < s.len() implies (#[trigger] s[k]).0 != key by {
            if k > 0 {
                assert(s.drop_first()[k - 1] == s[k]);
            }
        }
    }
}

/// The sprite grid the host's texture atlas slices a tileset sheet into:
/// full columns and rows of the sheet at the tile size (the atlas ignores
/// spacing).
pub fn atlas_grid(tileset: &Tileset) -> (r: (u32, u32))
    requires
        tileset@.wf(),
        tileset.images.len() >= 1,
    ensures
        r.0 as int == tileset@.images[0].width as int / tileset@.tile_width as int,
        r.1 as int == tileset@.images[0].height as int / tileset@.tile_height as int,
{
    let img = &tileset.images[0];
    (img.width / tileset.tile_width, img.height / tileset.tile_height)
}

/// Whether any resolved object references the tileset with this first
/// gid — only those tilesets need a texture atlas.
pub fn tileset_used_by_objects(groups: &Vec<ObjectGroup>, first_gid: u32) -> (r: bool)
    ensures
        r == exists|g: int, o: int|
            0 <= g < groups@.len() && 0 <= o < groups@[g]@.objects.len() && (
            #[trigger] groups@[g]@.objects[o]).tileset_gid == Some(first_gid),
{
    let ng = groups.len();
    let mut g: usize = 0;
    while g < ng
        invariant
            ng == groups@.len(),
            g <= ng,
            forall|x: int, o: int|
                0 <= x < g && 0 <= o < groups@[x]@.objects.len() ==> (
                #[trigger] groups@[x]@.objects[o]).tileset_gid != Some(first_gid),
        decreases ng - g,
    {
        let group = &groups[g];
        let no = group.objects.len();
        let mut o: usize = 0;
        while o < no
            invariant
                ng == groups@.len(),
                g < ng,
                no == groups@[g as int]@.objects.len(),
                *group == groups@[g as int],
                o <= no,
                forall|k: int|
                    0 <= k < o ==> (#[trigger] groups@[g as int]@.objects[k]).tileset_gid != Some(
                        first_gid,
                    ),
            decreases no - o,
        {
            match group.objects[o].tileset_gid {
                Some(f) => {
                    if f == first_gid {
                        proof {
                            assert(groups@[g as int]@.objects[o as int]
                                == group.objects@[o as int]@);
                            assert(groups@[g as int]@.objects[o as int].tileset_gid == Some(
                                first_gid,
                            ));
                        }
                        return true;
                    }
                },
                None => {},
            }
            o = o + 1;
        }
        g = g + 1;
    }
    false
}

} // verus!
