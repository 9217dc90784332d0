//! Skeleton retargeting: map source-skeleton bones onto a target skeleton.

use vstd::prelude::*;

verus! {

/// One source→target bone mapping.
#[derive(Clone, Copy, Debug, PartialEq, Eq, Structural)]
pub struct RetargetEntry {
    /// Source-skeleton bone index.
    pub source: usize,
    /// Target-skeleton bone index.
    pub target: usize,
}

/// A pose: one local transform per bone, in bone order.
#[derive(Clone, Debug, Default)]
pub struct SkeletonPose<B> {
    /// Bone transforms in bone order.
    pub bones: Vec<B>,
}

/// A retarget map applied to copy a pose from one skeleton to another.
#[derive(Clone, Debug, Default)]
pub struct RetargetMap {
    /// Mapping entries in source order.
    pub entries: Vec<RetargetEntry>,
}

/// The entries built from the first `n` source names: each source bone whose
/// name occurs among the target names maps to the first target bone of that
/// name.
pub open spec fn name_entries(source: Seq<Seq<char>>, target: Seq<Seq<char>>, n: int) -> Seq<
    RetargetEntry,
>
    decreases n,
{
    if n <= 0 {
        Seq::empty()
    } else {
        let before = name_entries(source, target, n - 1);
        match target.index_of_first(source[n - 1]) {
            Some(t) => before.push(RetargetEntry { source: (n - 1) as usize, target: t as usize }),
            None => before,
        }
    }
}

/// The target bones after applying `entries` in order: an entry whose source
/// and target bones both exist copies the source bone over the target bone.
pub open spec fn retarget_bones<B>(entries: Seq<RetargetEntry>, source: Seq<B>, target: Seq<B>) -> Seq<
    B,
>
    decreases entries.len(),
{
    if entries.len() == 0 {
        target
    } else {
        let before = retarget_bones(entries.drop_last(), source, target);
        let e = entries.last();
        if e.source < source.len() && e.target < before.len() {
            before.update(e.target as int, source[e.source as int])
        } else {
            before
        }
    }
}

/// The views of a slice of strings.
pub open spec fn name_views(names: Seq<String>) -> Seq<Seq<char>> {
    names.map_values(|s: String| s@)
}

impl RetargetMap {
    /// Builds a map by matching bone names between `source_names` and
    /// `target_names`.
    pub fn from_names(source_names: &[String], target_names: &[String]) -> (map: Self)
        ensures
            map.entries@ == name_entries(
                name_views(source_names@),
                name_views(target_names@),
                source_names@.len() as int,
            ),
    {
        let ghost src = name_views(source_names@);
        let ghost tgt = name_views(target_names@);
        let mut entries: Vec<RetargetEntry> = Vec::new();
        let mut s: usize = 0;
        while s < source_names.len()
            invariant
                s <= source_names@.len(),
                src == name_views(source_names@),
                tgt == name_views(target_names@),
                entries@ == name_entries(src, tgt, s as int),
            decreases source_names@.len() - s,
        {
            let found = first_name_match(target_names, &source_names[s]);
            proof {
                tgt.index_of_first_ensures(src[s as int]);
                assert(src[s as int] == source_names@[s as int]@);
                match tgt.index_of_first(src[s as int]) {
                    Some(t) => {
                        match found {
                            Some(f) => {
                                assert(tgt[f as int] == target_names@[f as int]@);
                                assert(tgt[t] == target_names@[t]@);
                                assert(f == t);
                            },
                            None => {
                                assert(tgt[t] == target_names@[t]@);
                            },
                        }
                    },
                    None => {
                        match found {
                            Some(f) => {
                                assert(tgt[f as int] == target_names@[f as int]@);
                                assert(tgt.contains(src[s as int]));
                            },
                            None => {},
                        }
                    },
                }
            }
            match found {
                Some(t) => {
                    entries.push(RetargetEntry { source: s, target: t });
                },
                None => {},
            }
            s = s + 1;
        }
        RetargetMap { entries }
    }

    /// Adds an explicit source→target entry.
    pub fn with_entry(self, source: usize, target: usize) -> (map: Self)
        ensures
            map.entries@ == self.entries@.push(RetargetEntry { source, target }),
    {
        let mut map = self;
        map.entries.push(RetargetEntry { source, target });
        map
    }

    /// Copies `source` pose bones into `target` according to the map.
    ///
    /// Unmapped target bones keep their existing transforms.
    pub fn apply<B: Copy>(&self, source: &SkeletonPose<B>, target: &mut SkeletonPose<B>)
        ensures
            final(target).bones@ == retarget_bones(
                self.entries@,
                source.bones@,
                old(target).bones@,
            ),
    {
        let mut i: usize = 0;
        while i < self.entries.len()
            invariant
                i <= self.entries@.len(),
                target.bones@ == retarget_bones(
                    self.entries@.take(i as int),
                    source.bones@,
                    old(target).bones@,
                ),
            decreases self.entries@.len() - i,
        {
            let e = self.entries[i];
            proof {
                assert(self.entries@.take(i as int + 1).drop_last() =~= self.entries@.take(
                    i as int,
                ));
            }
            if e.source < source.bones.len() && e.target < target.bones.len() {
                let b = source.bones[e.source];
                target.bones.set(e.target, b);
            }
            i = i + 1;
        }
        proof {
            assert(self.entries@.take(self.entries@.len() as int) =~= self.entries@);
        }
    }
}

/// Index of the first name in `names` equal to `name`.
fn first_name_match(names: &[String], name: &String) -> (found: Option<usize>)
    ensures
        match found {
            Some(t) => {
                &&& t < names@.len()
                &&& names@[t as int]@ == name@
                &&& forall|j: int| 0 <= j < t ==> names@[j]@ != name@
            },
            None => forall|j: int| 0 <= j < names@.len() ==> names@[j]@ != name@,
        },
{
    let mut t: usize = 0;
    while t < names.len()
        invariant
            t <= names@.len(),
            forall|j: int| 0 <= j < t ==> names@[j]@ != name@,
        decreases names@.len() - t,
    {
        if names[t] == *name {
            return Some(t);
        }
        t = t + 1;
    }
    None
}

/// Unmapped target bones keep their existing transforms; a mapped target bone
/// receives the source bone named by the last entry that maps onto it with an
/// existing source bone.
pub proof fn lemma_retarget_last_writer<B>(
    entries: Seq<RetargetEntry>,
    source: Seq<B>,
    target: Seq<B>,
    j: int,
)
    requires
        0 <= j < target.len(),
    ensures
        retarget_bones(entries, source, target).len() == target.len(),
        (forall|k: int|
            0 <= k < entries.len() ==> !(entries[k].target == j && entries[k].source
                < source.len())) ==> retarget_bones(entries, source, target)[j] == target[j],
        forall|k: int|
            #![trigger entries[k]]
            0 <= k < entries.len() && entries[k].target == j && entries[k].source < source.len()
                && (forall|m: int|
                k < m < entries.len() ==> !(entries[m].target == j && entries[m].source
                    < source.len())) ==> retarget_bones(entries, source, target)[j]
                == source[entries[k].source as int],
    decreases entries.len(),
{
    if entries.len() > 0 {
        let init = entries.drop_last();
        lemma_retarget_last_writer(init, source, target, j);
        assert forall|k: int|
            #![trigger entries[k]]
            0 <= k < entries.len() && entries[k].target == j && entries[k].source < source.len()
                && (forall|m: int|
                k < m < entries.len() ==> !(entries[m].target == j && entries[m].source
                    < source.len())) implies retarget_bones(entries, source, target)[j]
            == source[entries[k].source as int] by {
            if k < entries.len() - 1 {
                assert(init[k] == entries[k]);
                assert forall|m: int| k < m < init.len() implies !(init[m].target == j
                    && init[m].source < source.len()) by {
                    assert(init[m] == entries[m]);
                }
            }
        }
        if forall|k: int|
            0 <= k < entries.len() ==> !(entries[k].target == j && entries[k].source
                < source.len()) {
            assert forall|k: int| 0 <= k < init.len() implies !(init[k].target == j
                && init[k].source < source.len()) by {
                assert(init[k] == entries[k]);
            }
        }
    }
}

} // verus!
