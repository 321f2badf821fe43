//! The local sector data that reconciliation updates: airports, VORs, NDBs
//! and fixes of a sector file, and the intersection list, which may hold
//! several fixes under one designator.
use vstd::prelude::*;

use crate::message::Message;
use crate::reconcile::{isec_reconciled, named_fix, update_fixes};

verus! {

#[derive(Debug)]
pub struct LocalAirport<C> {
    pub designator: String,
    pub coordinate: C,
    /// The class of the controlled airspace around the airport.
    pub ctr_airspace: String,
}

/// A VOR or an NDB; `frequency` as written in the sector file, three decimals.
#[derive(Debug)]
pub struct LocalNavaid<C> {
    pub designator: String,
    pub coordinate: C,
    pub frequency: String,
}

#[derive(Debug)]
pub struct LocalFix<C> {
    pub designator: String,
    pub coordinate: C,
}

/// The entity lists of a sector file.
#[derive(Debug)]
pub struct SectorData<C> {
    pub airports: Vec<LocalAirport<C>>,
    pub vors: Vec<LocalNavaid<C>>,
    pub ndbs: Vec<LocalNavaid<C>>,
    pub fixes: Vec<LocalFix<C>>,
}

/// The fixes filed under one designator.
#[derive(Debug)]
pub struct FixBucket<C> {
    pub designator: String,
    pub fixes: Vec<LocalFix<C>>,
}

/// Fixes by designator; one designator may name fixes at several places.
#[derive(Debug)]
pub struct IntersectionMap<C> {
    buckets: Vec<FixBucket<C>>,
}

/// The designators of the buckets are pairwise distinct.
pub open spec fn keys_unique<C>(bs: Seq<FixBucket<C>>) -> bool {
    forall|i: int, j: int|
        0 <= i < bs.len() && 0 <= j < bs.len() && i != j ==> (#[trigger] bs[i]).designator@
            != (#[trigger] bs[j]).designator@
}

/// The map that a list of buckets stands for.
pub open spec fn bucket_map<C>(bs: Seq<FixBucket<C>>) -> Map<Seq<char>, Seq<LocalFix<C>>>
    decreases bs.len(),
{
    if bs.len() == 0 {
        Map::empty()
    } else {
        bucket_map(bs.drop_last()).insert(bs.last().designator@, bs.last().fixes@)
    }
}

/// The fixes filed under `key`, none when the key is absent.
pub open spec fn filed_under<C>(m: Map<Seq<char>, Seq<LocalFix<C>>>, key: Seq<char>) -> Seq<
    LocalFix<C>,
> {
    if m.contains_key(key) {
        m[key]
    } else {
        Seq::empty()
    }
}

proof fn lemma_bucket_map_lookup<C>(bs: Seq<FixBucket<C>>, key: Seq<char>)
    requires
        keys_unique(bs),
    ensures
        bucket_map(bs).contains_key(key) <==> exists|i: int|
            0 <= i < bs.len() && (#[trigger] bs[i]).designator@ == key,
        forall|i: int|
            0 <= i < bs.len() && (#[trigger] bs[i]).designator@ == key ==> bucket_map(bs)[key]
                == bs[i].fixes@,
    decreases bs.len(),
{
    if bs.len() > 0 {
        let prefix = bs.drop_last();
        assert(keys_unique(prefix)) by {
            assert forall|i: int, j: int|
                0 <= i < prefix.len() && 0 <= j < prefix.len() && i != j implies (
                #[trigger] prefix[i]).designator@ != (#[trigger] prefix[j]).designator@ by {
                assert(prefix[i] == bs[i] && prefix[j] == bs[j]);
            }
        }
        lemma_bucket_map_lookup(prefix, key);
        if bucket_map(bs).contains_key(key) && bs.last().designator@ != key {
            let i = choose|i: int| 0 <= i < prefix.len() && (#[trigger] prefix[i]).designator@ == key;
            assert(bs[i] == prefix[i]);
        }
        assert forall|i: int| 0 <= i < bs.len() && (#[trigger] bs[i]).designator@ == key implies bucket_map(
            bs,
        )[key] == bs[i].fixes@ by {
            if i < bs.len() - 1 {
                assert(bs[i] == prefix[i]);
                assert(bs[bs.len() - 1].designator@ != key);
            }
        }
        if exists|i: int| 0 <= i < bs.len() && (#[trigger] bs[i]).designator@ == key {
            let i = choose|i: int| 0 <= i < bs.len() && (#[trigger] bs[i]).designator@ == key;
            if i < bs.len() - 1 {
                assert(prefix[i] == bs[i]);
            }
        }
    }
}

proof fn lemma_bucket_map_update<C>(bs: Seq<FixBucket<C>>, i: int, b: FixBucket<C>)
    requires
        keys_unique(bs),
        0 <= i < bs.len(),
        b.designator@ == bs[i].designator@,
    ensures
        keys_unique(bs.update(i, b)),
        bucket_map(bs.update(i, b)) == bucket_map(bs).insert(b.designator@, b.fixes@),
{
    let nbs = bs.update(i, b);
    assert(keys_unique(nbs)) by {
        assert forall|x: int, y: int|
            0 <= x < nbs.len() && 0 <= y < nbs.len() && x != y implies (
            #[trigger] nbs[x]).designator@ != (#[trigger] nbs[y]).designator@ by {
            assert(bs[x].designator@ == nbs[x].designator@);
            assert(bs[y].designator@ == nbs[y].designator@);
        }
    }
    assert forall|k: Seq<char>| #[trigger] bucket_map(nbs).contains_key(k) == bucket_map(bs).insert(
        b.designator@,
        b.fixes@,
    ).contains_key(k) by {
        lemma_bucket_map_lookup(nbs, k);
        lemma_bucket_map_lookup(bs, k);
        if bucket_map(nbs).contains_key(k) {
            let x = choose|x: int| 0 <= x < nbs.len() && (#[trigger] nbs[x]).designator@ == k;
            assert(bs[x].designator@ == k);
        }
        if bucket_map(bs).contains_key(k) {
            let x = choose|x: int| 0 <= x < bs.len() && (#[trigger] bs[x]).designator@ == k;
            assert(nbs[x].designator@ == k);
        }
        if k == b.designator@ {
            assert(nbs[i].designator@ == k);
        }
    }
    assert forall|k: Seq<char>| #[trigger] bucket_map(nbs).contains_key(k) implies bucket_map(nbs)[k]
        == bucket_map(bs).insert(b.designator@, b.fixes@)[k] by {
        lemma_bucket_map_lookup(nbs, k);
        lemma_bucket_map_lookup(bs, k);
        let x = choose|x: int| 0 <= x < nbs.len() && (#[trigger] nbs[x]).designator@ == k;
        assert(bs[x].designator@ == k);
        if x == i {
            assert(nbs[i] == b);
        } else {
            assert(nbs[x] == bs[x]);
        }
    }
    assert(bucket_map(nbs) =~= bucket_map(bs).insert(b.designator@, b.fixes@));
}

proof fn lemma_bucket_map_push<C>(bs: Seq<FixBucket<C>>, b: FixBucket<C>)
    requires
        keys_unique(bs),
        !bucket_map(bs).contains_key(b.designator@),
    ensures
        keys_unique(bs.push(b)),
        bucket_map(bs.push(b)) == bucket_map(bs).insert(b.designator@, b.fixes@),
{
    lemma_bucket_map_lookup(bs, b.designator@);
    let nbs = bs.push(b);
    assert(nbs.drop_last() =~= bs);
    assert forall|x: int, y: int|
        0 <= x < nbs.len() && 0 <= y < nbs.len() && x != y implies (
        #[trigger] nbs[x]).designator@ != (#[trigger] nbs[y]).designator@ by {
        if x < bs.len() {
            assert(nbs[x] == bs[x]);
        }
        if y < bs.len() {
            assert(nbs[y] == bs[y]);
        }
    }
}

impl<C> IntersectionMap<C> {
    pub closed spec fn view(&self) -> Map<Seq<char>, Seq<LocalFix<C>>> {
        bucket_map(self.buckets@)
    }

    pub closed spec fn wf(&self) -> bool {
        keys_unique(self.buckets@)
    }

    pub fn new() -> (r: IntersectionMap<C>)
        ensures
            r.wf(),
            r@ == Map::<Seq<char>, Seq<LocalFix<C>>>::empty(),
    {
        IntersectionMap { buckets: Vec::new() }
    }

    fn bucket_index(&self, key: &String) -> (r: Option<usize>)
        requires
            self.wf(),
        ensures
            match r {
                Some(i) => i < self.buckets@.len() && self.buckets@[i as int].designator@ == key@
                    && self@.contains_key(key@) && self@[key@] == self.buckets@[i as int].fixes@,
                None => !self@.contains_key(key@),
            },
    {
        proof { lemma_bucket_map_lookup(self.buckets@, key@); }
        let mut i: usize = 0;
        while i < self.buckets.len()
            invariant
                i <= self.buckets@.len(),
                self.wf(),
                forall|j: int| 0 <= j < i ==> (#[trigger] self.buckets@[j]).designator@ != key@,
            decreases self.buckets@.len() - i,
        {
            if self.buckets[i].designator == *key {
                proof { lemma_bucket_map_lookup(self.buckets@, key@); }
                assert(self.buckets@[i as int].designator@ == key@);
                return Some(i);
            }
            i = i + 1;
        }
        None
    }

    /// The fixes filed under `key`.
    pub fn get(&self, key: &String) -> (r: Option<&Vec<LocalFix<C>>>)
        requires
            self.wf(),
        ensures
            match r {
                Some(v) => self@.contains_key(key@) && v@ == self@[key@],
                None => !self@.contains_key(key@),
            },
    {
        match self.bucket_index(key) {
            Some(i) => Some(&self.buckets[i].fixes),
            None => None,
        }
    }

    /// Files `fix` under `key`, after the fixes already there.
    pub fn insert(&mut self, key: String, fix: LocalFix<C>)
        requires
            old(self).wf(),
        ensures
            final(self).wf(),
            final(self)@ == old(self)@.insert(key@, filed_under(old(self)@, key@).push(fix)),
    {
        match self.bucket_index(&key) {
            Some(i) => {
                let ghost old_buckets = self.buckets@;
                self.buckets[i].fixes.push(fix);
                proof {
                    lemma_bucket_map_update(old_buckets, i as int, self.buckets@[i as int]);
                    assert(self.buckets@ == old_buckets.update(i as int, self.buckets@[i as int]));
                }
            },
            None => {
                let ghost old_buckets = self.buckets@;
                let mut fixes: Vec<LocalFix<C>> = Vec::new();
                fixes.push(fix);
                let bucket = FixBucket { designator: key, fixes };
                proof { lemma_bucket_map_push(old_buckets, bucket); }
                self.buckets.push(bucket);
                assert(fixes@ =~= Seq::<LocalFix<C>>::empty().push(fix));
            },
        }
    }

    /// Reconciles one waypoint record with the fixes filed under its
    /// designator.
    pub fn update_fix<F: Fn(C, C) -> u64>(
        &mut self,
        designator: &String,
        coordinate: C,
        distance_m: &F,
        log: &mut Vec<Message>,
    ) where C: Copy
        requires
            old(self).wf(),
            forall|a: C, b: C| call_requires(*distance_m, (a, b)),
        ensures
            final(self).wf(),
            isec_reconciled(
                old(self)@,
                old(log)@,
                designator@,
                coordinate,
                *distance_m,
                final(self)@,
                final(log)@,
            ),
    {
        match self.bucket_index(designator) {
            Some(i) => {
                let ghost old_buckets = self.buckets@;
                update_fixes(&mut self.buckets[i].fixes, designator, coordinate, distance_m, log);
                proof {
                    lemma_bucket_map_update(old_buckets, i as int, self.buckets@[i as int]);
                    assert(self.buckets@ == old_buckets.update(i as int, self.buckets@[i as int]));
                    assert(bucket_map(self.buckets@).remove(designator@) =~= bucket_map(
                        old_buckets,
                    ).remove(designator@));
                }
            },
            None => {
                if named_fix(designator) {
                    let mut line = String::from_str("Adding new Fix: ");
                    line.append(designator.as_str());
                    log.push(Message::debug(line));
                    self.insert(
                        designator.clone(),
                        LocalFix { designator: designator.clone(), coordinate },
                    );
                    assert(self@.remove(designator@) =~= old(self)@.remove(designator@));
                    assert(filed_under(self@, designator@).drop_last() =~= filed_under(
                        old(self)@,
                        designator@,
                    ));
                    assert(log@.drop_last() =~= old(log)@);
                }
            },
        }
    }
}

} // verus!
