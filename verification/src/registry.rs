//! The scheduler's table of registered workers and their last heartbeats.
use crate::clock::Timestamp;
use crate::model::TaskType;
use vstd::pervasive::VecAdditionalExecFns;
use vstd::prelude::*;

verus! {

/// What the scheduler knows of one worker.
#[derive(Debug)]
pub struct WorkerInfo {
    pub id: String,
    pub last_heartbeat: Timestamp,
    pub capabilities: Vec<TaskType>,
}

/// No two entries of `s` carry the same worker identifier.
pub open spec fn ids_distinct(s: Seq<WorkerInfo>) -> bool {
    forall|i: int, j: int| 0 <= i < j < s.len() ==> s[i].id@ != s[j].id@
}

/// The entries of `s` keyed by worker identifier (a later entry wins).
pub open spec fn worker_map(s: Seq<WorkerInfo>) -> Map<Seq<char>, WorkerInfo>
    decreases s.len(),
{
    if s.len() == 0 {
        Map::empty()
    } else {
        worker_map(s.drop_last()).insert(s.last().id@, s.last())
    }
}

/// A worker whose last heartbeat lies more than `limit_secs` seconds before
/// `now` counts as dead.
pub open spec fn is_expired(info: WorkerInfo, now: Timestamp, limit_secs: i64) -> bool {
    now.nanos_since(info.last_heartbeat) > limit_secs * 1_000_000_000
}

/// The part of `m` whose workers are not expired at `now`.
pub open spec fn live_part(
    m: Map<Seq<char>, WorkerInfo>,
    now: Timestamp,
    limit_secs: i64,
) -> Map<Seq<char>, WorkerInfo> {
    Map::new(|k: Seq<char>| m.contains_key(k) && !is_expired(m[k], now, limit_secs), |k: Seq<char>| m[k])
}

/// The map of `s` holds exactly the identifiers that occur in `s`.
pub proof fn lemma_worker_map_dom(s: Seq<WorkerInfo>, k: Seq<char>)
    ensures
        worker_map(s).contains_key(k) <==> exists|i: int| 0 <= i < s.len() && s[i].id@ == k,
    decreases s.len(),
{
    if s.len() > 0 {
        let r = s.drop_last();
        lemma_worker_map_dom(r, k);
        if worker_map(r).contains_key(k) {
            let i = choose|i: int| 0 <= i < r.len() && r[i].id@ == k;
            assert(s[i] == r[i]);
        }
        if exists|i: int| 0 <= i < s.len() && s[i].id@ == k {
            let i = choose|i: int| 0 <= i < s.len() && s[i].id@ == k;
            if i < s.len() - 1 {
                assert(r[i] == s[i]);
            }
        }
    }
}

/// With distinct identifiers, each entry is what the map holds for its
/// identifier.
pub proof fn lemma_worker_map_value(s: Seq<WorkerInfo>, i: int)
    requires
        ids_distinct(s),
        0 <= i < s.len(),
    ensures
        worker_map(s).contains_key(s[i].id@),
        worker_map(s)[s[i].id@] == s[i],
    decreases s.len(),
{
    let r = s.drop_last();
    if i < s.len() - 1 {
        assert(r[i] == s[i]);
        assert(ids_distinct(r));
        lemma_worker_map_value(r, i);
        assert(s.last().id@ != s[i].id@);
    }
}

/// Replacing an entry by one with the same identifier replaces that
/// identifier's value in the map.
pub proof fn lemma_worker_map_update(s: Seq<WorkerInfo>, i: int, w: WorkerInfo)
    requires
        ids_distinct(s),
        0 <= i < s.len(),
        w.id@ == s[i].id@,
    ensures
        ids_distinct(s.update(i, w)),
        worker_map(s.update(i, w)) == worker_map(s).insert(w.id@, w),
{
    let t = s.update(i, w);
    assert(ids_distinct(t)) by {
        assert forall|a: int, b: int| 0 <= a < b < t.len() implies t[a].id@ != t[b].id@ by {
            assert(t[a].id@ == s[a].id@);
            assert(t[b].id@ == s[b].id@);
        }
    }
    assert forall|k: Seq<char>|
        #[trigger] worker_map(t).contains_key(k) == worker_map(s).insert(w.id@, w).contains_key(k) by {
        lemma_worker_map_dom(t, k);
        lemma_worker_map_dom(s, k);
        if exists|a: int| 0 <= a < s.len() && s[a].id@ == k {
            let a = choose|a: int| 0 <= a < s.len() && s[a].id@ == k;
            assert(t[a].id@ == k);
        }
        if exists|a: int| 0 <= a < t.len() && t[a].id@ == k {
            let a = choose|a: int| 0 <= a < t.len() && t[a].id@ == k;
            assert(s[a].id@ == k);
        }
    }
    assert forall|k: Seq<char>| #[trigger]
        worker_map(t).contains_key(k) implies worker_map(t)[k] == worker_map(s).insert(
        w.id@,
        w,
    )[k] by {
        lemma_worker_map_dom(t, k);
        let a = choose|a: int| 0 <= a < t.len() && t[a].id@ == k;
        lemma_worker_map_value(t, a);
        if a != i {
            lemma_worker_map_value(s, a);
        }
    }
    assert(worker_map(t) =~= worker_map(s).insert(w.id@, w));
}

/// The registered workers, one entry per worker identifier.
pub struct WorkerRegistry {
    workers: Vec<WorkerInfo>,
}

impl View for WorkerRegistry {
    type V = Map<Seq<char>, WorkerInfo>;

    closed spec fn view(&self) -> Map<Seq<char>, WorkerInfo> {
        worker_map(self.workers@)
    }
}

impl WorkerRegistry {
    /// No worker identifier is listed twice.
    #[verifier::type_invariant]
    spec fn distinct(self) -> bool {
        ids_distinct(self.workers@)
    }

    /// A registry with no workers.
    pub fn new() -> (r: Self)
        ensures
            r@ == Map::<Seq<char>, WorkerInfo>::empty(),
    {
        WorkerRegistry { workers: Vec::new() }
    }

    /// The number of registered workers.
    pub fn len(&self) -> (n: usize)
        ensures
            n == self@.len(),
    {
        proof {
            use_type_invariant(self);
            lemma_worker_map_len(self.workers@);
        }
        self.workers.len()
    }

    /// The position of the worker registered as `id`, if any.
    fn position(&self, id: &String) -> (r: Option<usize>)
        ensures
            match r {
                Some(i) => i < self.workers.len() && self.workers@[i as int].id@ == id@,
                None => !self@.contains_key(id@),
            },
    {
        let mut i: usize = 0;
        while i < self.workers.len()
            invariant
                i <= self.workers.len(),
                forall|j: int| 0 <= j < i ==> self.workers@[j].id@ != id@,
            decreases self.workers.len() - i,
        {
            if self.workers[i].id == *id {
                return Some(i);
            }
            i = i + 1;
        }
        proof {
            lemma_worker_map_dom(self.workers@, id@);
        }
        None
    }

    /// What the registry holds for worker `id`, if it is registered.
    pub fn get(&self, id: &String) -> (r: Option<&WorkerInfo>)
        ensures
            match r {
                Some(w) => self@.contains_key(id@) && *w == self@[id@],
                None => !self@.contains_key(id@),
            },
    {
        proof {
            use_type_invariant(self);
        }
        match self.position(id) {
            Some(i) => {
                proof {
                    lemma_worker_map_value(self.workers@, i as int);
                }
                Some(&self.workers[i])
            },
            None => None,
        }
    }

    /// Registers `info` under its identifier, replacing what was registered
    /// there before.
    pub fn register(&mut self, info: WorkerInfo)
        ensures
            final(self)@ == old(self)@.insert(info.id@, info),
    {
        proof {
            use_type_invariant(&*self);
        }
        let ghost key = info.id@;
        let pos = self.position(&info.id);
        let mut workers = Vec::new();
        std::mem::swap(&mut workers, &mut self.workers);
        let ghost s = workers@;
        match pos {
            Some(i) => {
                proof {
                    lemma_worker_map_update(s, i as int, info);
                }
                workers.set(i, info);
            },
            None => {
                proof {
                    assert(ids_distinct(s.push(info))) by {
                        if exists|a: int| 0 <= a < s.len() && s[a].id@ == key {
                            lemma_worker_map_dom(s, key);
                        }
                    }
                    assert(s.push(info).drop_last() == s);
                }
                workers.push(info);
            },
        }
        self.workers = workers;
    }

    /// Sets the last heartbeat of worker `id` to `now` and answers `true`;
    /// answers `false`, changing nothing, when no such worker is registered.
    pub fn touch(&mut self, id: &String, now: Timestamp) -> (found: bool)
        ensures
            found == old(self)@.contains_key(id@),
            found ==> final(self)@ == old(self)@.insert(
                id@,
                WorkerInfo { last_heartbeat: now, ..old(self)@[id@] },
            ),
            !found ==> final(self)@ == old(self)@,
    {
        proof {
            use_type_invariant(&*self);
        }
        match self.position(id) {
            Some(i) => {
                let mut workers = Vec::new();
                std::mem::swap(&mut workers, &mut self.workers);
                let ghost s = workers@;
                let mut w = workers.remove(i);
                w.last_heartbeat = now;
                workers.insert(i, w);
                proof {
                    assert(workers@ =~= s.update(i as int, w));
                    lemma_worker_map_value(s, i as int);
                    lemma_worker_map_update(s, i as int, w);
                }
                self.workers = workers;
                true
            },
            None => false,
        }
    }

    /// Drops every worker whose last heartbeat lies more than `limit_secs`
    /// seconds before `now`; keeps every other worker as it was.
    pub fn remove_expired(&mut self, now: Timestamp, limit_secs: i64)
        ensures
            final(self)@ == live_part(old(self)@, now, limit_secs),
    {
        proof {
            use_type_invariant(&*self);
        }
        let mut rest = Vec::new();
        std::mem::swap(&mut rest, &mut self.workers);
        let ghost s = rest@;
        let mut kept: Vec<WorkerInfo> = Vec::new();
        let ghost mut i: int = 0;
        proof {
            assert(s.take(0) =~= Seq::<WorkerInfo>::empty());
            assert(worker_map(kept@) =~= live_part(worker_map(s.take(0)), now, limit_secs));
            assert(s.skip(0) =~= s);
        }
        while rest.len() > 0
            invariant
                ids_distinct(s),
                0 <= i <= s.len(),
                rest@ == s.skip(i),
                ids_distinct(kept@),
                worker_map(kept@) == live_part(worker_map(s.take(i)), now, limit_secs),
            decreases rest.len(),
        {
            let w = rest.remove(0);
            proof {
                assert(w == s[i]);
                assert(s.skip(i).remove(0) =~= s.skip(i + 1));
                assert(s.take(i + 1).drop_last() =~= s.take(i));
                assert(s.take(i + 1).last() == s[i]);
                // The identifier of `w` does not occur before position `i`.
                lemma_worker_map_dom(s.take(i), w.id@);
                assert(!worker_map(s.take(i)).contains_key(w.id@)) by {
                    if exists|a: int| 0 <= a < s.take(i).len() && s.take(i)[a].id@ == w.id@ {
                        let a = choose|a: int|
                            0 <= a < s.take(i).len() && s.take(i)[a].id@ == w.id@;
                        assert(s[a].id@ == s[i].id@);
                    }
                }
            }
            if w.last_heartbeat_expired(&now, limit_secs) {
                proof {
                    assert(live_part(worker_map(s.take(i + 1)), now, limit_secs) =~= live_part(
                        worker_map(s.take(i)),
                        now,
                        limit_secs,
                    ));
                }
            } else {
                proof {
                    lemma_worker_map_dom(kept@, w.id@);
                    assert(ids_distinct(kept@.push(w))) by {
                        if exists|a: int| 0 <= a < kept@.len() && kept@[a].id@ == w.id@ {
                            assert(worker_map(kept@).contains_key(w.id@));
                        }
                    }
                    assert(kept@.push(w).drop_last() == kept@);
                    assert(live_part(worker_map(s.take(i + 1)), now, limit_secs) =~= live_part(
                        worker_map(s.take(i)),
                        now,
                        limit_secs,
                    ).insert(w.id@, w));
                }
                kept.push(w);
            }
            proof {
                i = i + 1;
            }
        }
        proof {
            assert(s.take(i) =~= s);
        }
        self.workers = kept;
    }
}

impl WorkerInfo {
    /// Whether this worker's last heartbeat lies more than `limit_secs`
    /// seconds before `now`.
    pub fn last_heartbeat_expired(&self, now: &Timestamp, limit_secs: i64) -> (r: bool)
        ensures
            r == is_expired(*self, *now, limit_secs),
    {
        now.elapsed_exceeds(&self.last_heartbeat, limit_secs)
    }
}

/// With distinct identifiers, the map has one entry per element.
pub proof fn lemma_worker_map_len(s: Seq<WorkerInfo>)
    requires
        ids_distinct(s),
    ensures
        worker_map(s).len() == s.len(),
        worker_map(s).dom().finite(),
    decreases s.len(),
{
    if s.len() > 0 {
        let r = s.drop_last();
        assert(ids_distinct(r));
        lemma_worker_map_len(r);
        lemma_worker_map_dom(r, s.last().id@);
        if worker_map(r).contains_key(s.last().id@) {
            let a = choose|a: int| 0 <= a < r.len() && r[a].id@ == s.last().id@;
            assert(s[a].id@ == s[s.len() - 1].id@);
        }
    }
}

} // verus!
