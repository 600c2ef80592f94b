use crate::record::{refreshed_from, SessionConfig, SessionRecord};
use std::collections::HashMap;
use vstd::prelude::*;

verus! {

broadcast use {vstd::std_specs::hash::group_hash_axioms, vstd::seq_lib::group_seq_properties};

/// `m` without the records whose memory deadline is not after `now`.
pub open spec fn swept(m: Map<u128, SessionRecord>, now: i64) -> Map<u128, SessionRecord> {
    m.restrict(m.dom().filter(|k: u128| m[k].autoremove > now))
}

/// The in-memory tier: records keyed by their identifier.
pub struct SessionCache {
    ids: Vec<u128>,
    records: HashMap<u128, SessionRecord>,
}

impl View for SessionCache {
    type V = Map<u128, SessionRecord>;

    closed spec fn view(&self) -> Map<u128, SessionRecord> {
        self.records@
    }
}

impl SessionCache {
    /// Every key is listed once in `ids`, and each record is stored under its own identifier.
    pub closed spec fn wf(self) -> bool {
        &&& self.ids@.no_duplicates()
        &&& forall|i: int|
            0 <= i < self.ids@.len() ==> #[trigger] self.records@.contains_key(self.ids@[i])
        &&& forall|k: u128| #[trigger] self.records@.contains_key(k) ==> self.ids@.contains(k)
        &&& forall|k: u128| #[trigger] self.records@.contains_key(k) ==> self.records@[k].id == k
    }

    pub fn new() -> (r: Self)
        ensures
            r.wf(),
            r@ == Map::<u128, SessionRecord>::empty(),
    {
        SessionCache { ids: Vec::new(), records: HashMap::new() }
    }

    pub fn contains(&self, id: u128) -> (r: bool)
        requires
            self.wf(),
        ensures
            r == self@.contains_key(id),
    {
        self.records.contains_key(&id)
    }

    pub fn lookup(&self, id: u128) -> (r: Option<&SessionRecord>)
        requires
            self.wf(),
        ensures
            match r {
                Some(rec) => self@.contains_key(id) && *rec == self@[id],
                None => !self@.contains_key(id),
            },
    {
        self.records.get(&id)
    }

    /// Stores `record` under its identifier, replacing any record there.
    pub fn insert(&mut self, record: SessionRecord)
        requires
            old(self).wf(),
        ensures
            final(self).wf(),
            final(self)@ == old(self)@.insert(record.id, record),
    {
        let id = record.id;
        if !self.records.contains_key(&id) {
            self.ids.push(id);
        }
        self.records.insert(id, record);
        proof {
            assert forall|k: u128| #[trigger] self.records@.contains_key(k) implies self.ids@.contains(k) by {
                if k != id {
                    assert(old(self).ids@.contains(k));
                    let j = choose|j: int| 0 <= j < old(self).ids@.len() && old(self).ids@[j] == k;
                    assert(self.ids@[j] == k);
                } else if !old(self).records@.contains_key(id) {
                    assert(self.ids@[self.ids@.len() - 1] == id);
                }
            }
        }
    }

    /// Extends the record of `id`, if there is one, as a request at `now` does.
    pub fn refresh(&mut self, id: u128, now: i64, config: &SessionConfig) -> (found: bool)
        requires
            old(self).wf(),
        ensures
            final(self).wf(),
            found == old(self)@.contains_key(id),
            found ==> final(self)@.contains_key(id) && final(self)@ == old(self)@.insert(
                id,
                final(self)@[id],
            ) && refreshed_from(final(self)@[id], old(self)@[id], now, *config),
            !found ==> final(self)@ == old(self)@,
    {
        match self.records.remove(&id) {
            Some(mut rec) => {
                rec.refresh(now, config);
                self.records.insert(id, rec);
                assert(self.records@ =~= old(self).records@.insert(id, self.records@[id]));
                true
            },
            None => false,
        }
    }

    /// Replaces the contents of the record of `id`, if there is one.
    pub fn set_data(&mut self, id: u128, data: HashMap<String, String>) -> (found: bool)
        requires
            old(self).wf(),
        ensures
            final(self).wf(),
            found == old(self)@.contains_key(id),
            found ==> final(self)@.contains_key(id) && final(self)@ == old(self)@.insert(
                id,
                final(self)@[id],
            ) && final(self)@[id].data == data && final(self)@[id].id == old(self)@[id].id
                && final(self)@[id].expires == old(self)@[id].expires && final(self)@[id].destroy
                == old(self)@[id].destroy && final(self)@[id].autoremove == old(self)@[id].autoremove,
            !found ==> final(self)@ == old(self)@,
    {
        match self.records.remove(&id) {
            Some(mut rec) => {
                rec.data = data;
                self.records.insert(id, rec);
                assert(self.records@ =~= old(self).records@.insert(id, self.records@[id]));
                true
            },
            None => false,
        }
    }

    /// Sets or clears the destroy flag of the record of `id`, if there is one.
    pub fn set_destroy(&mut self, id: u128, destroy: bool) -> (found: bool)
        requires
            old(self).wf(),
        ensures
            final(self).wf(),
            found == old(self)@.contains_key(id),
            found ==> final(self)@.contains_key(id) && final(self)@ == old(self)@.insert(
                id,
                final(self)@[id],
            ) && final(self)@[id].destroy == destroy && final(self)@[id].id == old(self)@[id].id
                && final(self)@[id].data == old(self)@[id].data && final(self)@[id].expires
                == old(self)@[id].expires && final(self)@[id].autoremove
                == old(self)@[id].autoremove,
            !found ==> final(self)@ == old(self)@,
    {
        match self.records.remove(&id) {
            Some(mut rec) => {
                rec.destroy = destroy;
                self.records.insert(id, rec);
                assert(self.records@ =~= old(self).records@.insert(id, self.records@[id]));
                true
            },
            None => false,
        }
    }

    /// Drops every record whose memory deadline is not after `now`.
    pub fn sweep(&mut self, now: i64)
        requires
            old(self).wf(),
        ensures
            final(self).wf(),
            final(self)@ == swept(old(self)@, now),
    {
        let ghost m0 = self.records@;
        let ghost ids0 = self.ids@;
        let mut kept: Vec<u128> = Vec::new();
        let mut i: usize = 0;
        while i < self.ids.len()
            invariant
                self.ids@ == ids0,
                ids0.no_duplicates(),
                0 <= i <= ids0.len(),
                forall|j: int| 0 <= j < ids0.len() ==> #[trigger] m0.contains_key(ids0[j]),
                forall|k: u128| #[trigger] m0.contains_key(k) ==> ids0.contains(k),
                forall|k: u128| #[trigger] m0.contains_key(k) ==> m0[k].id == k,
                forall|k: u128| #[trigger]
                    self.records@.contains_key(k) <==> m0.contains_key(k) && (m0[k].autoremove
                        > now || !ids0.take(i as int).contains(k)),
                forall|k: u128| #[trigger]
                    self.records@.contains_key(k) ==> self.records@[k] == m0[k],
                kept@.no_duplicates(),
                forall|x: u128| #[trigger]
                    kept@.contains(x) ==> ids0.take(i as int).contains(x) && m0[x].autoremove
                        > now,
                forall|j: int|
                    0 <= j < i && #[trigger] m0[ids0[j]].autoremove > now ==> kept@.contains(
                        ids0[j],
                    ),
            decreases ids0.len() - i,
        {
            let id = self.ids[i];
            assert(ids0.take(i + 1) =~= ids0.take(i as int).push(id));
            assert(!ids0.take(i as int).contains(id)) by {
                if ids0.take(i as int).contains(id) {
                    let j = choose|j: int| 0 <= j < i && ids0.take(i as int)[j] == id;
                    assert(ids0[j] == ids0[i as int]);
                }
            }
            let keep = match self.records.get(&id) {
                Some(rec) => rec.autoremove > now,
                None => false,
            };
            assert(self.records@.contains_key(id));
            let ghost kept_before = kept@;
            let ghost recs_before = self.records@;
            if keep {
                assert(!kept@.contains(id));
                kept.push(id);
                assert forall|x: u128| #[trigger] kept@.contains(x) implies kept_before.contains(x)
                    || x == id by {
                    let j = choose|j: int| 0 <= j < kept@.len() && kept@[j] == x;
                    if j < kept_before.len() {
                        assert(kept_before[j] == x);
                    }
                }
            } else {
                self.records.remove(&id);
            }
            assert forall|k: u128| #[trigger] self.records@.contains_key(k) <==> m0.contains_key(k)
                && (m0[k].autoremove > now || !ids0.take(i + 1).contains(k)) by {
                assert(ids0.take(i + 1).contains(k) <==> ids0.take(i as int).contains(k) || k == id);
                if k == id {
                    assert(ids0.take(i + 1)[i as int] == id);
                }
            }
            i = i + 1;
        }
        self.ids = kept;
        proof {
            assert(ids0.take(ids0.len() as int) =~= ids0);
            assert forall|j: int| 0 <= j < self.ids@.len() implies #[trigger] self.records@.contains_key(
                self.ids@[j],
            ) by {
                assert(kept@.contains(kept@[j]));
            }
            assert forall|k: u128| #[trigger] self.records@.contains_key(k) implies self.ids@.contains(k) by {
                let j = choose|j: int| 0 <= j < ids0.len() && ids0[j] == k;
                assert(m0[ids0[j]].autoremove > now);
            }
            assert(self.records@ =~= swept(m0, now));
        }
    }

    /// A copy of the record of `id`, if there is one.
    pub fn snapshot(&self, id: u128) -> (r: Option<SessionRecord>)
        requires
            self.wf(),
        ensures
            match r {
                Some(rec) => self@.contains_key(id) && rec@ == self@[id]@,
                None => !self@.contains_key(id),
            },
    {
        match self.records.get(&id) {
            Some(rec) => Some(rec.snapshot()),
            None => None,
        }
    }
}

} // verus!
