use crate::cache::{swept, SessionCache};
use crate::external::{
    current_millis, identifier_text, parse_identifier, random_identifier, uuid_parse, uuid_text,
};
use crate::record::{
    is_fresh, later, offset_instant, refreshed_from, SessionConfig, SessionRecord,
};
use crate::sweep::{lemma_sweep_throttled, timer_step, SweepScheduler};
use vstd::prelude::*;

verus! {

/// How many random identifiers are drawn before minting gives up.
pub const MAX_ID_ATTEMPTS: usize = 16;

/// What resolving a request's cookie did.
pub enum Resolution {
    /// The identifier was in memory; its record was extended in place. No
    /// cookie is written.
    Cached { id: u128 },
    /// The identifier is well formed but not in memory: the caller loads it
    /// from the backing store and hands the result to `complete_load`.
    NeedsLoad { id: u128 },
    /// A new identifier was minted and an empty record stored for it.
    /// `cookie` is the value to send; `swept_cache` tells whether the memory
    /// tier was swept, `cleanup_store` whether the caller must now clean up
    /// the backing store.
    Minted { id: u128, cookie: String, swept_cache: bool, cleanup_store: bool },
    /// No identifier free in memory was drawn.
    Exhausted,
}

/// The shared state of the session layer.
pub struct SessionStore {
    pub cache: SessionCache,
    pub timers: SweepScheduler,
    pub config: SessionConfig,
}

/// The identifier a cookie value carries, if it is a well-formed one.
pub open spec fn cookie_identifier(cookie: Option<&str>) -> Option<u128> {
    match cookie {
        Some(s) => uuid_parse(s@),
        None => None,
    }
}

/// `new` and `r` are what resolving `cookie` at `now` makes of `old`.
pub open spec fn resolved_at(
    old: SessionStore,
    cookie: Option<&str>,
    now: i64,
    new: SessionStore,
    r: Resolution,
) -> bool {
    &&& new.config == old.config
    &&& new.cache.wf()
    &&& match cookie_identifier(cookie) {
        Some(id) => if old.cache@.contains_key(id) {
            &&& r == Resolution::Cached { id }
            &&& new.timers == old.timers
            &&& new.cache@.contains_key(id)
            &&& new.cache@ == old.cache@.insert(id, new.cache@[id])
            &&& refreshed_from(new.cache@[id], old.cache@[id], now, old.config)
        } else {
            &&& r == Resolution::NeedsLoad { id }
            &&& new.timers == old.timers
            &&& new.cache@ == old.cache@
        },
        None => match r {
            Resolution::Minted { id, cookie: text, swept_cache, cleanup_store } => {
                let (next_cache, cache_due) = timer_step(
                    old.timers.next_cache_sweep,
                    now,
                    old.config.memory_lifespan,
                );
                let (next_store, store_due) = timer_step(
                    old.timers.next_store_sweep,
                    now,
                    old.config.lifespan,
                );
                let base = if cache_due {
                    swept(old.cache@, now)
                } else {
                    old.cache@
                };
                &&& !old.cache@.contains_key(id)
                &&& text@ == uuid_text(id)
                &&& swept_cache == cache_due
                &&& cleanup_store == store_due
                &&& new.timers.next_cache_sweep == next_cache
                &&& new.timers.next_store_sweep == next_store
                &&& new.cache@.contains_key(id)
                &&& new.cache@ == base.insert(id, new.cache@[id])
                &&& is_fresh(new.cache@[id], id, now, old.config)
            },
            Resolution::Exhausted => {
                &&& old.cache@ != Map::<u128, SessionRecord>::empty()
                &&& new.timers == old.timers
                &&& new.cache@ == old.cache@
            },
            _ => false,
        },
    }
}

/// `new` is the record put in memory for `id` at `now` after loading `loaded`:
/// the loaded record with its memory deadline extended if it is still valid,
/// else a fresh one.
pub open spec fn installed(
    new: SessionRecord,
    loaded: Option<SessionRecord>,
    id: u128,
    now: i64,
    config: SessionConfig,
) -> bool {
    match loaded {
        Some(rec) => if rec.is_stale_at(now) {
            is_fresh(new, id, now, config)
        } else {
            &&& new.id == id
            &&& new.data == rec.data
            &&& new.expires == rec.expires
            &&& new.destroy == rec.destroy
            &&& new.autoremove == later(now, config.memory_lifespan)
        },
        None => is_fresh(new, id, now, config),
    }
}

/// `new` and `cookie` are what completing the load of `id` with `loaded` at
/// `now` makes of `old`. If another request put `id` in memory meanwhile,
/// that record is kept and refreshed instead.
pub open spec fn load_completed(
    old: SessionStore,
    id: u128,
    loaded: Option<SessionRecord>,
    now: i64,
    new: SessionStore,
    cookie: String,
) -> bool {
    &&& new.config == old.config
    &&& new.timers == old.timers
    &&& new.cache.wf()
    &&& cookie@ == uuid_text(id)
    &&& new.cache@.contains_key(id)
    &&& new.cache@ == old.cache@.insert(id, new.cache@[id])
    &&& if old.cache@.contains_key(id) {
        refreshed_from(new.cache@[id], old.cache@[id], now, old.config)
    } else {
        installed(new.cache@[id], loaded, id, now, old.config)
    }
}

/// `r` is what is written to the backing store for `id` at the end of a request.
pub open spec fn finalized(store: SessionStore, id: u128, r: Option<SessionRecord>) -> bool {
    match r {
        Some(rec) => store.cache@.contains_key(id) && rec@ == store.cache@[id]@,
        None => !store.cache@.contains_key(id),
    }
}

/// Draws random identifiers until one is not in `cache`, up to `MAX_ID_ATTEMPTS` times.
pub fn fresh_identifier(cache: &SessionCache) -> (r: Option<u128>)
    requires
        cache.wf(),
    ensures
        r matches Some(id) ==> !cache@.contains_key(id),
        cache@ == Map::<u128, SessionRecord>::empty() ==> r is Some,
{
    let mut attempts: usize = 0;
    while attempts < MAX_ID_ATTEMPTS
        invariant
            cache.wf(),
            cache@ == Map::<u128, SessionRecord>::empty() ==> attempts == 0,
        decreases MAX_ID_ATTEMPTS - attempts,
    {
        let candidate = random_identifier();
        if !cache.contains(candidate) {
            return Some(candidate);
        }
        attempts = attempts + 1;
    }
    None
}

impl SessionStore {
    pub fn new(config: SessionConfig) -> (r: Self)
        ensures
            r.cache.wf(),
            r.cache@ == Map::<u128, SessionRecord>::empty(),
            r.timers.next_cache_sweep == i64::MIN,
            r.timers.next_store_sweep == i64::MIN,
            r.config == config,
    {
        SessionStore { cache: SessionCache::new(), timers: SweepScheduler::new(), config }
    }

    /// Mints an identifier free in memory, runs the sweeps that are due and
    /// stores an empty record for it.
    fn mint(&mut self, now: i64) -> (r: Resolution)
        requires
            old(self).cache.wf(),
        ensures
            resolved_at(*old(self), None, now, *final(self), r),
    {
        match fresh_identifier(&self.cache) {
            None => Resolution::Exhausted,
            Some(id) => {
                let swept_cache = self.timers.cache_sweep_due(now, self.config.memory_lifespan);
                if swept_cache {
                    self.cache.sweep(now);
                }
                let cleanup_store = self.timers.store_sweep_due(now, self.config.lifespan);
                let rec = SessionRecord::fresh(id, now, &self.config);
                self.cache.insert(rec);
                Resolution::Minted { id, cookie: identifier_text(id), swept_cache, cleanup_store }
            },
        }
    }

    /// Resolves the identifier a request's cookie carries, at `now`. A
    /// missing or malformed cookie mints a new identifier.
    pub fn resolve_at(&mut self, cookie: Option<&str>, now: i64) -> (r: Resolution)
        requires
            old(self).cache.wf(),
        ensures
            resolved_at(*old(self), cookie, now, *final(self), r),
    {
        let parsed = match cookie {
            Some(s) => parse_identifier(s),
            None => None,
        };
        match parsed {
            Some(id) => {
                if self.cache.refresh(id, now, &self.config) {
                    Resolution::Cached { id }
                } else {
                    Resolution::NeedsLoad { id }
                }
            },
            None => self.mint(now),
        }
    }

    /// `resolve_at` at the current time, which is returned beside the result.
    pub fn resolve(&mut self, cookie: Option<&str>) -> (r: (i64, Resolution))
        requires
            old(self).cache.wf(),
        ensures
            resolved_at(*old(self), cookie, r.0, *final(self), r.1),
    {
        let now = current_millis();
        let res = self.resolve_at(cookie, now);
        (now, res)
    }

    /// Stores in memory the record for `id` that the backing store gave
    /// (`None` when it had none or failed), or a fresh one if that is stale,
    /// and returns the cookie value to send.
    pub fn complete_load_at(&mut self, id: u128, loaded: Option<SessionRecord>, now: i64) -> (cookie:
        String)
        requires
            old(self).cache.wf(),
        ensures
            load_completed(*old(self), id, loaded, now, *final(self), cookie),
    {
        if self.cache.refresh(id, now, &self.config) {
            return identifier_text(id);
        }
        let rec = match loaded {
            Some(mut rec) => {
                if rec.is_stale(now) {
                    SessionRecord::fresh(id, now, &self.config)
                } else {
                    rec.id = id;
                    rec.autoremove = offset_instant(now, self.config.memory_lifespan);
                    rec
                }
            },
            None => SessionRecord::fresh(id, now, &self.config),
        };
        self.cache.insert(rec);
        identifier_text(id)
    }

    /// `complete_load_at` at the current time, which is returned beside the cookie value.
    pub fn complete_load(&mut self, id: u128, loaded: Option<SessionRecord>) -> (r: (i64, String))
        requires
            old(self).cache.wf(),
        ensures
            load_completed(*old(self), id, loaded, r.0, *final(self), r.1),
    {
        let now = current_millis();
        let cookie = self.complete_load_at(id, loaded, now);
        (now, cookie)
    }

    /// The record of `id` as it stands in memory, to be written to the
    /// backing store at the end of the request.
    pub fn finalize(&self, id: u128) -> (r: Option<SessionRecord>)
        requires
            self.cache.wf(),
        ensures
            finalized(*self, id, r),
    {
        self.cache.snapshot(id)
    }
}

/// Whether a resolution swept the memory tier.
pub open spec fn swept_memory(r: Resolution) -> bool {
    match r {
        Resolution::Minted { swept_cache, .. } => swept_cache,
        _ => false,
    }
}

/// Two resolutions without a cookie, the second before the memory interval
/// that began at the first has run out, sweep the memory tier at most once.
pub proof fn lemma_minting_sweeps_once(
    s0: SessionStore,
    s1: SessionStore,
    s2: SessionStore,
    r1: Resolution,
    r2: Resolution,
    t1: i64,
    t2: i64,
)
    requires
        resolved_at(s0, None, t1, s1, r1),
        resolved_at(s1, None, t2, s2, r2),
        t1 <= t2,
        t2 < later(t1, s0.config.memory_lifespan),
    ensures
        !(swept_memory(r1) && swept_memory(r2)),
{
    lemma_sweep_throttled(s0.timers.next_cache_sweep, t1, t2, s0.config.memory_lifespan);
}

/// A record written at the end of a request and later loaded back into
/// memory after it left it keeps its contents and expiry, unless it has gone stale by then, in
/// which case it comes back empty with a new expiry.
pub proof fn lemma_save_then_reload(
    a: SessionStore,
    id: u128,
    saved: SessionRecord,
    b: SessionStore,
    now: i64,
    c: SessionStore,
    cookie: String,
)
    requires
        finalized(a, id, Some(saved)),
        !b.cache@.contains_key(id),
        load_completed(b, id, Some(saved), now, c, cookie),
    ensures
        !a.cache@[id].is_stale_at(now) ==> c.cache@[id].data@ == a.cache@[id].data@
            && c.cache@[id].expires == a.cache@[id].expires,
        a.cache@[id].is_stale_at(now) ==> c.cache@[id].data@ == Map::<String, String>::empty()
            && c.cache@[id].expires == later(now, b.config.lifespan),
{
}

} // verus!
