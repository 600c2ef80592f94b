use std::collections::HashMap;
use vstd::prelude::*;

verus! {

/// Settings the session logic reads. Durations are in milliseconds.
pub struct SessionConfig {
    /// Name of the cookie that carries the identifier.
    pub cookie_name: String,
    /// How long the contents of a session stay valid.
    pub lifespan: i64,
    /// How long an idle entry stays in memory; also the memory sweep interval.
    pub memory_lifespan: i64,
}

/// `t` held to the range of `i64`.
pub open spec fn clamp_instant(t: int) -> i64 {
    if t > i64::MAX {
        i64::MAX
    } else if t < i64::MIN {
        i64::MIN
    } else {
        t as i64
    }
}

/// The instant `d` milliseconds after `t`, saturating at the ends of `i64`.
pub open spec fn later(t: i64, d: i64) -> i64 {
    clamp_instant(t + d)
}

/// The instant `d` milliseconds after `t`, saturating at the ends of `i64`.
pub fn offset_instant(t: i64, d: i64) -> (r: i64)
    ensures
        r == later(t, d),
{
    if d >= 0 {
        if t <= i64::MAX - d {
            t + d
        } else {
            i64::MAX
        }
    } else {
        if t >= i64::MIN - d {
            t + d
        } else {
            i64::MIN
        }
    }
}

/// The state of one session.
pub struct SessionRecord {
    pub id: u128,
    pub data: HashMap<String, String>,
    /// After this instant the contents are stale.
    pub expires: i64,
    /// When set, the contents are stale whatever `expires` says.
    pub destroy: bool,
    /// After this instant the memory tier may drop the record.
    pub autoremove: i64,
}

pub struct RecordView {
    pub id: u128,
    pub data: Map<String, String>,
    pub expires: i64,
    pub destroy: bool,
    pub autoremove: i64,
}

impl View for SessionRecord {
    type V = RecordView;

    open spec fn view(&self) -> RecordView {
        RecordView {
            id: self.id,
            data: self.data@,
            expires: self.expires,
            destroy: self.destroy,
            autoremove: self.autoremove,
        }
    }
}

/// A record just created for `id` at `now`: empty, with deadlines from `config`.
pub open spec fn is_fresh(r: SessionRecord, id: u128, now: i64, config: SessionConfig) -> bool {
    &&& r.id == id
    &&& r.data@ == Map::<String, String>::empty()
    &&& r.expires == later(now, config.lifespan)
    &&& !r.destroy
    &&& r.autoremove == later(now, config.memory_lifespan)
}

/// `new` is `old` after a request at `now` kept the session alive: deadlines
/// pushed forward, and, if `old` was stale, the contents dropped and the
/// destroy flag cleared.
pub open spec fn refreshed_from(
    new: SessionRecord,
    old: SessionRecord,
    now: i64,
    config: SessionConfig,
) -> bool {
    &&& new.id == old.id
    &&& !new.destroy
    &&& new.expires == later(now, config.lifespan)
    &&& new.autoremove == later(now, config.memory_lifespan)
    &&& if old.is_stale_at(now) {
        new.data@ == Map::<String, String>::empty()
    } else {
        new.data == old.data
    }
}

impl SessionRecord {
    pub open spec fn is_stale_at(self, now: i64) -> bool {
        self.destroy || self.expires < now
    }

    pub fn is_stale(&self, now: i64) -> (r: bool)
        ensures
            r == self.is_stale_at(now),
    {
        self.destroy || self.expires < now
    }

    pub fn fresh(id: u128, now: i64, config: &SessionConfig) -> (r: Self)
        ensures
            is_fresh(r, id, now, *config),
    {
        SessionRecord {
            id,
            data: HashMap::new(),
            expires: offset_instant(now, config.lifespan),
            destroy: false,
            autoremove: offset_instant(now, config.memory_lifespan),
        }
    }

    /// Extends both deadlines from `now`, first clearing the contents and the
    /// destroy flag if the record is stale.
    pub fn refresh(&mut self, now: i64, config: &SessionConfig)
        ensures
            refreshed_from(*final(self), *old(self), now, *config),
    {
        if self.is_stale(now) {
            self.data = HashMap::new();
            self.destroy = false;
        }
        self.expires = offset_instant(now, config.lifespan);
        self.autoremove = offset_instant(now, config.memory_lifespan);
    }

    /// A copy with the same contents and deadlines.
    pub fn snapshot(&self) -> (r: Self)
        ensures
            r@ == self@,
    {
        SessionRecord {
            id: self.id,
            data: self.data.clone(),
            expires: self.expires,
            destroy: self.destroy,
            autoremove: self.autoremove,
        }
    }
}

} // verus!
