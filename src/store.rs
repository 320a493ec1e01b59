use vstd::prelude::*;
use std::collections::HashMap;
use crate::models::JobResult;

verus! {

/// How long a stored result stays visible, in milliseconds (five minutes).
pub const RESULT_TTL_MS: u64 = 300_000;

/// A stored result together with the instant at which it expires.
#[derive(Debug)]
pub struct StoredResult {
    pub result: JobResult,
    pub expires_at: u64,
}

/// The shared map from job identifier to finished result. Time is passed in
/// by the caller as milliseconds on a monotonic clock.
pub struct ResultStore {
    entries: HashMap<u128, StoredResult>,
}

/// The expiry instant of a result stored at `now`, saturating at the end of time.
pub open spec fn deadline_after(now: u64) -> u64 {
    if now as int + RESULT_TTL_MS as int > u64::MAX as int {
        u64::MAX
    } else {
        (now + RESULT_TTL_MS) as u64
    }
}

/// What a lookup at `now` sees in the stored entries `m`.
pub open spec fn visible(m: Map<u128, StoredResult>, id: u128, now: u64) -> Option<JobResult> {
    if m.contains_key(id) && now < m[id].expires_at {
        Some(m[id].result)
    } else {
        None
    }
}

impl View for ResultStore {
    type V = Map<u128, StoredResult>;

    closed spec fn view(&self) -> Map<u128, StoredResult> {
        self.entries@
    }
}

impl ResultStore {
    pub fn new() -> (r: ResultStore)
        ensures
            r@ == Map::<u128, StoredResult>::empty(),
    {
        ResultStore { entries: HashMap::new() }
    }

    /// Stores `result` under `id` at instant `now`; it expires `RESULT_TTL_MS` later.
    pub fn put(&mut self, id: u128, result: JobResult, now: u64)
        ensures
            final(self)@ == old(self)@.insert(
                id,
                StoredResult { result, expires_at: deadline_after(now) },
            ),
    {
        let expires_at: u64 = if now > u64::MAX - RESULT_TTL_MS {
            u64::MAX
        } else {
            now + RESULT_TTL_MS
        };
        self.entries.insert(id, StoredResult { result, expires_at });
    }

    /// The result stored under `id`, unless it is absent or has expired at `now`.
    pub fn get(&self, id: u128, now: u64) -> (r: Option<JobResult>)
        ensures
            r == visible(self@, id, now),
    {
        match self.entries.get(&id) {
            Some(e) => {
                if now < e.expires_at {
                    Some(e.result.duplicate())
                } else {
                    None
                }
            },
            None => None,
        }
    }

    /// Deletes the entry under `id`, if there is one.
    pub fn remove(&mut self, id: u128)
        ensures
            final(self)@ == old(self)@.remove(id),
    {
        self.entries.remove(&id);
    }

    /// Deletes the entry under `id` if it has expired at `now`.
    pub fn evict_if_expired(&mut self, id: u128, now: u64)
        ensures
            old(self)@.contains_key(id) && old(self)@[id].expires_at <= now
                ==> final(self)@ == old(self)@.remove(id),
            !(old(self)@.contains_key(id) && old(self)@[id].expires_at <= now)
                ==> final(self)@ == old(self)@,
    {
        let expired = match self.entries.get(&id) {
            Some(e) => e.expires_at <= now,
            None => false,
        };
        if expired {
            self.entries.remove(&id);
        }
    }
}

/// A result stored at `t0` is seen by every lookup before its deadline and
/// by none at or after it; the deadline is `RESULT_TTL_MS` after `t0`
/// wherever that instant can be represented.
pub proof fn lemma_visible_until_expiry(m: Map<u128, StoredResult>, id: u128, r: JobResult, t0: u64, t: u64)
    ensures
        t0 as int + RESULT_TTL_MS as int <= u64::MAX as int ==> deadline_after(t0) == t0 + RESULT_TTL_MS,
        t < deadline_after(t0) ==> visible(m.insert(id, StoredResult { result: r, expires_at: deadline_after(t0) }), id, t)
            == Some(r),
        t >= deadline_after(t0) ==> visible(m.insert(id, StoredResult { result: r, expires_at: deadline_after(t0) }), id, t)
            is None,
{
}

/// Removing an entry twice is the same as removing it once, and after any
/// removal no lookup sees it; evicting an expired entry is idempotent too.
pub proof fn lemma_removal_idempotent(m: Map<u128, StoredResult>, id: u128, t: u64)
    ensures
        m.remove(id).remove(id) == m.remove(id),
        visible(m.remove(id), id, t) is None,
        m.contains_key(id) && m[id].expires_at <= t ==> visible(m, id, t) is None,
{
    assert(m.remove(id).remove(id) =~= m.remove(id));
}

} // verus!
