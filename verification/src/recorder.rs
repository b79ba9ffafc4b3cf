//! The Access Recorder: a bounded log of recent request outcomes, newest
//! first, and a monotonic all-time counter. Identifiers are assigned when a
//! record is appended, strictly increase, and are never reused; the log never
//! holds more than 500 entries, the oldest leaving first.

use vstd::prelude::*;

use crate::clock::now_millis;

verus! {

/// How many entries the log retains at most.
pub const LOG_BOUND: usize = 500;

/// One completed request, before the recorder assigned it an identifier and
/// a timestamp.
#[derive(Debug)]
pub struct PendingRecord {
    pub ip: String,
    pub user_agent: String,
    pub endpoint: String,
    pub method: String,
    pub status_code: u16,
    pub response_time_ms: u64,
    pub device_id: Option<String>,
}

/// One completed request as retained by the recorder: immutable once stored.
#[derive(Clone, Debug)]
pub struct AccessRecord {
    pub id: u64,
    pub timestamp_ms: i64,
    pub ip: String,
    pub user_agent: String,
    pub endpoint: String,
    pub method: String,
    pub status_code: u16,
    pub response_time_ms: u64,
    pub device_id: Option<String>,
}

impl AccessRecord {
    /// An exact copy, field by field.
    pub fn duplicate(&self) -> (r: AccessRecord)
        ensures
            r == *self,
    {
        AccessRecord {
            id: self.id,
            timestamp_ms: self.timestamp_ms,
            ip: self.ip.clone(),
            user_agent: self.user_agent.clone(),
            endpoint: self.endpoint.clone(),
            method: self.method.clone(),
            status_code: self.status_code,
            response_time_ms: self.response_time_ms,
            device_id: (match &self.device_id {
                Some(d) => Some(d.clone()),
                None => None,
            }),
        }
    }
}

/// The record an append call returns, related to its input and to the
/// counter: the next identifier, the input's fields, some timestamp.
pub open spec fn assigned_from(r: AccessRecord, pending: PendingRecord, prior_total: u64) -> bool {
    &&& r.id == prior_total + 1
    &&& r.ip == pending.ip
    &&& r.user_agent == pending.user_agent
    &&& r.endpoint == pending.endpoint
    &&& r.method == pending.method
    &&& r.status_code == pending.status_code
    &&& r.response_time_ms == pending.response_time_ms
    &&& r.device_id == pending.device_id
}

pub struct AccessRecorder {
    log: Vec<AccessRecord>,
    total: u64,
}

impl AccessRecorder {
    /// The retained log, newest first.
    pub closed spec fn log_seq(&self) -> Seq<AccessRecord> {
        self.log@
    }

    /// The all-time count of recorded requests; it may exceed what the log
    /// still retains.
    pub closed spec fn spec_total(&self) -> u64 {
        self.total
    }

    /// Recorder invariant: the log is bounded, and the entry at position i
    /// (newest first) carries identifier total - i. Identifiers therefore
    /// strictly decrease front to back and are never reused.
    pub open spec fn wf(&self) -> bool {
        &&& self.log_seq().len() <= 500
        &&& self.log_seq().len() <= self.spec_total()
        &&& forall|i: int|
            0 <= i < self.log_seq().len() ==> (#[trigger] self.log_seq()[i].id) == self.spec_total()
                - i
    }

    /// A fresh recorder: empty log, counter at zero.
    pub fn new() -> (r: AccessRecorder)
        ensures
            r.wf(),
            r.spec_total() == 0,
            r.log_seq().len() == 0,
    {
        AccessRecorder { log: Vec::new(), total: 0 }
    }

    /// The all-time count of recorded requests.
    pub fn total(&self) -> (n: u64)
        ensures
            n == self.spec_total(),
    {
        self.total
    }

    /// How many entries the log currently retains.
    pub fn retained(&self) -> (n: usize)
        ensures
            n == self.log_seq().len(),
    {
        self.log.len()
    }

    /// Assign the next identifier, timestamp the entry, insert it at the
    /// front, truncate the log to its bound, and return the stored copy.
    pub fn record(&mut self, pending: PendingRecord) -> (r: AccessRecord)
        requires
            old(self).wf(),
            old(self).spec_total() < u64::MAX,
        ensures
            final(self).wf(),
            final(self).spec_total() == old(self).spec_total() + 1,
            assigned_from(r, pending, old(self).spec_total()),
            final(self).log_seq() == seq![r] + old(self).log_seq().take(
                vstd::math::min(old(self).log_seq().len() as int, 499),
            ),
    {
        let id = self.total + 1;
        self.total = id;
        let timestamp_ms = now_millis();
        let r = AccessRecord {
            id,
            timestamp_ms,
            ip: pending.ip,
            user_agent: pending.user_agent,
            endpoint: pending.endpoint,
            method: pending.method,
            status_code: pending.status_code,
            response_time_ms: pending.response_time_ms,
            device_id: pending.device_id,
        };
        let stored = r.duplicate();
        let ghost pre_log = self.log@;
        self.log.insert(0, stored);
        if self.log.len() > LOG_BOUND {
            self.log.truncate(LOG_BOUND);
        }
        proof {
            if pre_log.len() >= 500 {
                assert(self.log@ =~= seq![r] + pre_log.take(499));
            } else {
                assert(self.log@ =~= seq![r] + pre_log.take(pre_log.len() as int));
            }
        }
        r
    }

    /// A copy of everything the log currently retains, newest first.
    pub fn snapshot(&self) -> (r: Vec<AccessRecord>)
        ensures
            r@ == self.log_seq(),
    {
        let mut r: Vec<AccessRecord> = Vec::new();
        let mut i: usize = 0;
        while i < self.log.len()
            invariant
                i <= self.log@.len(),
                r@ == self.log@.take(i as int),
            decreases self.log@.len() - i,
        {
            r.push(self.log[i].duplicate());
            assert(r@ =~= self.log@.take(i + 1 as int));
            i += 1;
        }
        proof {
            assert(r@ =~= self.log@);
        }
        r
    }

    /// The `limit` most recent entries, newest first; `limit` defaults to 50
    /// when absent.
    pub fn recent(&self, limit: Option<usize>) -> (r: Vec<AccessRecord>)
        ensures
            r@ == self.log_seq().take(
                vstd::math::min(effective_limit(limit) as int, self.log_seq().len() as int),
            ),
    {
        let lim = match limit {
            Some(n) => n,
            None => 50,
        };
        let count = if lim < self.log.len() {
            lim
        } else {
            self.log.len()
        };
        let mut r: Vec<AccessRecord> = Vec::new();
        let mut i: usize = 0;
        while i < count
            invariant
                i <= count,
                count <= self.log@.len(),
                r@ == self.log@.take(i as int),
            decreases count - i,
        {
            r.push(self.log[i].duplicate());
            assert(r@ =~= self.log@.take(i + 1 as int));
            i += 1;
        }
        proof {
            assert(r@ =~= self.log_seq().take(
                vstd::math::min(effective_limit(limit) as int, self.log_seq().len() as int),
            ));
        }
        r
    }
}

/// The limit a read-recent call uses: the given one, or 50 when absent.
pub open spec fn effective_limit(limit: Option<usize>) -> usize {
    match limit {
        Some(n) => n,
        None => 50,
    }
}

/// Law: retained identifiers strictly decrease from the front of the log to
/// the back, so a recent() slice is in strictly decreasing identifier order
/// and holds no identifier twice.
pub proof fn lemma_identifiers_strictly_decreasing(rec: &AccessRecorder)
    requires
        rec.wf(),
    ensures
        forall|i: int, j: int|
            0 <= i < j < rec.log_seq().len() ==> rec.log_seq()[i].id > rec.log_seq()[j].id,
{
}

/// Law: the retained identifiers are exactly the contiguous range from
/// total - retained + 1 up to total: no duplicates and no gaps. Together
/// with record()'s promise that each call returns identifier total + 1 and
/// a fresh recorder's total of 0, the identifiers a run of n record calls
/// assigns are exactly 1 through n.
pub proof fn lemma_retained_ids_contiguous(rec: &AccessRecorder, n: u64)
    requires
        rec.wf(),
        rec.spec_total() - rec.log_seq().len() < n <= rec.spec_total(),
    ensures
        exists|i: int| 0 <= i < rec.log_seq().len() && (#[trigger] rec.log_seq()[i].id) == n,
{
    let i = rec.spec_total() - n;
    assert(rec.log_seq()[i as int].id == n);
}

/// A run of record calls, step by step: `totals` holds the counter before
/// the first call and after each one, `ids` the identifier each call
/// returned. The three clauses are what new() and record() promise.
pub open spec fn run_steps(totals: Seq<u64>, ids: Seq<u64>) -> bool {
    &&& totals.len() == ids.len() + 1
    &&& totals[0] == 0
    &&& forall|j: int|
        #![trigger ids[j]]
        0 <= j < ids.len() ==> totals[j + 1] == totals[j] + 1 && ids[j] == totals[j] + 1
}

proof fn lemma_run_counter_counts(totals: Seq<u64>, ids: Seq<u64>, k: int)
    requires
        run_steps(totals, ids),
        0 <= k <= ids.len(),
    ensures
        totals[k] == k,
    decreases k,
{
    if k > 0 {
        lemma_run_counter_counts(totals, ids, k - 1);
        assert(ids[k - 1] == totals[k - 1] + 1);
        assert(totals[k] == totals[k - 1] + 1);
    }
}

/// Law: identifier assignment is dense over a run. The hypotheses are
/// exactly what new() and record() promise — the counter starts at 0, and
/// each call moves it from n to n + 1 and returns identifier n + 1 — so over
/// any serialized run (concurrent callers serialize on a short critical
/// section per record) the k-th call returns identifier k + 1: N calls
/// return exactly the identifiers 1 through N, no duplicate, no gap.
pub proof fn lemma_run_ids_exactly_one_to_n(totals: Seq<u64>, ids: Seq<u64>)
    requires
        run_steps(totals, ids),
    ensures
        forall|k: int| 0 <= k < ids.len() ==> ids[k] == k + 1,
{
    assert forall|k: int| 0 <= k < ids.len() implies ids[k] == k + 1 by {
        lemma_run_counter_counts(totals, ids, k);
        assert(ids[k] == totals[k] + 1);
    }
}

/// Law: an append keeps the bound and evicts only the oldest. From what
/// record() promises of the new log, the fresh entry stands at the front,
/// every retained entry keeps its order one place back, the log stays within
/// 500, and when the log was full the one entry dropped is its last — the
/// one with the smallest retained identifier.
pub proof fn lemma_eviction_drops_only_oldest(
    pre: &AccessRecorder,
    post: &AccessRecorder,
    r: AccessRecord,
)
    requires
        pre.wf(),
        post.log_seq() == seq![r] + pre.log_seq().take(
            vstd::math::min(pre.log_seq().len() as int, 499),
        ),
    ensures
        post.log_seq().len() <= 500,
        post.log_seq()[0] == r,
        forall|i: int|
            0 <= i < vstd::math::min(pre.log_seq().len() as int, 499) ==> post.log_seq()[i + 1]
                == pre.log_seq()[i],
        pre.log_seq().len() == 500 ==> forall|i: int|
            0 <= i < 499 ==> pre.log_seq()[499].id < (#[trigger] pre.log_seq()[i]).id,
{
}

/// Law: the slice recent() returns is in strictly decreasing identifier
/// order, whatever limit is asked for.
pub proof fn lemma_recent_strictly_decreasing(rec: &AccessRecorder, limit: Option<usize>)
    requires
        rec.wf(),
    ensures
        ({
            let r = rec.log_seq().take(
                vstd::math::min(effective_limit(limit) as int, rec.log_seq().len() as int),
            );
            forall|i: int, j: int| 0 <= i < j < r.len() ==> r[i].id > r[j].id
        }),
{
}

/// Law: the log never holds more than 500 entries.
pub proof fn lemma_log_bounded(rec: &AccessRecorder)
    requires
        rec.wf(),
    ensures
        rec.log_seq().len() <= 500,
{
}

} // verus!
