//! The Stats Aggregator: per-endpoint request counts, error counts and
//! latency totals, computed fresh from the recorder's retained log each time
//! it is asked — never maintained incrementally.

use vstd::prelude::*;

use crate::catalog::distinct_keys;
use crate::hub::Broadcaster;
use crate::recorder::AccessRecord;
use crate::recorder::AccessRecorder;

verus! {

/// How many retained records hit the given endpoint path.
pub open spec fn count_for(log: Seq<AccessRecord>, path: Seq<char>) -> int
    decreases log.len(),
{
    if log.len() == 0 {
        0
    } else {
        count_for(log.drop_last(), path) + (if log.last().endpoint@ == path {
            1int
        } else {
            0int
        })
    }
}

/// The summed response time of the retained records on the given path.
pub open spec fn total_time_for(log: Seq<AccessRecord>, path: Seq<char>) -> int
    decreases log.len(),
{
    if log.len() == 0 {
        0
    } else {
        total_time_for(log.drop_last(), path) + (if log.last().endpoint@ == path {
            log.last().response_time_ms as int
        } else {
            0int
        })
    }
}

/// How many retained records on the given path carry an error status
/// (status code 400 or above).
pub open spec fn error_count_for(log: Seq<AccessRecord>, path: Seq<char>) -> int
    decreases log.len(),
{
    if log.len() == 0 {
        0
    } else {
        error_count_for(log.drop_last(), path) + (if log.last().endpoint@ == path
            && log.last().status_code >= 400 {
            1int
        } else {
            0int
        })
    }
}

/// The average latency: total over count with truncating integer division,
/// or 0 when the count is 0.
pub open spec fn avg_spec(count: int, total: int) -> int {
    if count > 0 {
        total / count
    } else {
        0
    }
}

/// The aggregate derived for one endpoint path.
#[derive(Debug)]
pub struct EndpointStats {
    pub path: String,
    pub count: u64,
    pub total_time_ms: u128,
    pub error_count: u64,
    pub avg_time_ms: u128,
}

/// Whether one aggregate row states exactly the counts the log induces for
/// its path.
pub open spec fn stats_entry_correct(log: Seq<AccessRecord>, e: EndpointStats) -> bool {
    &&& e.count == count_for(log, e.path@)
    &&& e.total_time_ms == total_time_for(log, e.path@)
    &&& e.error_count == error_count_for(log, e.path@)
    &&& e.avg_time_ms == avg_spec(count_for(log, e.path@), total_time_for(log, e.path@))
}

/// The summed response time never exceeds one maximal response time per
/// retained record.
proof fn lemma_total_time_bound(log: Seq<AccessRecord>, path: Seq<char>)
    ensures
        0 <= total_time_for(log, path) <= log.len() * (u64::MAX as int),
    decreases log.len(),
{
    if log.len() > 0 {
        lemma_total_time_bound(log.drop_last(), path);
        assert((log.len() - 1) * (u64::MAX as int) + (u64::MAX as int) == log.len() * (
        u64::MAX as int)) by (nonlinear_arith);
    }
}

/// One pass over the whole log, accumulating the counts for one path.
pub fn stats_for_path(log: &Vec<AccessRecord>, path: &String) -> (e: EndpointStats)
    ensures
        e.path@ == path@,
        stats_entry_correct(log@, e),
{
    let mut count: u64 = 0;
    let mut total: u128 = 0;
    let mut errors: u64 = 0;
    let mut i: usize = 0;
    while i < log.len()
        invariant
            i <= log@.len(),
            count == count_for(log@.take(i as int), path@),
            total == total_time_for(log@.take(i as int), path@),
            errors == error_count_for(log@.take(i as int), path@),
            count <= i,
            errors <= i,
        decreases log@.len() - i,
    {
        proof {
            assert(log@.take(i as int + 1).drop_last() =~= log@.take(i as int));
            assert(log@.take(i as int + 1).last() == log@[i as int]);
            lemma_total_time_bound(log@.take(i as int), path@);
            assert((i as int) * (u64::MAX as int) + (u64::MAX as int) < u128::MAX) by (
            nonlinear_arith)
                requires
                    i < usize::MAX,
            ;
        }
        let entry = &log[i];
        if entry.endpoint == *path {
            count = count + 1;
            total = total + (entry.response_time_ms as u128);
            if entry.status_code >= 400 {
                errors = errors + 1;
            }
        }
        i += 1;
    }
    proof {
        assert(log@.take(log@.len() as int) =~= log@);
    }
    let avg: u128 = if count > 0 {
        total / (count as u128)
    } else {
        0
    };
    EndpointStats { path: path.clone(), count, total_time_ms: total, error_count: errors, avg_time_ms: avg }
}

/// Whether a sequence of aggregate rows has one for the given path.
pub open spec fn path_reported(rows: Seq<EndpointStats>, path: Seq<char>) -> bool {
    exists|j: int| 0 <= j < rows.len() && (#[trigger] rows[j].path@) == path
}

/// Whether some retained record hit the given path.
pub open spec fn log_has_path(log: Seq<AccessRecord>, path: Seq<char>) -> bool {
    exists|i: int| 0 <= i < log.len() && (#[trigger] log[i].endpoint@) == path
}

/// Whether the aggregate already has a row for the given path.
fn stats_contain_path(out: &Vec<EndpointStats>, path: &String) -> (b: bool)
    ensures
        b == path_reported(out@, path@),
{
    let mut j: usize = 0;
    while j < out.len()
        invariant
            j <= out@.len(),
            forall|t: int| 0 <= t < j ==> (#[trigger] out@[t].path@) != path@,
        decreases out@.len() - j,
    {
        if out[j].path == *path {
            assert(path_reported(out@, path@)) by {
                assert(out@[j as int].path@ == path@);
            }
            return true;
        }
        j += 1;
    }
    assert(!path_reported(out@, path@));
    false
}

/// Derive the per-endpoint aggregates from a retained log: one row per
/// distinct endpoint path, each stating exactly the counts, total latency,
/// error count and truncated average the log induces for it.
#[verifier::rlimit(100)]
pub fn compute_stats(log: &Vec<AccessRecord>) -> (r: Vec<EndpointStats>)
    ensures
        forall|j: int| 0 <= j < r@.len() ==> stats_entry_correct(log@, #[trigger] r@[j]),
        distinct_keys(r@.map_values(|e: EndpointStats| e.path@)),
        forall|i: int| 0 <= i < log@.len() ==> path_reported(r@, #[trigger] log@[i].endpoint@),
        forall|j: int| 0 <= j < r@.len() ==> log_has_path(log@, #[trigger] r@[j].path@),
{
    let mut out: Vec<EndpointStats> = Vec::new();
    let mut i: usize = 0;
    while i < log.len()
        invariant
            i <= log@.len(),
            forall|j: int| 0 <= j < out@.len() ==> stats_entry_correct(log@, #[trigger] out@[j]),
            distinct_keys(out@.map_values(|e: EndpointStats| e.path@)),
            forall|t: int| 0 <= t < i ==> path_reported(out@, #[trigger] log@[t].endpoint@),
            forall|j: int| 0 <= j < out@.len() ==> log_has_path(log@, #[trigger] out@[j].path@),
        decreases log@.len() - i,
    {
        let entry = &log[i];
        if !stats_contain_path(&out, &entry.endpoint) {
            let ghost out0 = out@;
            let row = stats_for_path(log, &entry.endpoint);
            out.push(row);
            proof {
                assert(out@.map_values(|e: EndpointStats| e.path@) =~= out0.map_values(
                    |e: EndpointStats| e.path@,
                ).push(row.path@));
                assert(out@[out0.len() as int].path@ == entry.endpoint@);
                assert forall|t: int| 0 <= t < i + 1 implies path_reported(
                    out@,
                    #[trigger] log@[t].endpoint@,
                ) by {
                    if t < i {
                        let j = choose|j: int|
                            0 <= j < out0.len() && (#[trigger] out0[j].path@) == log@[t].endpoint@;
                        assert(out@[j].path@ == log@[t].endpoint@);
                    } else {
                        assert(out@[out0.len() as int].path@ == log@[t].endpoint@);
                    }
                }
                assert forall|j: int| 0 <= j < out@.len() implies log_has_path(
                    log@,
                    #[trigger] out@[j].path@,
                ) by {
                    if j < out0.len() {
                        assert(out@[j].path@ == out0[j].path@);
                        assert(log_has_path(log@, out0[j].path@));
                    } else {
                        assert(log@[i as int].endpoint@ == out@[j].path@);
                    }
                }
            }
        } else {
            proof {
                assert forall|t: int| 0 <= t < i + 1 implies path_reported(
                    out@,
                    #[trigger] log@[t].endpoint@,
                ) by {
                    if t == i {
                        assert(path_reported(out@, entry.endpoint@));
                    }
                }
            }
        }
        i += 1;
    }
    out
}

/// The aggregator's full report: the all-time request count, the number of
/// live push-stream subscribers at the moment of the call, and one row per
/// endpoint retained in the log.
#[derive(Debug)]
pub struct StatsReport {
    pub total_requests: u64,
    pub active_connections: usize,
    pub endpoint_stats: Vec<EndpointStats>,
}

/// Compute the full report from the recorder's current retained log and the
/// broadcaster's current subscriber count.
pub fn stats_report(rec: &AccessRecorder, hub: &Broadcaster) -> (r: StatsReport)
    ensures
        r.total_requests == rec.spec_total(),
        forall|j: int|
            0 <= j < r.endpoint_stats@.len() ==> stats_entry_correct(
                rec.log_seq(),
                #[trigger] r.endpoint_stats@[j],
            ),
        distinct_keys(r.endpoint_stats@.map_values(|e: EndpointStats| e.path@)),
        forall|i: int|
            0 <= i < rec.log_seq().len() ==> path_reported(
                r.endpoint_stats@,
                #[trigger] rec.log_seq()[i].endpoint@,
            ),
{
    let log = rec.snapshot();
    let endpoint_stats = compute_stats(&log);
    StatsReport {
        total_requests: rec.total(),
        active_connections: hub.active_count(),
        endpoint_stats,
    }
}

} // verus!
