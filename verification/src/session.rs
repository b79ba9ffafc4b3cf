//! The per-connection socket session: a subscription set of sensor keys and
//! a delivery interval, mutated only by control frames received on the same
//! connection. The session holds no key outside the catalog, never holds a
//! key twice, and keeps its interval inside [100, 60000] milliseconds.

use vstd::prelude::*;

use crate::catalog::available_sensors;
use crate::catalog::catalog_contains;
use crate::catalog::catalog_spec;
use crate::catalog::clone_keys;
use crate::catalog::distinct_keys;
use crate::catalog::is_catalog_key;
use crate::catalog::key_views;
use crate::catalog::keys_contain;

verus! {

/// A decoded inbound control frame.
#[derive(Debug)]
pub enum ControlFrame {
    Subscribe { sensors: Option<Vec<String>>, interval: Option<u64> },
    Unsubscribe { sensors: Option<Vec<String>> },
    List,
    Ping,
}

/// An outbound reply to a control frame or to connection open.
#[derive(Debug)]
pub enum Reply {
    Welcome { available_sensors: Vec<String>, message: String },
    Subscribed { sensors: Vec<String>, interval: u64, unknown: Option<Vec<String>> },
    Unsubscribed { sensors: Vec<String>, remaining: Vec<String> },
    SensorsList { sensors: Vec<String> },
    Pong { timestamp_ms: i64 },
}

/// An interval clamped into [100, 60000] milliseconds.
pub open spec fn clamp_spec(i: u64) -> u64 {
    if i < 100 {
        100
    } else if i > 60000 {
        60000
    } else {
        i
    }
}

/// Clamp a requested delivery interval into the accepted range.
pub fn clamp_interval(i: u64) -> (r: u64)
    ensures
        r == clamp_spec(i),
{
    if i < 100 {
        100
    } else if i > 60000 {
        60000
    } else {
        i
    }
}

/// The predicate picking out keys that are not in the catalog.
pub open spec fn non_catalog() -> spec_fn(Seq<char>) -> bool {
    |k: Seq<char>| !is_catalog_key(k)
}

/// The keys a subscribe frame asks for: the named ones, or the whole catalog
/// when none are named.
pub open spec fn requested_or_catalog(sensors: Option<Vec<String>>) -> Seq<Seq<char>> {
    match sensors {
        Some(v) => key_views(v@),
        None => catalog_spec(),
    }
}

/// The keys an unsubscribe frame targets: the named ones, or everything
/// currently subscribed when none are named.
pub open spec fn targets_or_all(sensors: Option<Vec<String>>, current: Seq<Seq<char>>) -> Seq<
    Seq<char>,
> {
    match sensors {
        Some(v) => key_views(v@),
        None => current,
    }
}

pub struct SocketSession {
    subs: Vec<String>,
    interval_ms: u64,
}

/// What handling a subscribe frame promises: valid requested keys are added,
/// invalid ones are reported back and never inserted, the interval (when
/// given) is clamped, and the reply carries the resulting set.
pub open spec fn subscribe_post(
    pre: SocketSession,
    post: SocketSession,
    sensors: Option<Vec<String>>,
    interval: Option<u64>,
    r: Reply,
) -> bool {
    &&& post.wf()
    &&& post.interval() == (match interval {
        Some(i) => clamp_spec(i),
        None => pre.interval(),
    })
    &&& forall|k: Seq<char>|
        post.subs_seq().contains(k) <==> (pre.subs_seq().contains(k) || (requested_or_catalog(
            sensors,
        ).contains(k) && is_catalog_key(k)))
    &&& (match r {
        Reply::Subscribed { sensors: rs, interval: ri, unknown: ru } => {
            &&& key_views(rs@) == post.subs_seq()
            &&& ri == post.interval()
            &&& (match ru {
                None => requested_or_catalog(sensors).filter(non_catalog()).len() == 0,
                Some(u) => key_views(u@) == requested_or_catalog(sensors).filter(non_catalog())
                    && u@.len() > 0,
            })
        },
        _ => false,
    })
}

/// What handling an unsubscribe frame promises: the targeted keys leave the
/// set and the reply lists the targets and what remains.
pub open spec fn unsubscribe_post(
    pre: SocketSession,
    post: SocketSession,
    sensors: Option<Vec<String>>,
    r: Reply,
) -> bool {
    &&& post.wf()
    &&& post.interval() == pre.interval()
    &&& forall|k: Seq<char>|
        post.subs_seq().contains(k) <==> (pre.subs_seq().contains(k) && !targets_or_all(
            sensors,
            pre.subs_seq(),
        ).contains(k))
    &&& (match r {
        Reply::Unsubscribed { sensors: rs, remaining } => {
            &&& key_views(rs@) == targets_or_all(sensors, pre.subs_seq())
            &&& key_views(remaining@) == post.subs_seq()
        },
        _ => false,
    })
}

/// What a list frame promises: the full catalog, independent of the
/// session's own subscriptions, and no state change.
pub open spec fn list_post(pre: SocketSession, post: SocketSession, r: Reply) -> bool {
    &&& post == pre
    &&& (match r {
        Reply::SensorsList { sensors } => key_views(sensors@) == catalog_spec(),
        _ => false,
    })
}

/// What a ping frame promises: exactly one pong carrying the given
/// timestamp, and no state change.
pub open spec fn ping_post(pre: SocketSession, post: SocketSession, now_ms: i64, r: Reply) -> bool {
    &&& post == pre
    &&& r == (Reply::Pong { timestamp_ms: now_ms })
}

impl SocketSession {
    /// The subscription set, as the sequence of key views held.
    pub closed spec fn subs_seq(&self) -> Seq<Seq<char>> {
        key_views(self.subs@)
    }

    /// The current delivery interval in milliseconds.
    pub closed spec fn interval(&self) -> u64 {
        self.interval_ms
    }

    /// Session invariant: every held key is a catalog key, no key is held
    /// twice, and the interval lies in [100, 60000].
    pub open spec fn wf(&self) -> bool {
        &&& 100 <= self.interval() <= 60000
        &&& distinct_keys(self.subs_seq())
        &&& forall|i: int|
            0 <= i < self.subs_seq().len() ==> is_catalog_key(#[trigger] self.subs_seq()[i])
    }

    /// A fresh session: empty subscription set, default interval.
    pub fn new() -> (s: SocketSession)
        ensures
            s.wf(),
            s.subs_seq().len() == 0,
            s.interval() == 1000,
    {
        SocketSession { subs: Vec::new(), interval_ms: 1000 }
    }

    /// The current delivery interval in milliseconds, as the timer uses it.
    pub fn interval_ms(&self) -> (n: u64)
        ensures
            n == self.interval(),
    {
        self.interval_ms
    }

    /// The number of keys currently subscribed.
    pub fn subscription_count(&self) -> (n: usize)
        ensures
            n == self.subs_seq().len(),
    {
        self.subs.len()
    }

    /// The keys to deliver on one timer tick: each subscribed key exactly
    /// once. An empty result means the tick delivers nothing.
    pub fn tick_keys(&self) -> (r: Vec<String>)
        ensures
            key_views(r@) == self.subs_seq(),
    {
        clone_keys(&self.subs)
    }

    /// The greeting sent on entry to the open state: the full catalog and a
    /// connection message.
    pub fn welcome(&self) -> (r: Reply)
        ensures
            (match r {
                Reply::Welcome { available_sensors: avail, message } => key_views(avail@)
                    == catalog_spec() && message@
                    == "Connected to Simmurator WebSocket. Send subscribe action to start."@,
                _ => false,
            }),
    {
        Reply::Welcome {
            available_sensors: available_sensors(),
            message: "Connected to Simmurator WebSocket. Send subscribe action to start.".to_owned(),
        }
    }

    /// Handle a subscribe frame: add the valid requested keys, collect the
    /// invalid ones, clamp and adopt a given interval, and report the
    /// resulting set.
    pub fn apply_subscribe(&mut self, sensors: Option<Vec<String>>, interval: Option<u64>) -> (r:
        Reply)
        requires
            old(self).wf(),
        ensures
            subscribe_post(*old(self), *final(self), sensors, interval, r),
    {
        broadcast use vstd::seq_lib::group_filter_ensures;
        broadcast use Seq::lemma_filter_push;
        broadcast use vstd::seq_lib::group_seq_properties;

        let requested: Vec<String> = match sensors {
            Some(v) => v,
            None => available_sensors(),
        };
        let ghost rq: Seq<Seq<char>> = key_views(requested@);
        proof {
            assert(rq =~= requested_or_catalog(sensors));
        }
        let mut unknown: Vec<String> = Vec::new();
        let mut i: usize = 0;
        while i < requested.len()
            invariant
                old(self).wf(),
                i <= requested@.len(),
                rq == key_views(requested@),
                self.interval_ms == old(self).interval_ms,
                distinct_keys(self.subs_seq()),
                forall|j: int|
                    0 <= j < self.subs_seq().len() ==> is_catalog_key(
                        #[trigger] self.subs_seq()[j],
                    ),
                forall|k: Seq<char>|
                    self.subs_seq().contains(k) <==> (old(self).subs_seq().contains(k) || (rq.take(
                        i as int,
                    ).contains(k) && is_catalog_key(k))),
                key_views(unknown@) == rq.take(i as int).filter(non_catalog()),
            decreases requested@.len() - i,
        {
            let s = &requested[i];
            let ghost subs0 = self.subs_seq();
            let ghost unknown0 = key_views(unknown@);
            let ghost rqi = rq.take(i as int);
            let ghost rqi1 = rq.take(i as int + 1);
            proof {
                assert(rq[i as int] == s@);
                assert(rqi1 =~= rqi.push(s@));
                // Membership in the one-longer prefix: the old keys and s.
                assert forall|k: Seq<char>| #[trigger]
                    rqi1.contains(k) implies (rqi.contains(k) || k == s@) by {
                    let idx = choose|idx: int| 0 <= idx < rqi1.len() && rqi1[idx] == k;
                    if idx < rqi.len() {
                        assert(rqi[idx] == k);
                    }
                }
                assert(rqi1.contains(s@)) by {
                    assert(rqi1[rqi.len() as int] == s@);
                }
                assert forall|k: Seq<char>| #[trigger]
                    rqi.contains(k) implies rqi1.contains(k) by {
                    let idx = choose|idx: int| 0 <= idx < rqi.len() && rqi[idx] == k;
                    assert(rqi1[idx] == k);
                }
                assert(non_catalog()(s@) == !is_catalog_key(s@));
            }
            if catalog_contains(s.as_str()) {
                if !keys_contain(&self.subs, s) {
                    self.subs.push(s.clone());
                    proof {
                        assert(self.subs_seq() =~= subs0.push(s@));
                        assert forall|k: Seq<char>| #[trigger]
                            self.subs_seq().contains(k) implies (subs0.contains(k) || k == s@) by {
                            let idx = choose|idx: int|
                                0 <= idx < self.subs_seq().len() && self.subs_seq()[idx] == k;
                            if idx < subs0.len() {
                                assert(subs0[idx] == k);
                            }
                        }
                        assert(self.subs_seq().contains(s@)) by {
                            assert(self.subs_seq()[subs0.len() as int] == s@);
                        }
                        assert forall|k: Seq<char>| #[trigger]
                            subs0.contains(k) implies self.subs_seq().contains(k) by {
                            let idx = choose|idx: int| 0 <= idx < subs0.len() && subs0[idx] == k;
                            assert(self.subs_seq()[idx] == k);
                        }
                    }
                } else {
                    proof {
                        assert(self.subs_seq().contains(s@));
                    }
                }
                proof {
                    assert(key_views(unknown@) == rqi1.filter(non_catalog())) by {
                        rqi.lemma_filter_push(s@, non_catalog());
                        assert(!non_catalog()(s@));
                        assert(rqi.push(s@).filter(non_catalog()) == rqi.filter(non_catalog()));
                    }
                }
            } else {
                unknown.push(s.clone());
                proof {
                    assert(key_views(unknown@) =~= unknown0.push(s@));
                    assert(key_views(unknown@) == rqi1.filter(non_catalog())) by {
                        rqi.lemma_filter_push(s@, non_catalog());
                        assert(non_catalog()(s@));
                        assert(rqi.push(s@).filter(non_catalog()) == rqi.filter(non_catalog()).push(
                            s@,
                        ));
                    }
                }
            }
            proof {
                assert forall|k: Seq<char>| #[trigger]
                    self.subs_seq().contains(k) <==> (old(self).subs_seq().contains(k) || (
                    rqi1.contains(k) && is_catalog_key(k))) by {}
            }
            i += 1;
        }
        proof {
            assert(rq.take(rq.len() as int) =~= rq);
        }
        match interval {
            Some(ivl) => {
                self.interval_ms = clamp_interval(ivl);
            },
            None => {},
        }
        let reply_sensors = clone_keys(&self.subs);
        let unknown_reply: Option<Vec<String>> = if unknown.len() == 0 {
            proof {
                assert(key_views(unknown@).len() == 0);
                assert(requested_or_catalog(sensors).filter(non_catalog()).len() == 0);
            }
            None
        } else {
            Some(unknown)
        };
        Reply::Subscribed {
            sensors: reply_sensors,
            interval: self.interval_ms,
            unknown: unknown_reply,
        }
    }

    /// Handle an unsubscribe frame: drop the targeted keys (or all of them
    /// when none are named) and report what was targeted and what remains.
    pub fn apply_unsubscribe(&mut self, sensors: Option<Vec<String>>) -> (r: Reply)
        requires
            old(self).wf(),
        ensures
            unsubscribe_post(*old(self), *final(self), sensors, r),
    {
        broadcast use vstd::seq_lib::group_seq_properties;

        let ghost current = old(self).subs_seq();
        let targets: Vec<String> = match sensors {
            Some(v) => v,
            None => clone_keys(&self.subs),
        };
        let ghost tg: Seq<Seq<char>> = key_views(targets@);
        proof {
            assert(tg =~= targets_or_all(sensors, current));
        }
        let mut kept: Vec<String> = Vec::new();
        let mut i: usize = 0;
        while i < self.subs.len()
            invariant
                old(self).wf(),
                *self == *old(self),
                tg == key_views(targets@),
                i <= self.subs@.len(),
                distinct_keys(key_views(kept@)),
                forall|k: Seq<char>|
                    #![trigger key_views(kept@).contains(k)]
                    #![trigger self.subs_seq().take(i as int).contains(k)]
                    key_views(kept@).contains(k) <==> (self.subs_seq().take(i as int).contains(k)
                        && !tg.contains(k)),
                forall|j: int|
                    0 <= j < key_views(kept@).len() ==> self.subs_seq().contains(
                        #[trigger] key_views(kept@)[j],
                    ),
            decreases self.subs@.len() - i,
        {
            let s = &self.subs[i];
            let ghost cur = self.subs_seq();
            let ghost curi = cur.take(i as int);
            let ghost curi1 = cur.take(i as int + 1);
            proof {
                assert(cur[i as int] == s@);
                assert(curi1 =~= curi.push(s@));
                assert forall|k: Seq<char>| #[trigger]
                    curi1.contains(k) implies (curi.contains(k) || k == s@) by {
                    let idx = choose|idx: int| 0 <= idx < curi1.len() && curi1[idx] == k;
                    if idx < curi.len() {
                        assert(curi[idx] == k);
                    }
                }
                assert(curi1.contains(s@)) by {
                    assert(curi1[curi.len() as int] == s@);
                }
                assert forall|k: Seq<char>| #[trigger]
                    curi.contains(k) implies curi1.contains(k) by {
                    let idx = choose|idx: int| 0 <= idx < curi.len() && curi[idx] == k;
                    assert(curi1[idx] == k);
                }
            }
            if !keys_contain(&targets, s) {
                let ghost kept0 = key_views(kept@);
                proof {
                    // s is not yet in kept: kept holds only keys of subs[..i],
                    // and subs holds no key twice.
                    if kept0.contains(s@) {
                        let idx = choose|idx: int| 0 <= idx < curi.len() && curi[idx] == s@;
                        assert(cur[idx] == cur[i as int]);
                        assert(false);
                    }
                }
                kept.push(s.clone());
                proof {
                    assert(key_views(kept@) =~= kept0.push(s@));
                    assert forall|k: Seq<char>| #[trigger]
                        key_views(kept@).contains(k) implies (kept0.contains(k) || k == s@) by {
                        let idx = choose|idx: int|
                            0 <= idx < key_views(kept@).len() && key_views(kept@)[idx] == k;
                        if idx < kept0.len() {
                            assert(kept0[idx] == k);
                        }
                    }
                    assert(key_views(kept@).contains(s@)) by {
                        assert(key_views(kept@)[kept0.len() as int] == s@);
                    }
                    assert forall|k: Seq<char>| #[trigger]
                        kept0.contains(k) implies key_views(kept@).contains(k) by {
                        let idx = choose|idx: int| 0 <= idx < kept0.len() && kept0[idx] == k;
                        assert(key_views(kept@)[idx] == k);
                    }
                    assert forall|k: Seq<char>|
                        key_views(kept@).contains(k) == (curi1.contains(k) && !tg.contains(k)) by {
                        assert(kept0.contains(k) == (curi.contains(k) && !tg.contains(k)));
                        if curi1.contains(k) && !tg.contains(k) && k != s@ {
                            assert(curi.contains(k));
                        }
                        if key_views(kept@).contains(k) && k != s@ {
                            assert(kept0.contains(k));
                            assert(curi1.contains(k));
                        }
                    }
                }
            } else {
                proof {
                    // s is a targeted key, so it stays out and nothing changes.
                    assert(tg.contains(s@));
                    let ghost kept0 = key_views(kept@);
                    assert forall|k: Seq<char>|
                        key_views(kept@).contains(k) == (curi1.contains(k) && !tg.contains(k)) by {
                        assert(kept0.contains(k) == (curi.contains(k) && !tg.contains(k)));
                        if curi1.contains(k) && !tg.contains(k) {
                            assert(k != s@);
                            assert(curi.contains(k));
                        }
                        if kept0.contains(k) {
                            assert(curi1.contains(k));
                        }
                    }
                }
            }
            i += 1;
        }
        proof {
            assert(self.subs_seq().take(self.subs_seq().len() as int) =~= self.subs_seq());
        }
        self.subs = kept;
        let remaining = clone_keys(&self.subs);
        Reply::Unsubscribed { sensors: targets, remaining }
    }

    /// Handle a list frame: the full catalog, the session unchanged.
    pub fn apply_list(&mut self) -> (r: Reply)
        requires
            old(self).wf(),
        ensures
            list_post(*old(self), *final(self), r),
    {
        let sensors = available_sensors();
        proof {
            assert(key_views(sensors@) =~= catalog_spec());
        }
        Reply::SensorsList { sensors }
    }

    /// Handle a ping frame: exactly one pong with the given timestamp, the
    /// session unchanged.
    pub fn apply_ping(&mut self, now_ms: i64) -> (r: Reply)
        requires
            old(self).wf(),
        ensures
            ping_post(*old(self), *final(self), now_ms, r),
    {
        Reply::Pong { timestamp_ms: now_ms }
    }

    /// Dispatch one decoded control frame against the session state.
    pub fn apply_frame(&mut self, frame: ControlFrame, now_ms: i64) -> (r: Reply)
        requires
            old(self).wf(),
        ensures
            final(self).wf(),
            (match frame {
                ControlFrame::Subscribe { sensors, interval } => subscribe_post(
                    *old(self),
                    *final(self),
                    sensors,
                    interval,
                    r,
                ),
                ControlFrame::Unsubscribe { sensors } => unsubscribe_post(
                    *old(self),
                    *final(self),
                    sensors,
                    r,
                ),
                ControlFrame::List => list_post(*old(self), *final(self), r),
                ControlFrame::Ping => ping_post(*old(self), *final(self), now_ms, r),
            }),
    {
        match frame {
            ControlFrame::Subscribe { sensors, interval } => self.apply_subscribe(
                sensors,
                interval,
            ),
            ControlFrame::Unsubscribe { sensors } => self.apply_unsubscribe(sensors),
            ControlFrame::List => self.apply_list(),
            ControlFrame::Ping => self.apply_ping(now_ms),
        }
    }
}

} // verus!
