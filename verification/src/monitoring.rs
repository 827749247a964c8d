//! Monitoring: the overall health from component checks, and uptime
//! statistics from the server's availability events.
use vstd::prelude::*;
use crate::metrics::{HealthStatus, UptimeEventType};

verus! {

/// A component's latest health check; `timestamp` is in milliseconds since
/// the UNIX epoch.
#[derive(Debug)]
pub struct HealthCheck {
    pub component: String,
    pub status: HealthStatus,
    pub details: Option<String>,
    pub timestamp: i64,
}

/// The health of one component as the system health reports it.
#[derive(Debug)]
pub struct ComponentHealth {
    pub status: HealthStatus,
    pub message: Option<String>,
    pub last_check: i64,
}

/// The counted part of uptime statistics over a time range.
#[derive(Debug)]
pub struct UptimeCounts {
    pub total_duration_seconds: u64,
    pub total_downtime_seconds: u64,
    pub incident_count: u64,
    pub last_incident: Option<i64>,
}

/// The overall status after one more component status: unhealthy wins,
/// degraded wins over healthy.
pub open spec fn worse_status(overall: HealthStatus, s: HealthStatus) -> HealthStatus {
    match (overall, s) {
        (_, HealthStatus::Unhealthy) => HealthStatus::Unhealthy,
        (HealthStatus::Healthy, HealthStatus::Degraded) => HealthStatus::Degraded,
        _ => overall,
    }
}

/// The overall status of the component statuses `s`, starting healthy.
pub open spec fn overall_status(s: Seq<HealthStatus>) -> HealthStatus
    decreases s.len(),
{
    if s.len() == 0 {
        HealthStatus::Healthy
    } else {
        worse_status(overall_status(s.drop_last()), s.last())
    }
}

/// The overall status is the worst one: unhealthy when some component is,
/// else degraded when some component is, else healthy.
pub proof fn law_overall_status_is_worst(s: Seq<HealthStatus>)
    ensures
        (overall_status(s) == HealthStatus::Unhealthy) <==> exists|i: int|
            0 <= i < s.len() && s[i] == HealthStatus::Unhealthy,
        (overall_status(s) == HealthStatus::Degraded) <==> (forall|i: int|
            0 <= i < s.len() ==> s[i] != HealthStatus::Unhealthy) && exists|i: int|
            0 <= i < s.len() && s[i] == HealthStatus::Degraded,
        (overall_status(s) == HealthStatus::Healthy) <==> forall|i: int|
            0 <= i < s.len() ==> s[i] == HealthStatus::Healthy,
    decreases s.len(),
{
    if s.len() > 0 {
        let p = s.drop_last();
        law_overall_status_is_worst(p);
        assert forall|i: int| 0 <= i < p.len() implies p[i] == s[i] by {}
        if overall_status(p) == HealthStatus::Unhealthy {
            let w = choose|i: int| 0 <= i < p.len() && p[i] == HealthStatus::Unhealthy;
            assert(s[w] == HealthStatus::Unhealthy);
        }
        if overall_status(p) == HealthStatus::Degraded {
            let w = choose|i: int| 0 <= i < p.len() && p[i] == HealthStatus::Degraded;
            assert(s[w] == HealthStatus::Degraded);
        }
        assert(s[s.len() - 1] == s.last());
        assert forall|i: int| 0 <= i < s.len() && s[i] == HealthStatus::Unhealthy implies i == s.len() - 1
            || p[i] == HealthStatus::Unhealthy by {}
        assert forall|i: int| 0 <= i < s.len() && s[i] == HealthStatus::Degraded implies i == s.len() - 1
            || p[i] == HealthStatus::Degraded by {}
    }
}

/// The whole seconds from `a` to `b` (milliseconds, `a <= b`).
pub open spec fn secs_between(a: i64, b: i64) -> int {
    (b - a) / 1000
}

/// The state of an uptime scan after `events`: the downtime counted, the
/// incidents, the last incident's time, and since when the server is down
/// (if it is).
pub open spec fn uptime_scan(events: Seq<(UptimeEventType, i64)>) -> (int, nat, Option<i64>, Option<i64>)
    decreases events.len(),
{
    if events.len() == 0 {
        (0, 0, None, None)
    } else {
        let (d, n, last, down) = uptime_scan(events.drop_last());
        let (kind, ts) = events.last();
        match kind {
            UptimeEventType::Stop | UptimeEventType::Maintenance => match down {
                None => (d, n + 1, Some(ts), Some(ts)),
                Some(_) => (d, n, last, down),
            },
            UptimeEventType::Start | UptimeEventType::Restart => match down {
                Some(s) => (d + secs_between(s, ts), n, last, None),
                None => (d, n, last, None),
            },
        }
    }
}

/// The events are in time order, within `[start, end]`.
pub open spec fn events_in_range(events: Seq<(UptimeEventType, i64)>, start: i64, end: i64) -> bool {
    &&& start <= end
    &&& forall|i: int| 0 <= i < events.len() ==> start <= #[trigger] events[i].1 <= end
    &&& forall|i: int, j: int| 0 <= i <= j < events.len() ==> events[i].1 <= events[j].1
}

/// The downtime counted so far fits before the point the scan has reached:
/// the start of the current outage, or the last event.
proof fn lemma_uptime_scan_bound(events: Seq<(UptimeEventType, i64)>, start: i64, end: i64)
    requires
        events_in_range(events, start, end),
    ensures
        ({
            let (d, n, last, down) = uptime_scan(events);
            let reached: int = if events.len() == 0 { start as int } else { events.last().1 as int };
            &&& 0 <= d
            &&& n <= events.len()
            &&& match down {
                Some(s) => start <= s <= reached && d * 1000 <= s - start,
                None => d * 1000 <= reached - start,
            }
        }),
    decreases events.len(),
{
    if events.len() > 0 {
        let p = events.drop_last();
        assert(events_in_range(p, start, end)) by {
            assert forall|i: int| 0 <= i < p.len() implies start <= #[trigger] p[i].1 <= end by {
                assert(p[i] == events[i]);
            }
            assert forall|i: int, j: int| 0 <= i <= j < p.len() implies p[i].1 <= p[j].1 by {
                assert(p[i] == events[i] && p[j] == events[j]);
            }
        }
        lemma_uptime_scan_bound(p, start, end);
        let (d, n, last, down) = uptime_scan(p);
        let ts = events.last().1;
        assert(start <= events[events.len() - 1].1 <= end);
        if p.len() > 0 {
            assert(p.last() == events[p.len() - 1]);
            assert(events[p.len() - 1].1 <= events[events.len() - 1].1);
        }
        match down {
            Some(s) => {
                let k = secs_between(s, ts);
                assert(k * 1000 <= ts - s) by (nonlinear_arith)
                    requires
                        k == (ts - s) / 1000,
                        ts - s >= 0,
                ;
                assert(k >= 0) by (nonlinear_arith)
                    requires
                        k == (ts - s) / 1000,
                        ts - s >= 0,
                ;
            },
            None => {},
        }
    }
}

/// The uptime counts over `[start, end]` for `events`.
pub open spec fn uptime_counts_of(events: Seq<(UptimeEventType, i64)>, start: i64, end: i64, c: UptimeCounts) -> bool {
    let (d, n, last, down) = uptime_scan(events);
    &&& c.total_duration_seconds == secs_between(start, end)
    &&& c.total_downtime_seconds == d + match down {
        Some(s) => secs_between(s, end),
        None => 0,
    }
    &&& c.incident_count == n
    &&& c.last_incident == last
}

/// Health checks, alerts, uptime events and dashboards; the handle `D` is
/// what the caller reads and writes the store with.
pub struct MonitoringRepository<D> {
    db: D,
}

impl<D> MonitoringRepository<D> {
    /// The store handle this repository was made with.
    pub closed spec fn handle(&self) -> D {
        self.db
    }

    pub fn new(db: D) -> (r: Self)
        ensures
            r.handle() == db,
    {
        MonitoringRepository { db }
    }

    /// The store handle.
    pub fn db(&self) -> (r: &D)
        ensures
            *r == self.handle(),
    {
        &self.db
    }

    /// The overall status of the components' latest checks.
    pub fn overall_health(&self, checks: &Vec<HealthCheck>) -> (r: HealthStatus)
        ensures
            r == overall_status(Seq::new(checks@.len(), |i: int| checks@[i].status)),
    {
        let ghost st = Seq::new(checks@.len(), |i: int| checks@[i].status);
        let mut overall = HealthStatus::Healthy;
        let mut i: usize = 0;
        while i < checks.len()
            invariant
                i <= checks@.len(),
                st == Seq::new(checks@.len(), |i: int| checks@[i].status),
                overall == overall_status(st.subrange(0, i as int)),
            decreases checks@.len() - i,
        {
            assert(st.subrange(0, i + 1).drop_last() =~= st.subrange(0, i as int));
            match (overall, checks[i].status) {
                (_, HealthStatus::Unhealthy) => { overall = HealthStatus::Unhealthy; },
                (HealthStatus::Healthy, HealthStatus::Degraded) => { overall = HealthStatus::Degraded; },
                _ => {},
            }
            i = i + 1;
        }
        assert(st.subrange(0, checks@.len() as int) =~= st);
        overall
    }

    /// How a component's check is reported in the system health.
    pub fn component_health(&self, check: HealthCheck) -> (r: ComponentHealth)
        ensures
            r.status == check.status,
            r.message == check.details,
            r.last_check == check.timestamp,
    {
        ComponentHealth { status: check.status, message: check.details, last_check: check.timestamp }
    }

    /// The seconds since the last start at `now` (none recorded: 0); a
    /// start after `now` wraps around, as the unsigned count of a negative
    /// span does.
    pub fn uptime_seconds(&self, last_start: Option<i64>, now: i64) -> (r: u64)
        ensures
            r == match last_start {
                Some(s) => (if now >= s { (now - s) / 1000 } else { -((s - now) / 1000) }) as u64,
                None => 0,
            },
    {
        match last_start {
            Some(s) => {
                if now >= s {
                    let diff: u128 = (now as i128 - s as i128) as u128;
                    let q: u128 = diff / 1000;
                    assert(q < 0x1_0000_0000_0000_0000);
                    (q as u64)
                } else {
                    let diff: u128 = (s as i128 - now as i128) as u128;
                    let q: u128 = diff / 1000;
                    let neg: i128 = 0i128 - q as i128;
                    (neg as u64)
                }
            },
            None => 0,
        }
    }

    /// The uptime counts of a time range from its availability events in
    /// time order: every stop or maintenance while up starts an incident;
    /// a start or restart ends it, adding its whole seconds to the
    /// downtime; an outage still open at the end runs to the end. The
    /// downtime never exceeds the range.
    pub fn get_uptime_statistics(&self, events: &Vec<(UptimeEventType, i64)>, start: i64, end: i64) -> (r: UptimeCounts)
        requires
            events_in_range(events@, start, end),
        ensures
            uptime_counts_of(events@, start, end, r),
            r.total_downtime_seconds <= r.total_duration_seconds,
    {
        let mut total_downtime: u64 = 0;
        let mut incident_count: u64 = 0;
        let mut last_incident: Option<i64> = None;
        let mut downtime_start: Option<i64> = None;
        let mut i: usize = 0;
        while i < events.len()
            invariant
                i <= events@.len(),
                events_in_range(events@, start, end),
                ({
                    let (d, n, last, down) = uptime_scan(events@.subrange(0, i as int));
                    &&& total_downtime == d
                    &&& incident_count == n
                    &&& last_incident == last
                    &&& downtime_start == down
                }),
            decreases events@.len() - i,
        {
            let ghost p = events@.subrange(0, i as int);
            let ghost q = events@.subrange(0, i + 1);
            assert(q.drop_last() =~= p);
            proof {
                assert(events_in_range(q, start, end)) by {
                    assert forall|a: int| 0 <= a < q.len() implies start <= #[trigger] q[a].1 <= end by {
                        assert(q[a] == events@[a]);
                    }
                    assert forall|a: int, b: int| 0 <= a <= b < q.len() implies q[a].1 <= q[b].1 by {
                        assert(q[a] == events@[a] && q[b] == events@[b]);
                    }
                }
                lemma_uptime_scan_bound(q, start, end);
                lemma_uptime_scan_bound(p, start, end);
                assert(q.last() == events@[i as int]);
            }
            let (kind, ts) = events[i];
            match kind {
                UptimeEventType::Stop | UptimeEventType::Maintenance => {
                    if downtime_start.is_none() {
                        downtime_start = Some(ts);
                        incident_count = incident_count + 1;
                        last_incident = Some(ts);
                    }
                },
                UptimeEventType::Start | UptimeEventType::Restart => {
                    if let Some(s) = downtime_start {
                        proof {
                            assert(s <= ts) by {
                                if p.len() > 0 {
                                    assert(p.last() == events@[i - 1]);
                                }
                            }
                        }
                        let span: u128 = (ts as i128 - s as i128) as u128;
                        let secs: u128 = span / 1000;
                        proof {
                            assert(secs == secs_between(s, ts));
                            assert(uptime_scan(q).0 == total_downtime + secs);
                            assert(uptime_scan(q).0 * 1000 <= end - start);
                            assert((end - start) < 0x1_0000_0000_0000_0000_0);
                        }
                        total_downtime = total_downtime + secs as u64;
                    }
                    downtime_start = None;
                },
            }
            i = i + 1;
        }
        assert(events@.subrange(0, events@.len() as int) =~= events@);
        proof {
            lemma_uptime_scan_bound(events@, start, end);
        }
        let range: u128 = (end as i128 - start as i128) as u128;
        let total_duration: u64 = (range / 1000) as u64;
        if let Some(s) = downtime_start {
            let tail: u128 = (end as i128 - s as i128) as u128;
            let tail_secs: u128 = tail / 1000;
            proof {
                let d = total_downtime as int;
                let k = tail_secs as int;
                assert(d * 1000 <= s - start);
                assert(k * 1000 <= end - s) by (nonlinear_arith)
                    requires
                        k == (end - s) / 1000,
                        end - s >= 0,
                ;
                assert((d + k) * 1000 <= end - start);
                assert(d + k <= (end - start) / 1000) by (nonlinear_arith)
                    requires
                        (d + k) * 1000 <= end - start,
                        end - start >= 0,
                ;
            }
            total_downtime = total_downtime + tail_secs as u64;
        } else {
            proof {
                let d = total_downtime as int;
                let reached: int = if events@.len() == 0 { start as int } else { events@.last().1 as int };
                assert(reached <= end) by {
                    if events@.len() > 0 {
                        assert(events@.last() == events@[events@.len() - 1]);
                    }
                }
                assert(d <= (end - start) / 1000) by (nonlinear_arith)
                    requires
                        d * 1000 <= end - start,
                        end - start >= 0,
                ;
            }
        }
        UptimeCounts {
            total_duration_seconds: total_duration,
            total_downtime_seconds: total_downtime,
            incident_count,
            last_incident,
        }
    }
}

} // verus!
