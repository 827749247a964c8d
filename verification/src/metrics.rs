//! Metric kinds, aggregations and alert levels, and the records and
//! queries of the metrics and performance stores.
use vstd::prelude::*;
use crate::error::{owned, concat2, concat3};
use crate::numeric::{format_i64, format_u64, signed_decimal, decimal_digits};

verus! {

/// The kind of a metric.
#[derive(Debug, Clone, Copy, PartialEq, Eq, Structural)]
pub enum MetricType {
    Counter,
    Gauge,
    Histogram,
    Summary,
}

/// The name of a metric kind as exported.
pub open spec fn metric_type_name(t: MetricType) -> Seq<char> {
    match t {
        MetricType::Counter => "counter"@,
        MetricType::Gauge => "gauge"@,
        MetricType::Histogram => "histogram"@,
        MetricType::Summary => "summary"@,
    }
}

impl MetricType {
    /// The name of the kind as exported.
    pub fn as_str(&self) -> (r: &'static str)
        ensures
            r@ == metric_type_name(*self),
    {
        match self {
            MetricType::Counter => "counter",
            MetricType::Gauge => "gauge",
            MetricType::Histogram => "histogram",
            MetricType::Summary => "summary",
        }
    }
}

/// How metric points are combined per hour.
#[derive(Debug, Clone, Copy, PartialEq, Eq, Structural)]
pub enum AggregationType {
    Sum,
    Average,
    Max,
    Min,
    Count,
}

/// The store function that computes an aggregation.
pub open spec fn aggregation_function(a: AggregationType) -> Seq<char> {
    match a {
        AggregationType::Sum => "SUM"@,
        AggregationType::Average => "AVG"@,
        AggregationType::Max => "MAX"@,
        AggregationType::Min => "MIN"@,
        AggregationType::Count => "COUNT"@,
    }
}

/// How serious an alert is.
#[derive(Debug, Clone, Copy, PartialEq, Eq, Structural)]
pub enum AlertSeverity {
    Critical,
    Warning,
    Info,
}

/// The health of a component or of the whole system.
#[derive(Debug, Clone, Copy, PartialEq, Eq, Structural)]
pub enum HealthStatus {
    Healthy,
    Degraded,
    Unhealthy,
}

/// What happened to the server's availability.
#[derive(Debug, Clone, Copy, PartialEq, Eq, Structural)]
pub enum UptimeEventType {
    Start,
    Stop,
    Restart,
    Maintenance,
}

/// Metric points; the handle `D` is what the caller reads and writes the
/// store with.
pub struct MetricsRepository<D> {
    db: D,
}

impl<D> MetricsRepository<D> {
    /// The store handle this repository was made with.
    pub closed spec fn handle(&self) -> D {
        self.db
    }

    pub fn new(db: D) -> (r: Self)
        ensures
            r.handle() == db,
    {
        MetricsRepository { db }
    }

    /// The store handle.
    pub fn db(&self) -> (r: &D)
        ensures
            *r == self.handle(),
    {
        &self.db
    }

    /// The key a metric point is stored under: its name and its time in
    /// milliseconds.
    pub fn metric_record_id(&self, name: &str, timestamp_millis: i64) -> (r: String)
        ensures
            r@ == name@ + ":"@ + signed_decimal(timestamp_millis as int),
    {
        let t = format_i64(timestamp_millis);
        concat3(name, ":", t.as_str())
    }

    /// The store function of an aggregation.
    pub fn aggregation_function(&self, aggregation: AggregationType) -> (r: &'static str)
        ensures
            r@ == aggregation_function(aggregation),
    {
        match aggregation {
            AggregationType::Sum => "SUM",
            AggregationType::Average => "AVG",
            AggregationType::Max => "MAX",
            AggregationType::Min => "MIN",
            AggregationType::Count => "COUNT",
        }
    }

    /// The query that aggregates a metric per hour with `aggregation`.
    pub fn aggregated_metrics_query(&self, aggregation: AggregationType) -> (r: String)
        ensures
            r@ == "SELECT time::group(timestamp, '1h') AS timestamp, "@ + aggregation_function(aggregation)
                + "(value) AS value FROM metric WHERE name = $name AND timestamp >= $start AND timestamp <= $end GROUP BY time::group(timestamp, '1h') ORDER BY timestamp ASC"@,
    {
        let f = self.aggregation_function(aggregation);
        let mut q = concat2("SELECT time::group(timestamp, '1h') AS timestamp, ", f);
        q.append("(value) AS value FROM metric WHERE name = $name AND timestamp >= $start AND timestamp <= $end GROUP BY time::group(timestamp, '1h') ORDER BY timestamp ASC");
        q
    }

    /// The first lines of a metric's block in the Prometheus text format.
    pub fn prometheus_header(&self, name: &str, metric_type: MetricType) -> (r: String)
        ensures
            r@ == "# HELP "@ + name@ + " Metric "@ + name@ + "\n# TYPE "@ + name@ + " "@ + metric_type_name(metric_type)
                + "\n"@,
    {
        let mut s = concat3("# HELP ", name, " Metric ");
        s.append(name);
        s.append("\n# TYPE ");
        s.append(name);
        s.append(" ");
        s.append(metric_type.as_str());
        s.append("\n");
        s
    }
}

/// Request, database, memory and cache timings; the handle `D` is what the
/// caller reads and writes the store with.
pub struct PerformanceRepository<D> {
    db: D,
}

impl<D> PerformanceRepository<D> {
    /// The store handle this repository was made with.
    pub closed spec fn handle(&self) -> D {
        self.db
    }

    pub fn new(db: D) -> (r: Self)
        ensures
            r.handle() == db,
    {
        PerformanceRepository { db }
    }

    /// The store handle.
    pub fn db(&self) -> (r: &D)
        ensures
            *r == self.handle(),
    {
        &self.db
    }

    /// The query for the requests slower than a threshold, slowest first,
    /// at most `limit`.
    pub fn slow_requests_query(&self, limit: Option<u32>) -> (r: String)
        ensures
            r@ == "SELECT endpoint, method, duration_ms, timestamp, status_code FROM request_timing WHERE duration_ms > $threshold ORDER BY duration_ms DESC"@
                + match limit {
                Some(l) => " LIMIT "@ + decimal_digits(l as nat),
                None => Seq::empty(),
            },
    {
        let base = "SELECT endpoint, method, duration_ms, timestamp, status_code FROM request_timing WHERE duration_ms > $threshold ORDER BY duration_ms DESC";
        match limit {
            Some(l) => {
                let n = format_u64(l as u64);
                concat3(base, " LIMIT ", n.as_str())
            },
            None => {
                let s = owned(base);
                assert(s@ =~= base@ + Seq::<char>::empty());
                s
            },
        }
    }

    /// The number of cache lookups from its hits and misses.
    pub fn cache_lookups(&self, hits: u64, misses: u64) -> (r: u64)
        requires
            hits + misses <= u64::MAX,
        ensures
            r == hits + misses,
    {
        hits + misses
    }
}

} // verus!
