use matryx_repository::error::RepositoryError;
use matryx_repository::metrics::{AggregationType, HealthStatus, MetricType, MetricsRepository, PerformanceRepository, UptimeEventType};
use matryx_repository::monitoring::{HealthCheck, MonitoringRepository};
use matryx_repository::reactions::{ReactionRow, ReactionsRepository};
use matryx_repository::registration::RegistrationRepository;
use matryx_repository::relations::{relation_stored, RelationDirection, RelationRow, RelationsRepository};
use matryx_repository::reports::{ReportFacts, ReportsRepository, ValidateReportParams};

fn facts() -> ReportFacts {
    ReportFacts {
        reporter_active: Some(true),
        reported_exists: true,
        event_exists: true,
        reporter_is_member: true,
        room_history_visibility: "shared".to_string(),
        recent_reports: Some(0),
    }
}

fn params<'a>(reason: &'a str, room: Option<&'a str>, event: Option<&'a str>) -> ValidateReportParams<'a> {
    ValidateReportParams { reporter_id: "@a:x", reported_user_id: "@b:x", room_id: room, event_id: event, reason }
}

#[test]
fn report_authorization_steps() {
    let r = ReportsRepository::new(());
    assert_eq!(r.validate_report_authorization(params("spam", None, None), facts()).unwrap(), true);
    let inactive = ReportFacts { reporter_active: Some(false), ..facts() };
    assert_eq!(r.validate_report_authorization(params("spam", None, None), inactive).unwrap(), false);
    match r.validate_report_authorization(params("", None, None), facts()).unwrap_err() {
        RepositoryError::Validation { field, message } => {
            assert_eq!(field, "reason");
            assert_eq!(message, "Report reason is required");
        },
        other => panic!("unexpected {:?}", other),
    }
    let long = "x".repeat(257);
    assert!(matches!(r.validate_report_authorization(params(&long, None, None), facts()), Err(RepositoryError::Validation { .. })));
    let exactly = "x".repeat(256);
    assert!(r.validate_report_authorization(params(&exactly, None, None), facts()).unwrap());
    let no_event = ReportFacts { event_exists: false, ..facts() };
    assert!(matches!(r.validate_report_authorization(params("spam", None, Some("$e")), no_event), Err(RepositoryError::NotFound { .. })));
    let outsider = ReportFacts { reporter_is_member: false, ..facts() };
    match r.validate_report_authorization(params("spam", Some("!r:x"), Some("$e")), outsider).unwrap_err() {
        RepositoryError::Forbidden { reason } => assert_eq!(reason, "Cannot report content in room you cannot access"),
        other => panic!("unexpected {:?}", other),
    }
    let readable = ReportFacts { reporter_is_member: false, room_history_visibility: "world_readable".to_string(), ..facts() };
    assert!(r.validate_report_authorization(params("spam", Some("!r:x"), Some("$e")), readable).unwrap());
    let busy = ReportFacts { recent_reports: Some(10), ..facts() };
    match r.validate_report_authorization(params("spam", None, None), busy).unwrap_err() {
        RepositoryError::Forbidden { reason } => assert_eq!(reason, "Too many reports, please try again later"),
        other => panic!("unexpected {:?}", other),
    }
}

#[test]
fn user_reports() {
    let r = ReportsRepository::new(());
    match r.create_user_report("@a:x", "@b:x", "", None, Ok(true), false, 0).unwrap_err() {
        RepositoryError::Validation { message, .. } => assert_eq!(message, "Report reason cannot be empty"),
        other => panic!("unexpected {:?}", other),
    }
    match r.create_user_report("@a:x", "@a:x", "spam", None, Ok(true), false, 0).unwrap_err() {
        RepositoryError::Validation { message, .. } => assert_eq!(message, "User cannot report themselves"),
        other => panic!("unexpected {:?}", other),
    }
    let report = r.create_user_report("@a:x", "@b:x", "spam", Some("details".to_string()), Ok(true), false, 5).unwrap();
    assert_eq!(report.reporter_id, "@a:x");
    assert_eq!(report.reported_user_id, "@b:x");
    assert_eq!(report.created_at, 5);
    assert_eq!(report.status.as_str(), "pending");
    assert!(r.check_existing_report(Some(1)));
    assert!(!r.check_existing_report(Some(0)));
}

#[test]
fn relations_are_unique_and_need_both_events() {
    let r = RelationsRepository::new(());
    let none = Vec::new();
    match r.add_event_relation("!r:x", "$p", "$c", "m.annotation", &none, false, true, 0).unwrap_err() {
        RepositoryError::NotFound { entity_type, id } => {
            assert_eq!(entity_type, "Parent Event");
            assert_eq!(id, "$p");
        },
        other => panic!("unexpected {:?}", other),
    }
    match r.add_event_relation("!r:x", "$p", "$c", "m.annotation", &none, true, false, 0).unwrap_err() {
        RepositoryError::NotFound { entity_type, .. } => assert_eq!(entity_type, "Child Event"),
        other => panic!("unexpected {:?}", other),
    }
    let rel = r.add_event_relation("!r:x", "$p", "$c", "m.annotation", &none, true, true, 77).unwrap();
    assert_eq!(rel.parent_event_id, "$p");
    assert_eq!(rel.child_event_id, "$c");
    assert_eq!(rel.rel_type, "m.annotation");
    assert_eq!(rel.created_at, 77);
    assert!(rel.id.starts_with("rel_"));
    let stored = vec![rel];
    assert!(relation_stored(&stored, "!r:x", "$p", "$c", "m.annotation"));
    assert!(!relation_stored(&stored, "!r:x", "$p", "$c", "m.thread"));
    match r.add_event_relation("!r:x", "$p", "$c", "m.annotation", &stored, true, true, 78).unwrap_err() {
        RepositoryError::Conflict { message } => assert_eq!(message, "Relation already exists: $p->$c:m.annotation"),
        other => panic!("unexpected {:?}", other),
    }
    let thread = r.add_event_relation("!r:x", "$p", "$c", "m.thread", &stored, true, true, 79).unwrap();
    assert_eq!(thread.rel_type, "m.thread");
}

#[test]
fn relation_queries_and_rows() {
    let r = RelationsRepository::new(());
    assert_eq!(
        r.event_relations_query(Some("m.thread"), None),
        "SELECT event.* FROM event_relations INNER JOIN event ON event_relations.child_event_id = event.event_id WHERE event_relations.room_id = $room_id AND event_relations.parent_event_id = $event_id AND event_relations.rel_type = $rel_type ORDER BY event.origin_server_ts ASC"
    );
    assert!(!r.related_events_query(RelationDirection::Both).is_empty());
    let row = RelationRow {
        id: Some("rel1".to_string()),
        room_id: None,
        parent_event_id: Some("$p".to_string()),
        child_event_id: Some("$c".to_string()),
        rel_type: Some("m.reference".to_string()),
        created_at: Some("2024-01-01T00:00:01Z".to_string()),
    };
    let rel = r.relation_from_row(row, 9);
    assert_eq!(rel.room_id, "");
    assert_eq!(rel.created_at, 1704067201000);
    let bad_time = RelationRow { id: None, room_id: None, parent_event_id: None, child_event_id: None, rel_type: None, created_at: Some("yesterday".to_string()) };
    assert_eq!(r.relation_from_row(bad_time, 9).created_at, 9);
    assert_eq!(r.cleanup_count(None), 0);
}

#[test]
fn relation_aggregates_and_reaction_groups() {
    let r = RelationsRepository::new(());
    let rows = vec![(Some("👍".to_string()), Some(3)), (None, Some(1)), (Some("🎉".to_string()), None), (Some("❤".to_string()), Some(1))];
    let agg = r.get_aggregated_relations(&rows, Some(2), None, Some(5), Some(1));
    assert_eq!(agg.reactions, vec![("👍".to_string(), 3), ("❤".to_string(), 1)]);
    assert_eq!((agg.replies, agg.edits, agg.annotations, agg.threads), (2, 0, 5, 1));
    let pairs = vec![
        (Some("👍".to_string()), Some("@a:x".to_string())),
        (Some("🎉".to_string()), Some("@b:x".to_string())),
        (Some("👍".to_string()), Some("@c:x".to_string())),
        (None, Some("@d:x".to_string())),
    ];
    let groups = r.get_reaction_summary(&pairs);
    assert_eq!(groups.len(), 2);
    assert_eq!(groups[0], ("👍".to_string(), vec!["@a:x".to_string(), "@c:x".to_string()]));
    assert_eq!(groups[1], ("🎉".to_string(), vec!["@b:x".to_string()]));
}

#[test]
fn reaction_aggregations_skip_incomplete_rows() {
    let r = ReactionsRepository::new(());
    let rows = vec![
        ReactionRow { reaction_key: Some("👍".to_string()), count: Some(2), users: Some(vec![Some("@a:x".to_string()), None, Some("@b:x".to_string())]) },
        ReactionRow { reaction_key: Some("👎".to_string()), count: None, users: Some(vec![]) },
    ];
    let aggs = r.get_reaction_aggregations(&rows);
    assert_eq!(aggs.len(), 1);
    assert_eq!(aggs[0].key, "👍");
    assert_eq!(aggs[0].count, 2);
    assert_eq!(aggs[0].users, vec!["@a:x".to_string(), "@b:x".to_string()]);
    let summary = r.get_reaction_summary("$t", &rows);
    assert_eq!(summary.target_event_id, "$t");
    assert_eq!(summary.reactions.len(), 1);
    assert!(r.has_user_reacted(Some(1)));
    assert!(!r.has_user_reacted(None));
}

#[test]
fn registration_records() {
    let r = RegistrationRepository::new(());
    assert_eq!(r.candidate_user_id("alice"), "@alice:localhost");
    assert!(r.check_username_availability(Some(0)));
    assert!(!r.check_username_availability(Some(1)));
    assert!(r.check_registration_rate_limit(Some(4)));
    assert!(!r.check_registration_rate_limit(Some(5)));
    assert!(r.check_registration_rate_limit(None));
    let (device, result) = r.register_user("@alice:localhost", "DEV1", Some("Phone"), 5_500);
    assert_eq!(device.display_name.as_deref(), Some("Phone"));
    assert_eq!(device.last_seen_ts, Some(5));
    assert_eq!(result.home_server, "localhost");
    assert!(result.access_token.starts_with("syt_"));
    assert_eq!(result.access_token.len(), 36);
    let flows = r.get_registration_flows();
    assert_eq!(flows[0].flow_type, "m.login.password");
    assert_eq!(flows[1].flow_type, "m.login.registration_token");
}

#[test]
fn initial_device_needs_a_matching_session() {
    let r = RegistrationRepository::new(());
    match r.create_initial_device("@a:x", "D", None, "tok", None, 0).unwrap_err() {
        RepositoryError::Unauthorized { reason } => assert_eq!(reason, "Invalid access token"),
        other => panic!("unexpected {:?}", other),
    }
    match r.create_initial_device("@a:x", "D", None, "tok", Some(None), 0).unwrap_err() {
        RepositoryError::Validation { message, .. } => assert_eq!(message, "Session user_id not found"),
        other => panic!("unexpected {:?}", other),
    }
    match r.create_initial_device("@a:x", "D", None, "tok", Some(Some("@b:x".to_string())), 0).unwrap_err() {
        RepositoryError::Unauthorized { reason } => assert_eq!(reason, "Access token does not match user"),
        other => panic!("unexpected {:?}", other),
    }
    let (device, session) = r.create_initial_device("@a:x", "D", Some("Laptop"), "tok", Some(Some("@a:x".to_string())), 1_000).unwrap();
    assert_eq!(device.device_id, "D");
    assert_eq!(session.access_token, "tok");
    assert_eq!(session.expires_at, Some(1_000 + 31_536_000_000));
    assert!(session.is_active && session.valid && !session.is_guest);
}

#[test]
fn overall_health_is_the_worst() {
    let r = MonitoringRepository::new(());
    let check = |s: HealthStatus| HealthCheck { component: "db".to_string(), status: s, details: None, timestamp: 0 };
    assert_eq!(r.overall_health(&vec![]), HealthStatus::Healthy);
    assert_eq!(r.overall_health(&vec![check(HealthStatus::Healthy), check(HealthStatus::Degraded)]), HealthStatus::Degraded);
    assert_eq!(
        r.overall_health(&vec![check(HealthStatus::Unhealthy), check(HealthStatus::Degraded)]),
        HealthStatus::Unhealthy
    );
    let c = r.component_health(HealthCheck { component: "db".to_string(), status: HealthStatus::Degraded, details: Some("slow".to_string()), timestamp: 3 });
    assert_eq!(c.status, HealthStatus::Degraded);
    assert_eq!(c.message.as_deref(), Some("slow"));
}

#[test]
fn uptime_counts_downtime_between_stop_and_start() {
    let r = MonitoringRepository::new(());
    let events = vec![
        (UptimeEventType::Start, 0),
        (UptimeEventType::Stop, 10_000),
        (UptimeEventType::Maintenance, 12_000),
        (UptimeEventType::Restart, 40_000),
        (UptimeEventType::Stop, 90_000),
    ];
    let u = r.get_uptime_statistics(&events, 0, 100_000);
    assert_eq!(u.total_duration_seconds, 100);
    assert_eq!(u.total_downtime_seconds, 30 + 10);
    assert_eq!(u.incident_count, 2);
    assert_eq!(u.last_incident, Some(90_000));
    assert_eq!(r.uptime_seconds(Some(1_000), 61_000), 60);
    assert_eq!(r.uptime_seconds(None, 61_000), 0);
}

#[test]
fn metric_texts() {
    let m = MetricsRepository::new(());
    assert_eq!(m.metric_record_id("requests", -5), "requests:-5");
    assert_eq!(m.aggregation_function(AggregationType::Average), "AVG");
    assert_eq!(m.prometheus_header("up", MetricType::Gauge), "# HELP up Metric up\n# TYPE up gauge\n");
    assert!(m.aggregated_metrics_query(AggregationType::Max).contains("MAX(value) AS value"));
    assert_eq!(MetricType::Histogram.as_str(), "histogram");
    let p = PerformanceRepository::new(());
    assert_eq!(p.cache_lookups(3, 4), 7);
    assert!(p.slow_requests_query(Some(5)).ends_with("LIMIT 5"));
}
