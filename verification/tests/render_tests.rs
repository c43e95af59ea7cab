use tiny_monitor::model::{BackupStat, FleetHealth, QuotaMetrics, ServiceHealth, Snapshot};
use tiny_monitor::render::{colour_for, fleet_overall, truncate, RenderModel};
use tiny_monitor::Health;

// disingenerosity: a snapshot that lies by omission (partial fields) must
// still render an honest, non-green default rather than a flattering blank.

fn svc(name: &str, state: &str) -> (String, ServiceHealth) {
    (
        name.to_string(),
        ServiceHealth {
            service: name.to_string(),
            state: state.to_string(),
            heartbeat_count: 5,
        },
    )
}

#[test]
fn health_parse_round_trips_known_states() {
    for s in ["GREEN", "YELLOW", "RED", "EXHAUSTED", "UNSPECIFIED"] {
        assert_eq!(Health::parse(s).label(), s);
    }
}

#[test]
fn health_parse_unknown_is_unspecified() {
    assert_eq!(Health::parse("HEALTH_STATE_GREEN"), Health::Unspecified);
    assert_eq!(Health::parse(""), Health::Unspecified);
    assert_eq!(Health::parse("garbage"), Health::Unspecified);
}

#[test]
fn colour_unknown_is_not_green() {
    // "we do not know" must never paint as healthy.
    assert_ne!(colour_for(Health::Unspecified), colour_for(Health::Green));
}

#[test]
fn each_state_has_a_distinct_colour() {
    let states = [
        Health::Green,
        Health::Yellow,
        Health::Red,
        Health::Exhausted,
        Health::Unspecified,
    ];
    for (i, a) in states.iter().enumerate() {
        for b in &states[i + 1..] {
            assert_ne!(colour_for(*a), colour_for(*b), "{a:?} vs {b:?}");
        }
    }
}

#[test]
fn severity_orders_exhausted_above_red() {
    assert!(Health::Exhausted.severity() > Health::Red.severity());
    assert!(Health::Red.severity() > Health::Yellow.severity());
    assert!(Health::Yellow.severity() > Health::Green.severity());
    assert!(Health::Green.severity() > Health::Unspecified.severity());
}

#[test]
fn fleet_rollup_prefers_aggregator_value() {
    let mut snap = Snapshot::default();
    snap.services.extend(vec![svc("a", "GREEN")]);
    snap.fleet = Some(FleetHealth {
        overall: "RED".to_string(),
        ..Default::default()
    });
    // explicit rollup wins over the recomputed per-service worst-wins.
    assert_eq!(fleet_overall(&snap), Health::Red);
}

#[test]
fn fleet_rollup_recomputes_worst_wins_when_absent() {
    let mut snap = Snapshot::default();
    snap.services
        .extend(vec![svc("a", "GREEN"), svc("b", "YELLOW"), svc("c", "GREEN")]);
    assert_eq!(fleet_overall(&snap), Health::Yellow);
}

#[test]
fn fleet_rollup_falls_back_to_healthy_flag() {
    // backups-only snapshot (today's aggregator): no services, no fleet.
    let snap = Snapshot {
        healthy: true,
        ..Default::default()
    };
    assert_eq!(fleet_overall(&snap), Health::Green);
    let snap = Snapshot {
        healthy: false,
        ..Default::default()
    };
    assert_eq!(fleet_overall(&snap), Health::Unspecified);
}

#[test]
fn render_from_services_lists_each_service() {
    let mut snap = Snapshot::default();
    snap.services
        .extend(vec![svc("paling", "GREEN"), svc("delightd", "RED")]);
    let m = RenderModel::from_snapshot(&snap);
    assert!(m.reachable);
    assert_eq!(m.rows.len(), 2);
    // iteration is sorted by key: delightd before paling.
    assert_eq!(m.rows[0].label, "delightd");
    assert_eq!(m.rows[0].health, Health::Red);
}

#[test]
fn render_falls_back_to_backups_when_no_services() {
    // mirrors the live aggregator snapshot shape.
    let mut snap = Snapshot {
        healthy: true,
        total_events: 83,
        ..Default::default()
    };
    snap.backups.insert(
        "comfyui".to_string(),
        BackupStat {
            project: "comfyui".to_string(),
            total: 37,
            successes: 37,
            failures: 0,
            last_success: true,
        },
    );
    snap.backups.insert(
        "broken".to_string(),
        BackupStat {
            project: "broken".to_string(),
            total: 2,
            successes: 1,
            failures: 1,
            last_success: false,
        },
    );
    let m = RenderModel::from_snapshot(&snap);
    assert!(m.reachable);
    assert_eq!(m.rows.len(), 2);
    let broken = m.rows.iter().find(|r| r.label == "broken").unwrap();
    assert_eq!(broken.health, Health::Red);
    let ok = m.rows.iter().find(|r| r.label == "comfyui").unwrap();
    assert_eq!(ok.health, Health::Green);
}

#[test]
fn render_runway_placeholder_without_quota() {
    let snap = Snapshot::default();
    let m = RenderModel::from_snapshot(&snap);
    assert!(m.runway.contains("no quota feed"));
}

#[test]
fn render_runway_from_quota() {
    let snap = Snapshot {
        quota: Some(QuotaMetrics {
            runway_minutes_remaining: 120,
            burn_rate_tokens_per_minute: 4500,
            ..Default::default()
        }),
        ..Default::default()
    };
    let m = RenderModel::from_snapshot(&snap);
    assert!(m.runway.contains("120m"));
    assert!(m.runway.contains("4500/m"));
}

#[test]
fn unreachable_view_is_degraded_not_green() {
    let m = RenderModel::unreachable("connection refused");
    assert!(!m.reachable);
    assert_eq!(m.overall, Health::Unspecified);
    assert_eq!(m.headline, "NO DATA");
    assert!(m.rows[0].detail.contains("connection refused"));
}

#[test]
fn truncate_clips_long_strings() {
    let long = "x".repeat(100);
    let out = truncate(&long, 48);
    assert_eq!(out.chars().count(), 48);
    assert!(out.ends_with('…'));
}
