use tiny_monitor::fetch::{fetch_failure_reason, secs_setting, FetchFailure};
use tiny_monitor::model::{BackupStat, FleetHealth, ServiceHealth, Snapshot};
use tiny_monitor::panel::{row_slots, runway_ink, Ink};
use tiny_monitor::render::{colour_for, fleet_overall, runway_line, truncate, RenderModel, Rgb};
use tiny_monitor::resolve::{
    resolve_failure_reason, resolve_url, state_url_from, ResolveFailure, ResolvedService,
};
use tiny_monitor::text::{chars_lt, chars_of, parse_u64, push_decimal, str_lt, trim_end_matches_char};
use tiny_monitor::{Health, OrderedMap};

fn service(name: &str, state: &str, heartbeats: u64) -> (String, ServiceHealth) {
    (
        name.to_string(),
        ServiceHealth {
            service: name.to_string(),
            state: state.to_string(),
            heartbeat_count: heartbeats,
        },
    )
}

#[test]
fn labels_read_back_as_their_state() {
    for h in [Health::Unspecified, Health::Green, Health::Yellow, Health::Red, Health::Exhausted] {
        assert_eq!(Health::parse(h.label()), h);
    }
    assert_eq!(Health::parse("green"), Health::Unspecified);
    assert_eq!(Health::parse(" GREEN"), Health::Unspecified);
}

#[test]
fn severity_values() {
    assert_eq!(Health::Unspecified.severity(), 0);
    assert_eq!(Health::Green.severity(), 1);
    assert_eq!(Health::Yellow.severity(), 2);
    assert_eq!(Health::Red.severity(), 3);
    assert_eq!(Health::Exhausted.severity(), 4);
}

#[test]
fn colour_values() {
    assert_eq!(colour_for(Health::Green), Rgb { r: 0x2e, g: 0xcc, b: 0x71 });
    assert_eq!(colour_for(Health::Yellow), Rgb { r: 0xf1, g: 0xc4, b: 0x0f });
    assert_eq!(colour_for(Health::Red), Rgb { r: 0xe7, g: 0x4c, b: 0x3c });
    assert_eq!(colour_for(Health::Exhausted), Rgb { r: 0x99, g: 0x2d, b: 0x22 });
    assert_eq!(colour_for(Health::Unspecified), Rgb { r: 0x7f, g: 0x8c, b: 0x8d });
}

#[test]
fn worst_wins_picks_most_severe_service() {
    let mut snap = Snapshot::default();
    snap.services.extend(vec![
        service("a", "YELLOW", 1),
        service("b", "EXHAUSTED", 1),
        service("c", "RED", 1),
        service("d", "bogus", 1),
    ]);
    assert_eq!(fleet_overall(&snap), Health::Exhausted);
    let mut only_unknown = Snapshot::default();
    only_unknown.services.extend(vec![service("x", "", 1)]);
    assert_eq!(fleet_overall(&only_unknown), Health::Unspecified);
}

#[test]
fn empty_aggregator_rollup_is_ignored() {
    let mut snap = Snapshot::default();
    snap.services.extend(vec![service("a", "RED", 1)]);
    snap.fleet = Some(FleetHealth::default());
    assert_eq!(fleet_overall(&snap), Health::Red);
}

#[test]
fn service_rows_have_exact_text() {
    let mut snap = Snapshot::default();
    snap.services.extend(vec![service("zeta", "GREEN", 42), service("alpha", "YELLOW", 7)]);
    snap.fleet = Some(FleetHealth { overall: "YELLOW".to_string(), ..Default::default() });
    let m = RenderModel::from_snapshot(&snap);
    assert_eq!(m.headline, "FLEET YELLOW");
    assert_eq!(m.rows.len(), 2);
    assert_eq!(m.rows[0].label, "alpha");
    assert_eq!(m.rows[0].detail, "7 hb");
    assert_eq!(m.rows[1].label, "zeta");
    assert_eq!(m.rows[1].health, Health::Green);
    assert_eq!(m.rows[1].detail, "42 hb");
    assert_eq!(m.runway, "runway: -- (no quota feed)");
}

#[test]
fn backup_rows_have_exact_text_and_health() {
    let mut snap = Snapshot::default();
    snap.backups.insert(
        "idle".to_string(),
        BackupStat { project: "idle".to_string(), ..Default::default() },
    );
    snap.backups.insert(
        "ok".to_string(),
        BackupStat {
            project: "ok".to_string(),
            total: 3,
            successes: 3,
            failures: 0,
            last_success: true,
        },
    );
    let m = RenderModel::from_snapshot(&snap);
    assert_eq!(m.rows[0].label, "idle");
    assert_eq!(m.rows[0].health, Health::Unspecified);
    assert_eq!(m.rows[0].detail, "0ok/0fail");
    assert_eq!(m.rows[1].detail, "3ok/0fail");
    assert_eq!(m.rows[1].health, Health::Green);
    assert_eq!(m.headline, "FLEET UNSPECIFIED");
}

#[test]
fn empty_snapshot_headline_says_no_events() {
    let snap = Snapshot { healthy: true, ..Default::default() };
    let m = RenderModel::from_snapshot(&snap);
    assert_eq!(m.headline, "FLEET GREEN (no events)");
    assert!(m.rows.is_empty());
}

#[test]
fn runway_line_exact() {
    let snap = Snapshot {
        quota: Some(tiny_monitor::model::QuotaMetrics {
            runway_minutes_remaining: 0,
            burn_rate_tokens_per_minute: 18446744073709551615,
            ..Default::default()
        }),
        ..Default::default()
    };
    assert_eq!(runway_line(&snap), "runway: 0m  burn: 18446744073709551615/m");
}

#[test]
fn unreachable_view_exact() {
    let m = RenderModel::unreachable("connection refused");
    assert_eq!(m.rows.len(), 1);
    assert_eq!(m.rows[0].label, "obs-svc-agg");
    assert_eq!(m.rows[0].detail, "connection refused");
    assert_eq!(m.runway, "runway: --");
    let long = RenderModel::unreachable(&"é".repeat(60));
    assert_eq!(long.rows[0].detail, format!("{}…", "é".repeat(47)));
}

#[test]
fn from_poll_chooses_the_view() {
    let ok: Result<Snapshot, String> = Ok(Snapshot { healthy: true, ..Default::default() });
    let m = RenderModel::from_poll(&ok);
    assert!(m.reachable);
    assert_eq!(m.overall, Health::Green);
    let err: Result<Snapshot, String> = Err("unreachable: boom".to_string());
    let m = RenderModel::from_poll(&err);
    assert!(!m.reachable);
    assert_eq!(m.rows[0].detail, "unreachable: boom");
}

#[test]
fn truncate_edges() {
    assert_eq!(truncate("abc", 3), "abc");
    assert_eq!(truncate("abcd", 3), "ab…");
    assert_eq!(truncate("", 0), "");
    assert_eq!(truncate("a", 0), "…");
    assert_eq!(truncate("abc", 1), "…");
}

#[test]
fn ordered_map_insert_keeps_order_and_replaces() {
    let mut m: OrderedMap<u64> = OrderedMap::new();
    assert!(m.is_empty());
    assert_eq!(m.insert("b".to_string(), 2), None);
    assert_eq!(m.insert("a".to_string(), 1), None);
    assert_eq!(m.insert("c".to_string(), 3), None);
    assert_eq!(m.insert("b".to_string(), 20), Some(2));
    assert_eq!(m.len(), 3);
    assert_eq!(m.key_at(0), "a");
    assert_eq!(m.key_at(1), "b");
    assert_eq!(*m.value_at(1), 20);
    assert_eq!(m.key_at(2), "c");
    let c = m.clone();
    assert_eq!(c.key_at(2), "c");
    assert_eq!(*c.value_at(0), 1);
}

#[test]
fn ordered_map_orders_by_code_point() {
    let mut m: OrderedMap<u8> = OrderedMap::default();
    m.extend(vec![
        ("é".to_string(), 0),
        ("Z".to_string(), 1),
        ("a".to_string(), 2),
        ("ab".to_string(), 3),
        ("".to_string(), 4),
        ("a".to_string(), 5),
    ]);
    let keys: Vec<String> = (0..m.len()).map(|i| m.key_at(i).clone()).collect();
    assert_eq!(keys, vec!["", "Z", "a", "ab", "é"]);
    assert_eq!(*m.value_at(2), 5);
}

#[test]
fn text_order_matches_std() {
    let words = ["", "a", "ab", "b", "Z", "é", "ß", "aa"];
    for x in words {
        for y in words {
            assert_eq!(str_lt(x, y), x < y, "{x:?} < {y:?}");
            assert_eq!(chars_lt(&chars_of(x), &chars_of(y)), x < y);
        }
    }
}

#[test]
fn decimal_rendering() {
    let mut s = String::from("n=");
    push_decimal(&mut s, 0);
    assert_eq!(s, "n=0");
    let mut s = String::new();
    push_decimal(&mut s, 1234567890);
    assert_eq!(s, "1234567890");
}

#[test]
fn parse_u64_matches_std() {
    for s in [
        "", "+", "-", "-0", "0", "+0", "42", "+42", "++4", "4a", " 4", "007",
        "18446744073709551615", "18446744073709551616", "99999999999999999999",
    ] {
        assert_eq!(parse_u64(s), s.parse::<u64>().ok(), "{s:?}");
    }
}

#[test]
fn env_secs_rejects_zero_and_nonnumeric() {
    assert_eq!(secs_setting(Some("0"), 2), 2);
    assert_eq!(secs_setting(Some("abc"), 2), 2);
    assert_eq!(secs_setting(Some("5"), 2), 5);
    assert_eq!(secs_setting(None, 3), 3);
}

#[test]
fn fetch_failure_reasons() {
    assert_eq!(fetch_failure_reason(&FetchFailure::Status(503)), "aggregator returned HTTP 503");
    assert_eq!(
        fetch_failure_reason(&FetchFailure::Unreachable("refused".to_string())),
        "unreachable: refused"
    );
    assert_eq!(fetch_failure_reason(&FetchFailure::Body("eof".to_string())), "read body: eof");
    assert_eq!(fetch_failure_reason(&FetchFailure::Parse("bad".to_string())), "parse /state: bad");
}

#[test]
fn resolve_url_trims_trailing_slashes() {
    assert_eq!(
        resolve_url("http://127.0.0.1:8088//", "obs-svc-agg"),
        "http://127.0.0.1:8088/resolve/obs-svc-agg"
    );
    assert_eq!(resolve_url("http://h", "x"), "http://h/resolve/x");
    assert_eq!(trim_end_matches_char("///", '/'), "");
}

#[test]
fn resolve_failure_reasons() {
    assert_eq!(
        resolve_failure_reason("obs-svc-agg", &ResolveFailure::Status(404)),
        "delightd holds no registration for \"obs-svc-agg\" (not resolvable)"
    );
    assert_eq!(
        resolve_failure_reason("obs-svc-agg", &ResolveFailure::Status(500)),
        "delightd /resolve returned HTTP 500"
    );
    assert_eq!(
        resolve_failure_reason("x", &ResolveFailure::Unreachable("down".to_string())),
        "delightd unreachable: down"
    );
    assert_eq!(
        resolve_failure_reason("x", &ResolveFailure::Body("eof".to_string())),
        "read resolve body: eof"
    );
    assert_eq!(
        resolve_failure_reason("x", &ResolveFailure::Decode("bad".to_string())),
        "parse resolve.v1.ResolvedService: bad"
    );
}

#[test]
fn incomplete_endpoint_message_quotes_fields() {
    let r = ResolvedService {
        name: "obs-svc-agg".into(),
        scheme: "http".into(),
        address: String::new(),
    };
    assert_eq!(
        state_url_from(&r),
        Err("delightd resolved \"obs-svc-agg\" to an incomplete endpoint (scheme=\"http\", address=\"\")"
            .to_string())
    );
}

#[test]
fn panel_slots_summarise_overflow() {
    let mut snap = Snapshot::default();
    let many: Vec<(String, ServiceHealth)> =
        (0..8).map(|i| service(&format!("s{i}"), "RED", i)).collect();
    snap.services.extend(many);
    let m = RenderModel::from_snapshot(&snap);
    let slots = row_slots(&m, 6);
    assert_eq!(slots.len(), 6);
    assert_eq!(slots[0].text, "● s0  0 hb");
    assert_eq!(slots[0].ink, Some(Ink::Swatch(colour_for(Health::Red))));
    assert_eq!(slots[5].text, "… +3 more");
    assert_eq!(slots[5].ink, Some(Ink::White));
    assert_eq!(runway_ink(&m), Ink::White);
}

#[test]
fn panel_slots_blank_past_last_row() {
    let m = RenderModel::unreachable("down");
    let slots = row_slots(&m, 3);
    assert_eq!(slots[0].text, "● obs-svc-agg  down");
    assert_eq!(slots[1].text, "");
    assert_eq!(slots[1].ink, None);
    assert_eq!(runway_ink(&m), Ink::Swatch(colour_for(Health::Unspecified)));
    let exact = row_slots(&m, 1);
    assert_eq!(exact[0].text, "● obs-svc-agg  down");
}
