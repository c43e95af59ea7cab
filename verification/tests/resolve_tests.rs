use tiny_monitor::resolve::{state_url_from, ResolvedService};

#[test]
fn builds_state_url_from_resolved() {
    let r = ResolvedService {
        name: "obs-svc-agg".into(),
        scheme: "http".into(),
        address: "obs-svc-agg.fleet:8090".into(),
    };
    assert_eq!(
        state_url_from(&r).expect("complete endpoint"),
        "http://obs-svc-agg.fleet:8090/state"
    );
}

#[test]
fn deserializes_resolvedservice_from_delightd_protojson() {
    // a literal GET /resolve/{name} body exactly as delightd serves it (bare protojson,
    // proto field names). This pins the widget against the wire shape the contract emits.
    let body = r#"{"name":"obs-svc-agg","scheme":"http","address":"obs-svc-agg.fleet:8090"}"#;
    let v: serde_json::Value = serde_json::from_str(body).expect("decode ResolvedService");
    let field = |k: &str| v[k].as_str().expect("decode ResolvedService").to_string();
    let r = ResolvedService {
        name: field("name"),
        scheme: field("scheme"),
        address: field("address"),
    };
    assert_eq!(r.address, "obs-svc-agg.fleet:8090");
    assert_eq!(
        state_url_from(&r).expect("complete endpoint"),
        "http://obs-svc-agg.fleet:8090/state"
    );
}

#[test]
fn incomplete_endpoint_is_error_not_malformed_url() {
    // delightd returning an empty endpoint must fail loudly here, not produce "://　/state".
    let r = ResolvedService {
        name: "obs-svc-agg".into(),
        scheme: String::new(),
        address: String::new(),
    };
    assert!(state_url_from(&r).is_err());
}
