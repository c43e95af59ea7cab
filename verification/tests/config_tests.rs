use std::time::Duration;

use tiny_monitor::fetch::{DEFAULT_POLL_SECS, DEFAULT_STATE_URL, DEFAULT_TIMEOUT_SECS};
use tiny_monitor::Config;

#[test]
fn config_defaults_when_env_absent() {
    // guard the defaults without mutating process env (parallel-test safe).
    let cfg = Config {
        state_url: DEFAULT_STATE_URL.to_string(),
        poll: Duration::from_secs(DEFAULT_POLL_SECS),
        timeout: Duration::from_secs(DEFAULT_TIMEOUT_SECS),
    };
    assert_eq!(cfg.state_url, "http://127.0.0.1:8090/state");
    assert_eq!(cfg.poll, Duration::from_secs(2));
}
