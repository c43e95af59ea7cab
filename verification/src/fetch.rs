use std::time::Duration;
use vstd::prelude::*;

use crate::text::{decimal, lemma_parse_decimal_round_trip, parse_u64, push_decimal, spec_parse_u64};

verus! {

/// The aggregator's `/state` endpoint on this host, used when no override is
/// configured.
pub const DEFAULT_STATE_URL: &'static str = "http://127.0.0.1:8090/state";

/// The widget's poll cadence, in seconds, unless overridden.
pub const DEFAULT_POLL_SECS: u64 = 2;

/// The bound on one poll, in seconds, unless overridden.
pub const DEFAULT_TIMEOUT_SECS: u64 = 3;

/// The widget's runtime configuration.
#[derive(Debug)]
pub struct Config {
    /// The full URL of the aggregator's `/state` endpoint.
    pub state_url: String,
    /// The tick interval.
    pub poll: Duration,
    /// The bound on a single poll, so a hung aggregator cannot stall a tick.
    pub timeout: Duration,
}

impl Clone for Config {
    /// A copy with the same endpoint and the same durations.
    fn clone(&self) -> (c: Self)
        ensures
            c.state_url@ == self.state_url@,
            c.poll == self.poll,
            c.timeout == self.timeout,
    {
        Config { state_url: self.state_url.clone(), poll: self.poll, timeout: self.timeout }
    }
}

/// The seconds an override asks for: a positive decimal number, otherwise the
/// default (an absent, non-numeric or zero override must not disable the
/// timeout or spin the poll loop).
pub open spec fn spec_secs_setting(raw: Option<Seq<char>>, default: u64) -> u64 {
    match raw {
        Some(s) => match spec_parse_u64(s) {
            Some(v) => if v > 0 {
                v
            } else {
                default
            },
            None => default,
        },
        None => default,
    }
}

/// The seconds a configuration override asks for, or `default`.
pub fn secs_setting(raw: Option<&str>, default: u64) -> (secs: u64)
    ensures
        secs == spec_secs_setting(
            match raw {
                Some(s) => Some(s@),
                None => None,
            },
            default,
        ),
        default > 0 ==> secs > 0,
{
    match raw {
        Some(s) => match parse_u64(s) {
            Some(v) => if v > 0 {
                v
            } else {
                default
            },
            None => default,
        },
        None => default,
    }
}

/// Why one poll of `/state` produced no snapshot.
#[derive(Debug, Clone, PartialEq, Eq)]
pub enum FetchFailure {
    /// The aggregator answered with a non-success HTTP status.
    Status(u16),
    /// The aggregator could not be reached; the transport's explanation.
    Unreachable(String),
    /// The response body could not be read; the reader's explanation.
    Body(String),
    /// The body is not a snapshot; the decoder's explanation.
    Parse(String),
}

/// The reason text shown for a failed poll.
pub open spec fn spec_fetch_failure_reason(f: FetchFailure) -> Seq<char> {
    match f {
        FetchFailure::Status(code) => "aggregator returned HTTP "@ + decimal(code as nat),
        FetchFailure::Unreachable(e) => "unreachable: "@ + e@,
        FetchFailure::Body(e) => "read body: "@ + e@,
        FetchFailure::Parse(e) => "parse /state: "@ + e@,
    }
}

/// Describes a failed poll, for the degraded view.
pub fn fetch_failure_reason(f: &FetchFailure) -> (r: String)
    ensures
        r@ == spec_fetch_failure_reason(*f),
{
    match f {
        FetchFailure::Status(code) => {
            let mut out = String::from_str("aggregator returned HTTP ");
            push_decimal(&mut out, *code as u64);
            out
        },
        FetchFailure::Unreachable(e) => {
            let mut out = String::from_str("unreachable: ");
            out.append(e.as_str());
            out
        },
        FetchFailure::Body(e) => {
            let mut out = String::from_str("read body: ");
            out.append(e.as_str());
            out
        },
        FetchFailure::Parse(e) => {
            let mut out = String::from_str("parse /state: ");
            out.append(e.as_str());
            out
        },
    }
}

/// An override that spells a positive number of seconds is honoured exactly,
/// whatever the default; one that spells zero falls back to the default.
pub proof fn lemma_positive_override_is_honoured(v: u64, default: u64)
    ensures
        v > 0 ==> spec_secs_setting(Some(decimal(v as nat)), default) == v,
        v == 0 ==> spec_secs_setting(Some(decimal(v as nat)), default) == default,
        spec_secs_setting(None, default) == default,
        forall|s: Seq<char>|
            spec_parse_u64(s) is None ==> #[trigger] spec_secs_setting(Some(s), default) == default,
        forall|s: Seq<char>|
            #[trigger] spec_parse_u64(s) == Some(v) && v > 0 ==> spec_secs_setting(Some(s), default)
                == v,
{
    lemma_parse_decimal_round_trip(v);
}

} // verus!
