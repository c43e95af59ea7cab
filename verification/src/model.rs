use vstd::prelude::*;

use crate::ordered_map::OrderedMap;

verus! {

/// The fleet health vocabulary as the aggregator emits it (the bare names,
/// `"GREEN"` rather than `"HEALTH_STATE_GREEN"`). `Unspecified` stands for
/// any unknown or missing value, so a new state never breaks the widget.
#[derive(Debug, Clone, Copy, PartialEq, Eq, Structural)]
pub enum Health {
    Unspecified,
    Green,
    Yellow,
    Red,
    Exhausted,
}

/// The glance text of a state.
pub open spec fn spec_label(h: Health) -> Seq<char> {
    match h {
        Health::Unspecified => seq!['U', 'N', 'S', 'P', 'E', 'C', 'I', 'F', 'I', 'E', 'D'],
        Health::Green => seq!['G', 'R', 'E', 'E', 'N'],
        Health::Yellow => seq!['Y', 'E', 'L', 'L', 'O', 'W'],
        Health::Red => seq!['R', 'E', 'D'],
        Health::Exhausted => seq!['E', 'X', 'H', 'A', 'U', 'S', 'T', 'E', 'D'],
    }
}

/// The state a string names: one of the four known names, anything else
/// (the empty string included) is `Unspecified`.
pub open spec fn spec_parse(s: Seq<char>) -> Health {
    if s == spec_label(Health::Green) {
        Health::Green
    } else if s == spec_label(Health::Yellow) {
        Health::Yellow
    } else if s == spec_label(Health::Red) {
        Health::Red
    } else if s == spec_label(Health::Exhausted) {
        Health::Exhausted
    } else {
        Health::Unspecified
    }
}

/// Worst-wins rank: EXHAUSTED (terminal) above RED above YELLOW above GREEN,
/// with UNSPECIFIED as the floor.
pub open spec fn spec_severity(h: Health) -> u8 {
    match h {
        Health::Unspecified => 0,
        Health::Green => 1,
        Health::Yellow => 2,
        Health::Red => 3,
        Health::Exhausted => 4,
    }
}

impl Health {
    /// Maps the aggregator's state string to a `Health`; unknown or empty input
    /// is `Unspecified`, never an error.
    pub fn parse(s: &str) -> (h: Health)
        ensures
            h == spec_parse(s@),
    {
        let owned = s.to_owned();
        let green = String::from_str("GREEN");
        let yellow = String::from_str("YELLOW");
        let red = String::from_str("RED");
        let exhausted = String::from_str("EXHAUSTED");
        proof {
            reveal_strlit("GREEN");
            reveal_strlit("YELLOW");
            reveal_strlit("RED");
            reveal_strlit("EXHAUSTED");
            assert(green@ =~= spec_label(Health::Green));
            assert(yellow@ =~= spec_label(Health::Yellow));
            assert(red@ =~= spec_label(Health::Red));
            assert(exhausted@ =~= spec_label(Health::Exhausted));
        }
        if owned == green {
            Health::Green
        } else if owned == yellow {
            Health::Yellow
        } else if owned == red {
            Health::Red
        } else if owned == exhausted {
            Health::Exhausted
        } else {
            Health::Unspecified
        }
    }

    /// The worst-wins rank of the state.
    pub fn severity(self) -> (r: u8)
        ensures
            r == spec_severity(self),
    {
        match self {
            Health::Green => 1,
            Health::Yellow => 2,
            Health::Red => 3,
            Health::Exhausted => 4,
            Health::Unspecified => 0,
        }
    }

    /// The short glance text of the state.
    pub fn label(self) -> (r: &'static str)
        ensures
            r@ == spec_label(self),
    {
        match self {
            Health::Unspecified => {
                proof {
                    reveal_strlit("UNSPECIFIED");
                }
                "UNSPECIFIED"
            },
            Health::Green => {
                proof {
                    reveal_strlit("GREEN");
                }
                "GREEN"
            },
            Health::Yellow => {
                proof {
                    reveal_strlit("YELLOW");
                }
                "YELLOW"
            },
            Health::Red => {
                proof {
                    reveal_strlit("RED");
                }
                "RED"
            },
            Health::Exhausted => {
                proof {
                    reveal_strlit("EXHAUSTED");
                }
                "EXHAUSTED"
            },
        }
    }
}

/// Reading back the label of any state gives that state again.
pub proof fn lemma_parse_label_round_trip(h: Health)
    ensures
        spec_parse(spec_label(h)) == h,
{
    assert(spec_label(Health::Unspecified) != spec_label(Health::Green));
    assert(spec_label(Health::Unspecified) != spec_label(Health::Yellow));
    assert(spec_label(Health::Unspecified) != spec_label(Health::Red));
    assert(spec_label(Health::Unspecified) != spec_label(Health::Exhausted));
    assert(spec_label(Health::Green) != spec_label(Health::Yellow));
    assert(spec_label(Health::Green) != spec_label(Health::Red));
    assert(spec_label(Health::Yellow) != spec_label(Health::Red));
    assert(spec_label(Health::Red) != spec_label(Health::Exhausted));
    assert(spec_label(Health::Yellow) != spec_label(Health::Exhausted));
    assert(spec_label(Health::Green) != spec_label(Health::Exhausted));
}

/// Any name other than the four known ones, the empty string and
/// `"UNSPECIFIED"` included, reads as `Unspecified`: a missing rollup is data,
/// not a failure.
pub proof fn lemma_unknown_names_are_unspecified(s: Seq<char>)
    requires
        s != spec_label(Health::Green),
        s != spec_label(Health::Yellow),
        s != spec_label(Health::Red),
        s != spec_label(Health::Exhausted),
    ensures
        spec_parse(s) == Health::Unspecified,
{
}

/// The aggregator's `/state` snapshot. Every field may be absent on the wire
/// (a backups-only aggregator build omits `services` and `fleet`), and an
/// absent field reads as its empty value, so a partial snapshot is data.
#[derive(Debug, Clone, Default)]
pub struct Snapshot {
    pub healthy: bool,
    pub total_events: u64,
    /// Per-project backup outcomes, keyed by project name.
    pub backups: OrderedMap<BackupStat>,
    /// Per-service debounced health, keyed by service name.
    pub services: OrderedMap<ServiceHealth>,
    /// The aggregator's own fleet rollup, when its build emits one.
    pub fleet: Option<FleetHealth>,
    /// The token-runway readout, once the aggregator emits it.
    pub quota: Option<QuotaMetrics>,
}

/// Backup outcomes of one project.
#[derive(Debug, Clone, Default)]
pub struct BackupStat {
    pub project: String,
    pub total: u64,
    pub successes: u64,
    pub failures: u64,
    pub last_success: bool,
}

/// The debounced health of one service.
#[derive(Debug, Clone, Default)]
pub struct ServiceHealth {
    pub service: String,
    /// The state-machine output after hysteresis, as a health name.
    pub state: String,
    pub heartbeat_count: u64,
}

/// The aggregator's fleet rollup.
#[derive(Debug, Clone, Default)]
pub struct FleetHealth {
    pub overall: String,
    pub active_nodes: u64,
    pub degraded_nodes: u64,
    pub exhausted_nodes: u64,
}

/// The token-runway readout.
#[derive(Debug, Clone, Default)]
pub struct QuotaMetrics {
    pub runway_state: String,
    pub runway_minutes_remaining: u64,
    pub burn_rate_tokens_per_minute: u64,
    pub absolute_quota_remaining_cents: u64,
}

} // verus!
