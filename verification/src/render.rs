use vstd::prelude::*;

use crate::model::{
    spec_label, spec_parse, spec_severity, BackupStat, Health, ServiceHealth, Snapshot,
};
use crate::ordered_map::keys_increasing;
use crate::text::{decimal, push_decimal};

verus! {

/// A plain 8-bit colour.
#[derive(Debug, Clone, Copy, PartialEq, Eq, Structural)]
pub struct Rgb {
    pub r: u8,
    pub g: u8,
    pub b: u8,
}

/// The swatch painted for each state. UNSPECIFIED (and the unreachable "no
/// data" view) is a neutral grey: "we do not know" is not green.
pub open spec fn spec_colour(h: Health) -> Rgb {
    match h {
        Health::Green => Rgb { r: 0x2e, g: 0xcc, b: 0x71 },
        Health::Yellow => Rgb { r: 0xf1, g: 0xc4, b: 0x0f },
        Health::Red => Rgb { r: 0xe7, g: 0x4c, b: 0x3c },
        Health::Exhausted => Rgb { r: 0x99, g: 0x2d, b: 0x22 },
        Health::Unspecified => Rgb { r: 0x7f, g: 0x8c, b: 0x8d },
    }
}

/// The swatch colour of a health state.
pub fn colour_for(h: Health) -> (c: Rgb)
    ensures
        c == spec_colour(h),
{
    match h {
        Health::Green => Rgb { r: 0x2e, g: 0xcc, b: 0x71 },
        Health::Yellow => Rgb { r: 0xf1, g: 0xc4, b: 0x0f },
        Health::Red => Rgb { r: 0xe7, g: 0x4c, b: 0x3c },
        Health::Exhausted => Rgb { r: 0x99, g: 0x2d, b: 0x22 },
        Health::Unspecified => Rgb { r: 0x7f, g: 0x8c, b: 0x8d },
    }
}

/// One line of the body: a service or a backup project.
#[derive(Debug, Clone, PartialEq, Eq)]
pub struct Row {
    pub label: String,
    pub health: Health,
    pub detail: String,
}

/// Everything the window paints for one tick.
#[derive(Debug, Clone, PartialEq, Eq)]
pub struct RenderModel {
    /// The fleet rollup that drives the headline swatch.
    pub overall: Health,
    /// The one-line status ("FLEET GREEN", "NO DATA", ...).
    pub headline: String,
    /// The per-service or per-project lines under the headline.
    pub rows: Vec<Row>,
    /// The token-runway readout, or a placeholder.
    pub runway: String,
    /// False when the aggregator could not be polled this tick.
    pub reachable: bool,
}

/// Whether `row` shows exactly the given label, health and detail.
pub open spec fn row_shows(row: Row, label: Seq<char>, health: Health, detail: Seq<char>) -> bool {
    &&& row.label@ == label
    &&& row.health == health
    &&& row.detail@ == detail
}

/// `s` clipped to `n` characters: unchanged when it fits, otherwise its first
/// `n - 1` characters followed by an ellipsis.
pub open spec fn spec_truncate(s: Seq<char>, n: nat) -> Seq<char> {
    if s.len() <= n {
        s
    } else {
        s.take(if n >= 1 { n - 1 } else { 0 }) + seq!['…']
    }
}

/// Clips `s` to `n` characters with an ellipsis, so a long error does not blow
/// out the fixed-size window.
pub fn truncate(s: &str, n: usize) -> (r: String)
    ensures
        r@ == spec_truncate(s@, n as nat),
{
    let len = s.unicode_len();
    if len <= n {
        return String::from_str(s);
    }
    let keep: usize = if n >= 1 {
        n - 1
    } else {
        0
    };
    let mut out = String::from_str(s.substring_char(0, keep));
    out.append("…");
    proof {
        reveal_strlit("…");
    }
    out
}

/// The worst state of `states`, worst-wins by severity, starting from
/// UNSPECIFIED.
pub open spec fn spec_worst(states: Seq<Health>) -> Health
    decreases states.len(),
{
    if states.len() == 0 {
        Health::Unspecified
    } else {
        let w = spec_worst(states.drop_last());
        if spec_severity(states.last()) > spec_severity(w) {
            states.last()
        } else {
            w
        }
    }
}

/// The parsed state of every service, in key order.
pub open spec fn service_states(snap: Snapshot) -> Seq<Health> {
    snap.services@.map_values(|e: (Seq<char>, ServiceHealth)| spec_parse(e.1.state@))
}

/// The rollup when the aggregator sent none: worst-wins over the services, or
/// the daemon readiness flag when there are no services at all.
pub open spec fn spec_recomputed_overall(snap: Snapshot) -> Health {
    if snap.services@.len() > 0 {
        spec_worst(service_states(snap))
    } else if snap.healthy {
        Health::Green
    } else {
        Health::Unspecified
    }
}

/// The headline health: the aggregator's own non-empty rollup when present,
/// otherwise the recomputed one.
pub open spec fn spec_fleet_overall(snap: Snapshot) -> Health {
    match snap.fleet {
        Some(f) => if f.overall@.len() > 0 {
            spec_parse(f.overall@)
        } else {
            spec_recomputed_overall(snap)
        },
        None => spec_recomputed_overall(snap),
    }
}

/// Resolves the headline health, preferring the aggregator's rollup.
pub fn fleet_overall(snap: &Snapshot) -> (h: Health)
    ensures
        h == spec_fleet_overall(*snap),
{
    if let Some(fleet) = &snap.fleet {
        if fleet.overall.as_str().unicode_len() > 0 {
            return Health::parse(fleet.overall.as_str());
        }
    }
    let n = snap.services.len();
    if n > 0 {
        let ghost states = service_states(*snap);
        let mut worst = Health::Unspecified;
        assert(states.take(0) =~= Seq::<Health>::empty());
        for i in 0..n
            invariant
                n == snap.services@.len(),
                states == service_states(*snap),
                worst == spec_worst(states.take(i as int)),
        {
            let h = Health::parse(snap.services.value_at(i).state.as_str());
            assert(states.take(i + 1).drop_last() =~= states.take(i as int));
            assert(states[i as int] == h);
            if h.severity() > worst.severity() {
                worst = h;
            }
        }
        assert(states.take(n as int) =~= states);
        return worst;
    }
    if snap.healthy {
        Health::Green
    } else {
        Health::Unspecified
    }
}

/// The runway readout, or the placeholder until the quota feed exists.
pub open spec fn spec_runway_line(snap: Snapshot) -> Seq<char> {
    match snap.quota {
        Some(q) => "runway: "@ + decimal(q.runway_minutes_remaining as nat) + "m  burn: "@
            + decimal(q.burn_rate_tokens_per_minute as nat) + "/m"@,
        None => "runway: -- (no quota feed)"@,
    }
}

/// Renders the token-runway readout.
pub fn runway_line(snap: &Snapshot) -> (r: String)
    ensures
        r@ == spec_runway_line(*snap),
{
    match &snap.quota {
        Some(q) => {
            let mut out = String::new();
            out.append("runway: ");
            push_decimal(&mut out, q.runway_minutes_remaining);
            out.append("m  burn: ");
            push_decimal(&mut out, q.burn_rate_tokens_per_minute);
            out.append("/m");
            out
        },
        None => String::from_str("runway: -- (no quota feed)"),
    }
}

/// The row text for one service: its name, its parsed state, its heartbeats.
pub open spec fn service_row(row: Row, sh: ServiceHealth) -> bool {
    row_shows(
        row,
        sh.service@,
        spec_parse(sh.state@),
        decimal(sh.heartbeat_count as nat) + " hb"@,
    )
}

/// A coarse per-project signal: a failing last backup reads RED, any other
/// project with backups GREEN, a project with none UNSPECIFIED.
pub open spec fn spec_backup_health(bs: BackupStat) -> Health {
    if bs.total > 0 && !bs.last_success {
        Health::Red
    } else if bs.total > 0 {
        Health::Green
    } else {
        Health::Unspecified
    }
}

/// The row text for one backup project.
pub open spec fn backup_row(row: Row, bs: BackupStat) -> bool {
    row_shows(
        row,
        bs.project@,
        spec_backup_health(bs),
        decimal(bs.successes as nat) + "ok/"@ + decimal(bs.failures as nat) + "fail"@,
    )
}

/// The headline: the rollup label, flagged when there is nothing to list.
pub open spec fn spec_headline(overall: Health, no_rows: bool) -> Seq<char> {
    "FLEET "@ + spec_label(overall) + if no_rows {
        " (no events)"@
    } else {
        Seq::<char>::empty()
    }
}

/// The full view of a successfully fetched snapshot.
pub open spec fn renders_snapshot(m: RenderModel, snap: Snapshot) -> bool {
    &&& m.overall == spec_fleet_overall(snap)
    &&& m.reachable
    &&& m.runway@ == spec_runway_line(snap)
    &&& m.headline@ == spec_headline(m.overall, m.rows@.len() == 0)
    &&& if snap.services@.len() > 0 {
        &&& m.rows@.len() == snap.services@.len()
        &&& forall|i: int|
            0 <= i < m.rows@.len() ==> service_row(#[trigger] m.rows@[i], snap.services@[i].1)
    } else {
        &&& m.rows@.len() == snap.backups@.len()
        &&& forall|i: int|
            0 <= i < m.rows@.len() ==> backup_row(#[trigger] m.rows@[i], snap.backups@[i].1)
    }
}

fn service_line(sh: &ServiceHealth) -> (row: Row)
    ensures
        service_row(row, *sh),
{
    let mut detail = String::new();
    push_decimal(&mut detail, sh.heartbeat_count);
    detail.append(" hb");
    Row { label: sh.service.clone(), health: Health::parse(sh.state.as_str()), detail }
}

fn backup_line(bs: &BackupStat) -> (row: Row)
    ensures
        backup_row(row, *bs),
{
    let health = if bs.total > 0 && !bs.last_success {
        Health::Red
    } else if bs.total > 0 {
        Health::Green
    } else {
        Health::Unspecified
    };
    let mut detail = String::new();
    push_decimal(&mut detail, bs.successes);
    detail.append("ok/");
    push_decimal(&mut detail, bs.failures);
    detail.append("fail");
    Row { label: bs.project.clone(), health, detail }
}

/// The degraded "no data" view for a failed poll with the given reason.
pub open spec fn renders_unreachable(m: RenderModel, reason: Seq<char>) -> bool {
    &&& m.overall == Health::Unspecified
    &&& m.headline@ == "NO DATA"@
    &&& m.rows@.len() == 1
    &&& row_shows(m.rows@[0], "obs-svc-agg"@, Health::Unspecified, spec_truncate(reason, 48))
    &&& m.runway@ == "runway: --"@
    &&& !m.reachable
}

impl RenderModel {
    /// The degraded view drawn when `GET /state` failed this tick: grey, "NO
    /// DATA", and the reason clipped to fit.
    pub fn unreachable(reason: &str) -> (m: RenderModel)
        ensures
            renders_unreachable(m, reason@),
    {
        let row = Row {
            label: String::from_str("obs-svc-agg"),
            health: Health::Unspecified,
            detail: truncate(reason, 48),
        };
        let mut rows: Vec<Row> = Vec::new();
        rows.push(row);
        RenderModel {
            overall: Health::Unspecified,
            headline: String::from_str("NO DATA"),
            rows,
            runway: String::from_str("runway: --"),
            reachable: false,
        }
    }

    /// Builds the view of a fetched snapshot: rows for the services in key
    /// order, or for the backup projects when there are no services.
    pub fn from_snapshot(snap: &Snapshot) -> (m: RenderModel)
        ensures
            renders_snapshot(m, *snap),
            keys_increasing(snap.services@),
            keys_increasing(snap.backups@),
    {
        proof {
            use_type_invariant(&snap.services);
            use_type_invariant(&snap.backups);
        }
        let overall = fleet_overall(snap);
        let mut rows: Vec<Row> = Vec::new();
        let n = snap.services.len();
        for i in 0..n
            invariant
                n == snap.services@.len(),
                rows@.len() == i,
                forall|j: int| 0 <= j < i ==> service_row(#[trigger] rows@[j], snap.services@[j].1),
        {
            rows.push(service_line(snap.services.value_at(i)));
        }
        if rows.len() == 0 {
            let b = snap.backups.len();
            for i in 0..b
                invariant
                    b == snap.backups@.len(),
                    rows@.len() == i,
                    forall|j: int|
                        0 <= j < i ==> backup_row(#[trigger] rows@[j], snap.backups@[j].1),
            {
                rows.push(backup_line(snap.backups.value_at(i)));
            }
        }
        let mut headline = String::from_str("FLEET ");
        headline.append(overall.label());
        if rows.len() == 0 {
            headline.append(" (no events)");
        }
        let runway = runway_line(snap);
        assert(headline@ =~= spec_headline(overall, rows@.len() == 0));
        RenderModel { overall, headline, rows, runway, reachable: true }
    }

    /// The view for one poll: the snapshot's view when the poll succeeded,
    /// the degraded view with the failure reason otherwise. The widget keeps
    /// no state between ticks, so this is all a tick paints.
    pub fn from_poll(polled: &Result<Snapshot, String>) -> (m: RenderModel)
        ensures
            match polled {
                Ok(snap) => renders_snapshot(m, *snap),
                Err(reason) => renders_unreachable(m, reason@),
            },
    {
        match polled {
            Ok(snap) => RenderModel::from_snapshot(snap),
            Err(reason) => RenderModel::unreachable(reason.as_str()),
        }
    }
}

/// The widget keeps no state between ticks: any two views built from the same
/// snapshot show the same thing.
pub proof fn lemma_view_depends_only_on_snapshot(m1: RenderModel, m2: RenderModel, snap: Snapshot)
    requires
        renders_snapshot(m1, snap),
        renders_snapshot(m2, snap),
    ensures
        m1.overall == m2.overall,
        m1.headline@ == m2.headline@,
        m1.runway@ == m2.runway@,
        m1.reachable == m2.reachable,
        m1.rows@.len() == m2.rows@.len(),
        forall|i: int|
            0 <= i < m1.rows@.len() ==> (#[trigger] m1.rows@[i]).label@ == m2.rows@[i].label@
                && m1.rows@[i].health == m2.rows@[i].health && m1.rows@[i].detail@
                == m2.rows@[i].detail@,
{
    assert forall|i: int| 0 <= i < m1.rows@.len() implies (#[trigger] m1.rows@[i]).label@
        == m2.rows@[i].label@ && m1.rows@[i].health == m2.rows@[i].health
        && m1.rows@[i].detail@ == m2.rows@[i].detail@ by {
        if snap.services@.len() > 0 {
            assert(service_row(m1.rows@[i], snap.services@[i].1));
            assert(service_row(m2.rows@[i], snap.services@[i].1));
        } else {
            assert(backup_row(m1.rows@[i], snap.backups@[i].1));
            assert(backup_row(m2.rows@[i], snap.backups@[i].1));
        }
    }
}

/// Every state has its own colour; in particular UNSPECIFIED (the "no data"
/// grey) never paints as GREEN.
pub proof fn lemma_colours_distinct(a: Health, b: Health)
    requires
        a != b,
    ensures
        spec_colour(a) != spec_colour(b),
{
}

/// Severity ranks EXHAUSTED above RED above YELLOW above GREEN above
/// UNSPECIFIED, and no two states share a rank.
pub proof fn lemma_severity_order(a: Health, b: Health)
    ensures
        spec_severity(Health::Exhausted) > spec_severity(Health::Red),
        spec_severity(Health::Red) > spec_severity(Health::Yellow),
        spec_severity(Health::Yellow) > spec_severity(Health::Green),
        spec_severity(Health::Green) > spec_severity(Health::Unspecified),
        a != b ==> spec_severity(a) != spec_severity(b),
{
}

/// Worst-wins: the rollup of a non-empty list of states is one of them, and no
/// state in the list is more severe than it.
pub proof fn lemma_worst_wins(states: Seq<Health>)
    requires
        states.len() > 0,
    ensures
        exists|i: int| 0 <= i < states.len() && states[i] == spec_worst(states),
        forall|i: int|
            0 <= i < states.len() ==> spec_severity(#[trigger] states[i]) <= spec_severity(
                spec_worst(states),
            ),
    decreases states.len(),
{
    let init = states.drop_last();
    let w = spec_worst(states);
    if init.len() == 0 {
        if spec_severity(states.last()) <= spec_severity(Health::Unspecified) {
            assert(states[0] == Health::Unspecified);
        }
        assert(states[states.len() - 1] == w);
    } else {
        lemma_worst_wins(init);
        assert forall|i: int| 0 <= i < states.len() implies spec_severity(#[trigger] states[i])
            <= spec_severity(w) by {
            if i < init.len() {
                assert(states[i] == init[i]);
            }
        }
        if w == states.last() {
            assert(states[states.len() - 1] == w);
        } else {
            let j = choose|j: int| 0 <= j < init.len() && init[j] == spec_worst(init);
            assert(states[j] == w);
        }
    }
}

/// With no rollup from the aggregator and at least one service, the headline
/// is the worst service state.
pub proof fn lemma_recomputed_rollup_is_worst_service(snap: Snapshot)
    requires
        snap.fleet is None || snap.fleet->0.overall@.len() == 0,
        snap.services@.len() > 0,
    ensures
        exists|i: int|
            0 <= i < snap.services@.len() && spec_fleet_overall(snap) == spec_parse(
                snap.services@[i].1.state@,
            ),
        forall|i: int|
            0 <= i < snap.services@.len() ==> spec_severity(
                spec_parse(#[trigger] snap.services@[i].1.state@),
            ) <= spec_severity(spec_fleet_overall(snap)),
{
    let states = service_states(snap);
    lemma_worst_wins(states);
    assert forall|i: int| 0 <= i < snap.services@.len() implies spec_severity(
        spec_parse(#[trigger] snap.services@[i].1.state@),
    ) <= spec_severity(spec_fleet_overall(snap)) by {
        assert(states[i] == spec_parse(snap.services@[i].1.state@));
    }
    let j = choose|j: int| 0 <= j < states.len() && states[j] == spec_worst(states);
    assert(states[j] == spec_parse(snap.services@[j].1.state@));
}

/// A clipped text never exceeds its budget of `n >= 1` characters; when it had
/// to be clipped it is exactly `n` long, keeps the first `n - 1` characters and
/// ends with the ellipsis.
pub proof fn lemma_truncate_fits(s: Seq<char>, n: nat)
    requires
        n >= 1,
    ensures
        spec_truncate(s, n).len() <= n,
        s.len() <= n ==> spec_truncate(s, n) == s,
        s.len() > n ==> {
            &&& spec_truncate(s, n).len() == n
            &&& spec_truncate(s, n).take(n - 1) == s.take(n - 1)
            &&& spec_truncate(s, n).last() == '…'
        },
{
    if s.len() > n {
        assert(spec_truncate(s, n).take(n - 1) =~= s.take(n - 1));
    }
}

/// A non-empty rollup sent by the aggregator is the headline health as it
/// stands, whatever the services report: it is never overridden by a worse
/// (or better) recomputed service state.
pub proof fn lemma_aggregator_rollup_wins(snap: Snapshot)
    requires
        snap.fleet is Some,
        snap.fleet->0.overall@.len() > 0,
    ensures
        spec_fleet_overall(snap) == spec_parse(snap.fleet->0.overall@),
        forall|i: int|
            0 <= i < snap.services@.len() && spec_severity(
                spec_parse(#[trigger] snap.services@[i].1.state@),
            ) > spec_severity(spec_parse(snap.fleet->0.overall@)) ==> spec_fleet_overall(snap)
                != spec_parse(snap.services@[i].1.state@),
{
}

/// With no services, each rendered backup row reads RED exactly when the
/// project has backups and its last one failed, GREEN when it has backups and
/// its last one succeeded (however many earlier ones failed), and UNSPECIFIED
/// when it has none.
pub proof fn lemma_backup_row_health(m: RenderModel, snap: Snapshot)
    requires
        renders_snapshot(m, snap),
        snap.services@.len() == 0,
    ensures
        m.rows@.len() == snap.backups@.len(),
        forall|i: int|
            0 <= i < m.rows@.len() ==> {
                let bs = #[trigger] snap.backups@[i].1;
                &&& (bs.total > 0 && !bs.last_success) ==> m.rows@[i].health == Health::Red
                &&& (bs.total > 0 && bs.last_success) ==> m.rows@[i].health == Health::Green
                &&& bs.total == 0 ==> m.rows@[i].health == Health::Unspecified
                &&& m.rows@[i].label@ == bs.project@
            },
{
    assert forall|i: int| 0 <= i < m.rows@.len() implies {
        let bs = #[trigger] snap.backups@[i].1;
        &&& (bs.total > 0 && !bs.last_success) ==> m.rows@[i].health == Health::Red
        &&& (bs.total > 0 && bs.last_success) ==> m.rows@[i].health == Health::Green
        &&& bs.total == 0 ==> m.rows@[i].health == Health::Unspecified
        &&& m.rows@[i].label@ == bs.project@
    } by {
        assert(backup_row(m.rows@[i], snap.backups@[i].1));
    }
}

/// With no rollup from the aggregator and no services, the headline leans on
/// the daemon readiness flag: GREEN when it reports healthy, UNSPECIFIED
/// (never GREEN) otherwise.
pub proof fn lemma_healthy_flag_fallback(snap: Snapshot)
    requires
        snap.fleet is None || snap.fleet->0.overall@.len() == 0,
        snap.services@.len() == 0,
    ensures
        spec_fleet_overall(snap) == (if snap.healthy {
            Health::Green
        } else {
            Health::Unspecified
        }),
        !snap.healthy ==> spec_fleet_overall(snap) != Health::Green,
{
}

} // verus!
