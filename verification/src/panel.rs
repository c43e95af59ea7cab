use vstd::prelude::*;

use crate::model::Health;
use crate::render::{colour_for, spec_colour, RenderModel, Rgb};
use crate::text::{decimal, push_decimal};

verus! {

/// The colour a text line is painted in.
#[derive(Debug, Clone, Copy, PartialEq, Eq, Structural)]
pub enum Ink {
    /// Plain white text.
    White,
    /// The swatch colour of a health state.
    Swatch(Rgb),
}

/// What one fixed row label of the window shows this tick: its text, and the
/// colour to paint it in (`None` leaves the label's colour as it was).
#[derive(Debug, Clone, PartialEq, Eq)]
pub struct SlotText {
    pub text: String,
    pub ink: Option<Ink>,
}

/// The text and colour of row label `i` when the window has `slots` row
/// labels. When there are more rows than labels, the last label summarises
/// the overflow instead of clipping it; labels past the last row go blank.
pub open spec fn spec_slot(m: RenderModel, slots: nat, i: nat) -> (Seq<char>, Option<Ink>) {
    if i + 1 == slots && m.rows@.len() > slots {
        ("… +"@ + decimal((m.rows@.len() - (slots - 1)) as nat) + " more"@, Some(Ink::White))
    } else if i < m.rows@.len() {
        let row = m.rows@[i as int];
        (
            "● "@ + row.label@ + "  "@ + row.detail@,
            Some(Ink::Swatch(spec_colour(row.health))),
        )
    } else {
        (Seq::<char>::empty(), None)
    }
}

/// What each of the window's `slots` row labels shows for the view `m`.
pub fn row_slots(m: &RenderModel, slots: usize) -> (r: Vec<SlotText>)
    ensures
        r@.len() == slots,
        forall|i: int|
            0 <= i < slots ==> ((#[trigger] r@[i]).text@, r@[i].ink) == spec_slot(
                *m,
                slots as nat,
                i as nat,
            ),
{
    let mut out: Vec<SlotText> = Vec::new();
    let n = m.rows.len();
    for i in 0..slots
        invariant
            n == m.rows@.len(),
            out@.len() == i,
            forall|j: int|
                0 <= j < i ==> ((#[trigger] out@[j]).text@, out@[j].ink) == spec_slot(
                    *m,
                    slots as nat,
                    j as nat,
                ),
    {
        if i + 1 == slots && n > slots {
            let mut text = String::from_str("… +");
            push_decimal(&mut text, (n - (slots - 1)) as u64);
            text.append(" more");
            out.push(SlotText { text, ink: Some(Ink::White) });
        } else if i < n {
            let row = &m.rows[i];
            let mut text = String::from_str("● ");
            text.append(row.label.as_str());
            text.append("  ");
            text.append(row.detail.as_str());
            out.push(SlotText { text, ink: Some(Ink::Swatch(colour_for(row.health))) });
        } else {
            out.push(SlotText { text: String::new(), ink: None });
        }
    }
    out
}

/// The runway line is white while the aggregator answers and takes the
/// degraded colour when it does not, to reinforce "no data".
pub fn runway_ink(m: &RenderModel) -> (ink: Ink)
    ensures
        ink == (if m.reachable {
            Ink::White
        } else {
            Ink::Swatch(spec_colour(m.overall))
        }),
{
    if m.reachable {
        Ink::White
    } else {
        Ink::Swatch(colour_for(m.overall))
    }
}

/// Every label that shows a row is painted in that row's own health colour,
/// whatever the fleet rollup is; only the overflow summary is white.
pub proof fn lemma_row_slot_ink_is_row_colour(m: RenderModel, slots: nat, i: nat)
    requires
        i < m.rows@.len(),
        i < slots,
        !(i + 1 == slots && m.rows@.len() > slots),
    ensures
        spec_slot(m, slots, i).1 == Some(Ink::Swatch(spec_colour(m.rows@[i as int].health))),
        forall|other: Health|
            spec_slot(RenderModel { overall: other, ..m }, slots, i).1 == spec_slot(m, slots, i).1,
{
}

/// Rows that fit are all shown, one per label, and the labels past them are
/// blank; rows that do not fit are shown up to the last label, which counts
/// exactly the rows left out, so shown plus summarised is every row.
pub proof fn lemma_slots_account_for_every_row(m: RenderModel, slots: nat)
    requires
        slots >= 1,
    ensures
        m.rows@.len() <= slots ==> forall|i: nat|
            i < slots ==> (#[trigger] spec_slot(m, slots, i)).1 == (if i < m.rows@.len() {
                Some(Ink::Swatch(spec_colour(m.rows@[i as int].health)))
            } else {
                None
            }),
        m.rows@.len() <= slots ==> forall|i: nat|
            m.rows@.len() <= i < slots ==> (#[trigger] spec_slot(m, slots, i)).0.len() == 0,
        m.rows@.len() > slots ==> {
            let extra = (m.rows@.len() - (slots - 1)) as nat;
            &&& (slots - 1) + extra == m.rows@.len()
            &&& extra >= 2
            &&& spec_slot(m, slots, (slots - 1) as nat) == ("… +"@ + decimal(extra) + " more"@, Some(Ink::White))
        },
{
}

} // verus!
