//! Deleting what is selected, and saying what the deletion did beyond it.

use crate::gesture::{MergeAction, PendingMerge};
use crate::interaction::Interaction;
use crate::ordered_set::OrderedSet;
use crate::selection::{TopologyHandle, TopologySelection, TopologySpanTarget};
use crate::text::{decimal, decimal_digits, joined};
use vstd::prelude::*;

verus! {

/// What a deletion is of.
#[derive(Debug)]
pub enum Deletion {
    Nothing,
    Probe(u64),
    Control { curve: u64, control: usize },
    Spans(OrderedSet<u64>),
}

/// The spans of curves among some targets.
pub open spec fn curve_spans(targets: Set<TopologySpanTarget>) -> Set<u64> {
    Set::new(|span: u64| targets.contains(TopologySpanTarget::Curve(span)))
}

fn spans_among(targets: &OrderedSet<TopologySpanTarget>) -> (result: OrderedSet<u64>)
    requires
        targets.wf(),
    ensures
        result.wf(),
        result@ == curve_spans(targets@),
{
    let mut spans: OrderedSet<u64> = OrderedSet::new();
    let mut index: usize = 0;
    while index < targets.values.len()
        invariant
            index <= targets.values@.len(),
            spans.wf(),
            forall|span: u64| #[trigger]
                spans@.contains(span) == targets.values@.take(index as int).contains(
                    TopologySpanTarget::Curve(span),
                ),
        decreases targets.values@.len() - index,
    {
        let ghost before = spans@;
        let target: TopologySpanTarget = targets.values[index];
        if let TopologySpanTarget::Curve(span) = target {
            spans.insert(span);
        }
        proof {
            let shorter = targets.values@.take(index as int);
            let longer = targets.values@.take(index + 1);
            assert(longer =~= shorter.push(target));
            assert forall|span: u64| #[trigger]
                spans@.contains(span) == longer.contains(TopologySpanTarget::Curve(span)) by {
                let wanted = TopologySpanTarget::Curve(span);
                assert(before.contains(span) == shorter.contains(wanted));
                if shorter.contains(wanted) {
                    let i = shorter.index_of(wanted);
                    assert(longer[i] == wanted);
                }
                assert(longer[index as int] == target);
                if longer.contains(wanted) {
                    let i = longer.index_of(wanted);
                    if i < index {
                        assert(shorter[i] == wanted);
                    }
                }
            }
        }
        index = index + 1;
    }
    proof {
        assert(targets.values@.take(index as int) =~= targets.values@);
        assert(spans@ =~= curve_spans(targets@));
    }
    spans
}

/// What there is to delete: a selected probe first, then a selected control,
/// then the selected spans of curves. The sides of the domain stay.
pub fn deletion(selected_probe: Option<u64>, selection: &TopologySelection) -> (result: Deletion)
    requires
        selection.wf(),
    ensures
        match (selected_probe, *selection) {
            (Some(probe), _) => result == Deletion::Probe(probe),
            (None, TopologySelection::Handle(TopologyHandle::Control { curve, control })) => result
                == (Deletion::Control { curve, control }),
            (None, TopologySelection::Spans(targets)) => if curve_spans(targets@) == Set::<
                u64,
            >::empty() {
                result is Nothing
            } else {
                result matches Deletion::Spans(spans) && spans.wf() && spans@ == curve_spans(
                    targets@,
                )
            },
            _ => result is Nothing,
        },
{
    if let Some(probe) = selected_probe {
        return Deletion::Probe(probe);
    }
    match selection {
        TopologySelection::Handle(TopologyHandle::Control { curve, control }) => Deletion::Control {
            curve: *curve,
            control: *control,
        },
        TopologySelection::Spans(targets) => {
            let spans: OrderedSet<u64> = spans_among(targets);
            if spans.is_empty() {
                Deletion::Nothing
            } else {
                Deletion::Spans(spans)
            }
        },
        _ => Deletion::Nothing,
    }
}

/// How the deletion of spans goes on.
#[derive(Debug)]
pub enum RemovalStep {
    /// The editor refused it.
    Refused(String),
    /// Several subdomains would merge, and which of them survives is asked
    /// first. Nothing is deleted until then.
    Ask(PendingMerge),
    Remove { survivor: Option<u64> },
}

/// The whole selection is one removal, planned once: which subdomains it merges
/// is a property of all of it together. `choices` are the subdomains that could
/// survive.
pub fn plan_removal(spans: OrderedSet<u64>, choices: Result<Vec<u64>, String>) -> (result:
    RemovalStep)
    ensures
        match choices {
            Err(error) => result == RemovalStep::Refused(error),
            Ok(choices) => if choices@.len() > 1 {
                result == RemovalStep::Ask(
                    PendingMerge { action: MergeAction::Delete(spans), choices },
                )
            } else {
                result == (RemovalStep::Remove {
                    survivor: if choices@.len() == 1 {
                        Some(choices@[0])
                    } else {
                        None
                    },
                })
            },
        },
{
    match choices {
        Err(error) => RemovalStep::Refused(error),
        Ok(choices) => {
            if choices.len() > 1 {
                return RemovalStep::Ask(
                    PendingMerge { action: MergeAction::Delete(spans), choices },
                );
            }
            let survivor: Option<u64> = if choices.len() == 1 {
                Some(choices[0])
            } else {
                None
            };
            RemovalStep::Remove { survivor }
        },
    }
}

/// Two loose ends that became one curve; where both belonged to the same one,
/// it closed.
#[derive(Clone, Copy, Debug, PartialEq, Eq, Structural)]
pub struct JoinRecord {
    pub survivor: u64,
    pub absorbed: u64,
}

/// What a removal did: the curves that went whole, the pieces that are left of
/// the one that was cut, and what became of the rest.
#[derive(Debug)]
pub struct RemovalSummary {
    pub whole_curves: u64,
    pub pieces: u64,
    pub promoted: u64,
    pub joined: Vec<JoinRecord>,
    pub removed_probes: u64,
    pub removed_regions: u64,
}

pub open spec fn closed_joins(joined: Seq<JoinRecord>) -> nat
    decreases joined.len(),
{
    if joined.len() == 0 {
        0
    } else {
        closed_joins(joined.drop_last()) + if joined.last().survivor == joined.last().absorbed {
            1nat
        } else {
            0nat
        }
    }
}

proof fn closed_joins_are_joins(joined: Seq<JoinRecord>)
    ensures
        closed_joins(joined) <= joined.len(),
    decreases joined.len(),
{
    if joined.len() > 0 {
        closed_joins_are_joins(joined.drop_last());
    }
}

fn count_closed(joined: &Vec<JoinRecord>) -> (result: u64)
    ensures
        result == closed_joins(joined@),
        result <= joined@.len(),
{
    let mut closed: u64 = 0;
    let mut index: usize = 0;
    while index < joined.len()
        invariant
            index <= joined@.len(),
            closed == closed_joins(joined@.take(index as int)),
            closed <= index,
        decreases joined@.len() - index,
    {
        assert(joined@.take(index + 1).drop_last() =~= joined@.take(index as int));
        if joined[index].survivor == joined[index].absorbed {
            closed = closed + 1;
        }
        index = index + 1;
    }
    assert(joined@.take(index as int) =~= joined@);
    closed
}

pub open spec fn plural(count: int) -> Seq<char> {
    if count == 1 {
        ""@
    } else {
        "s"@
    }
}

fn plural_text(count: u64) -> (result: &'static str)
    ensures
        result@ == plural(count as int),
{
    if count == 1 {
        ""
    } else {
        "s"
    }
}

pub open spec fn digits(count: int) -> Seq<char> {
    decimal_digits(count as nat)
}

/// The lead of the report: what went, and what is left of it.
pub open spec fn lead_text(curves: int, pieces: int) -> Seq<char> {
    if pieces == 0 {
        if curves <= 1 {
            "Curve deleted"@
        } else {
            digits(curves) + " curves deleted"@
        }
    } else if curves == 0 {
        if pieces == 1 {
            "Deleted spans; the rest is a baffle"@
        } else {
            "Deleted spans; split into "@ + digits(pieces) + " baffles"@
        }
    } else {
        digits(curves) + " curve"@ + plural(curves) + " deleted and one cut, leaving "@ + digits(
            pieces,
        ) + " baffle"@ + plural(pieces)
    }
}

fn lead(curves: u64, pieces: u64) -> (result: String)
    ensures
        result@ == lead_text(curves as int, pieces as int),
{
    if pieces == 0 {
        if curves <= 1 {
            return "Curve deleted".to_owned();
        }
        return joined(decimal(curves).as_str(), " curves deleted");
    }
    if curves == 0 {
        if pieces == 1 {
            return "Deleted spans; the rest is a baffle".to_owned();
        }
        let mut text: String = joined("Deleted spans; split into ", decimal(pieces).as_str());
        text.append(" baffles");
        return text;
    }
    let mut text: String = joined(decimal(curves).as_str(), " curve");
    text.append(plural_text(curves));
    text.append(" deleted and one cut, leaving ");
    text.append(decimal(pieces).as_str());
    text.append(" baffle");
    text.append(plural_text(pieces));
    text
}

/// A part of the report, after a dot, if there is anything to report.
pub open spec fn part(count: int, text: Seq<char>) -> Seq<char> {
    if count > 0 {
        " · "@ + text
    } else {
        Seq::empty()
    }
}

pub open spec fn report_text(summary: RemovalSummary) -> Seq<char> {
    let promoted = summary.promoted as int;
    let closed = closed_joins(summary.joined@) as int;
    let fused = summary.joined@.len() - closed;
    let probes = summary.removed_probes as int;
    let regions = summary.removed_regions as int;
    lead_text(summary.whole_curves as int, summary.pieces as int) + part(
        promoted,
        digits(promoted) + " attached curve"@ + plural(promoted) + " promoted to baffles"@,
    ) + part(
        fused,
        digits(fused) + " pair"@ + plural(fused) + " of loose ends welded into one curve"@,
    ) + part(closed, digits(closed) + " curve"@ + plural(closed) + " closed into a loop"@) + part(
        probes,
        digits(probes) + " probe(s) removed"@,
    ) + part(regions, digits(regions) + " subdomain(s) merged"@)
}

fn add_part(text: &mut String, count: u64, noun: &str, pluralised: bool, rest: &str)
    ensures
        final(text)@ == old(text)@ + part(
            count as int,
            if pluralised {
                digits(count as int) + noun@ + plural(count as int) + rest@
            } else {
                digits(count as int) + noun@ + rest@
            },
        ),
{
    if count == 0 {
        assert(text@ =~= old(text)@ + Seq::<char>::empty());
        return;
    }
    text.append(" · ");
    text.append(decimal(count).as_str());
    text.append(noun);
    if pluralised {
        text.append(plural_text(count));
    }
    text.append(rest);
    proof {
        if pluralised {
            assert(text@ =~= old(text)@ + (" · "@ + (digits(count as int) + noun@ + plural(
                count as int,
            ) + rest@)));
        } else {
            assert(text@ =~= old(text)@ + (" · "@ + (digits(count as int) + noun@ + rest@)));
        }
    }
}

/// Says what a deletion did beyond the selection: a curve promoted to a baffle
/// or a probe dropped is not something to discover later.
pub fn report_removal(summary: &RemovalSummary) -> (result: String)
    ensures
        result@ == report_text(*summary),
{
    let mut text: String = lead(summary.whole_curves, summary.pieces);
    add_part(&mut text, summary.promoted, " attached curve", true, " promoted to baffles");
    let closed: u64 = count_closed(&summary.joined);
    let fused: u64 = summary.joined.len() as u64 - closed;
    add_part(&mut text, fused, " pair", true, " of loose ends welded into one curve");
    add_part(&mut text, closed, " curve", true, " closed into a loop");
    add_part(&mut text, summary.removed_probes, " probe(s)", false, " removed");
    add_part(&mut text, summary.removed_regions, " subdomain(s)", false, " merged");
    proof {
        let probes = summary.removed_probes as int;
        let regions = summary.removed_regions as int;
        reveal_strlit(" probe(s)");
        reveal_strlit(" removed");
        reveal_strlit(" probe(s) removed");
        reveal_strlit(" subdomain(s)");
        reveal_strlit(" merged");
        reveal_strlit(" subdomain(s) merged");
        assert(digits(probes) + " probe(s)"@ + " removed"@ =~= digits(probes)
            + " probe(s) removed"@);
        assert(digits(regions) + " subdomain(s)"@ + " merged"@ =~= digits(regions)
            + " subdomain(s) merged"@);
    }
    text
}

impl Interaction {
    /// Takes the editor's answer to the deletion of a probe. Its window goes
    /// with it.
    pub fn probe_deleted(
        &mut self,
        probe: u64,
        answer: Result<(), String>,
        windows: &mut OrderedSet<u64>,
    )
        requires
            old(windows).wf(),
        ensures
            final(windows).wf(),
            final(windows)@ == if answer is Ok {
                old(windows)@.remove(probe)
            } else {
                old(windows)@
            },
            *final(self) == match answer {
                Ok(_) => Interaction { selected_probe: None, ..*old(self) },
                Err(message) => Interaction { message, ..*old(self) },
            },
    {
        match answer {
            Ok(_) => {
                self.selected_probe = None;
                windows.remove(&probe);
            },
            Err(message) => {
                self.message = message;
            },
        }
    }

    /// Takes the editor's answer to the removal of a control.
    pub fn control_removed(&mut self, answer: Result<(), String>)
        ensures
            *final(self) == match answer {
                Ok(_) => Interaction {
                    selection: TopologySelection::Nothing,
                    sampled_revision: u64::MAX,
                    ..*old(self)
                },
                Err(message) => Interaction { message, ..*old(self) },
            },
    {
        match answer {
            Ok(_) => {
                self.selection = TopologySelection::Nothing;
                self.sampled_revision = u64::MAX;
            },
            Err(message) => {
                self.message = message;
            },
        }
    }

    /// Takes the editor's answer to the removal of spans. Whether the edits of
    /// materials that were open are dropped.
    pub fn spans_removed(&mut self, answer: Result<RemovalSummary, String>) -> (result: bool)
        ensures
            result == (answer is Ok),
            match answer {
                Ok(summary) => {
                    &&& final(self).message@ == report_text(summary)
                    &&& *final(self) == (Interaction {
                        selection: TopologySelection::Nothing,
                        sampled_revision: u64::MAX,
                        message: final(self).message,
                        ..*old(self)
                    })
                },
                Err(message) => *final(self) == (Interaction { message, ..*old(self) }),
            },
    {
        match answer {
            Ok(summary) => {
                self.selection = TopologySelection::Nothing;
                self.sampled_revision = u64::MAX;
                self.message = report_removal(&summary);
                true
            },
            Err(message) => {
                self.message = message;
                false
            },
        }
    }

    /// Takes the editor's answer to a control inserted by a double click.
    pub fn control_inserted(&mut self, curve: u64, answer: Result<usize, String>)
        ensures
            match answer {
                Ok(control) => {
                    &&& final(self).message@ == "Control inserted without changing the curve"@
                    &&& *final(self) == (Interaction {
                        selection: TopologySelection::Handle(
                            TopologyHandle::Control { curve, control },
                        ),
                        sampled_revision: u64::MAX,
                        message: final(self).message,
                        ..*old(self)
                    })
                },
                Err(message) => *final(self) == (Interaction { message, ..*old(self) }),
            },
    {
        match answer {
            Ok(control) => {
                self.selection = TopologySelection::Handle(
                    TopologyHandle::Control { curve, control },
                );
                self.sampled_revision = u64::MAX;
                self.message = "Control inserted without changing the curve".to_owned();
            },
            Err(message) => {
                self.message = message;
            },
        }
    }

    /// Takes the editor's answer to a drawn curve: it is selected. Whether the
    /// drawing is over; a refused one goes on where it was. `selection` are the
    /// spans of the new curve.
    pub fn curve_created(&mut self, answer: Result<Option<TopologySelection>, String>) -> (result:
        bool)
        ensures
            result == (answer is Ok),
            match answer {
                Ok(selection) => {
                    &&& final(self).message@ == "Curve added"@
                    &&& final(self).selection == match selection {
                        Some(selection) => selection,
                        None => old(self).selection,
                    }
                    &&& *final(self) == (Interaction {
                        selection: final(self).selection,
                        sampled_revision: u64::MAX,
                        message: final(self).message,
                        ..*old(self)
                    })
                },
                Err(message) => *final(self) == (Interaction { message, ..*old(self) }),
            },
    {
        match answer {
            Ok(selection) => {
                if let Some(selection) = selection {
                    self.selection = selection;
                }
                self.sampled_revision = u64::MAX;
                self.message = "Curve added".to_owned();
                true
            },
            Err(message) => {
                self.message = message;
                false
            },
        }
    }

    /// Takes the editor's answer to a circle, which ends the drawing either way.
    pub fn circle_created(&mut self, answer: Result<Option<TopologySelection>, String>)
        ensures
            match answer {
                Ok(selection) => {
                    &&& final(self).message@ == "Closed curve added"@
                    &&& final(self).selection == match selection {
                        Some(selection) => selection,
                        None => old(self).selection,
                    }
                },
                Err(message) => final(self).message == message && final(self).selection == old(
                    self,
                ).selection,
            },
            *final(self) == (Interaction {
                selection: final(self).selection,
                message: final(self).message,
                sampled_revision: u64::MAX,
                ..*old(self)
            }),
    {
        self.sampled_revision = u64::MAX;
        match answer {
            Ok(selection) => {
                if let Some(selection) = selection {
                    self.selection = selection;
                }
                self.message = "Closed curve added".to_owned();
            },
            Err(message) => {
                self.message = message;
            },
        }
    }
}

} // verus!
