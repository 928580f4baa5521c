//! The chrome around the viewport: which panel is open, how it is docked, and
//! the editor of one coefficient of a material.

use crate::collect::{find, first_value};
use crate::labels::InspectorPanel;
use crate::model::{OuterSide, ScalarField, TopologyCurve};
use crate::ordered_set::OrderedSet;
use crate::scalar::Scalar;
use crate::selection::{all_sides, SpanSet, TopologySelection, TopologySpanTarget};
use crate::text::joined;
use vstd::prelude::*;

verus! {

/// One thousand and eighty: the width under which the panels fold into a menu.
pub const FOLD_WIDTH_BITS: u64 = 0x4090e00000000000;

/// Seven hundred: the width under which the inspector floats over the viewport.
pub const FLOAT_WIDTH_BITS: u64 = 0x4085e00000000000;

/// Whether the buttons of the panels fold into a menu.
pub fn folds_panels(width: Scalar) -> (result: bool)
    ensures
        result == width.lt_num(Scalar { bits: FOLD_WIDTH_BITS }),
{
    width.less(Scalar { bits: FOLD_WIDTH_BITS })
}

/// The panel that is open after the button of one was pressed: a second press
/// closes it.
pub fn toggle_panel(open: Option<InspectorPanel>, pressed: InspectorPanel) -> (result: Option<
    InspectorPanel,
>)
    ensures
        result == if open == Some(pressed) {
            None
        } else {
            Some(pressed)
        },
{
    match open {
        Some(panel) => if panel == pressed {
            None
        } else {
            Some(pressed)
        },
        None => Some(pressed),
    }
}

/// How the inspector is shown.
#[derive(Clone, Copy, Debug, PartialEq, Eq, Structural)]
pub enum SidePanel {
    Hidden,
    Floating(InspectorPanel),
    Docked(InspectorPanel),
}

/// On a narrow layout the inspector floats over the viewport, where it would be
/// in the picture while one is captured.
pub fn side_panel(open: Option<InspectorPanel>, width: Scalar, capturing: bool) -> (result: SidePanel)
    ensures
        result == match open {
            None => SidePanel::Hidden,
            Some(panel) => if !width.lt_num(Scalar { bits: FLOAT_WIDTH_BITS }) {
                SidePanel::Docked(panel)
            } else if capturing {
                SidePanel::Hidden
            } else {
                SidePanel::Floating(panel)
            },
        },
{
    match open {
        None => SidePanel::Hidden,
        Some(panel) => if !width.less(Scalar { bits: FLOAT_WIDTH_BITS }) {
            SidePanel::Docked(panel)
        } else if capturing {
            SidePanel::Hidden
        } else {
            SidePanel::Floating(panel)
        },
    }
}

/// Whether the draw palette is shown. It stays up across draws and closes only
/// from its own button or the toolbar.
pub fn palette_shown(draw_open: bool, capturing: bool) -> (result: bool)
    ensures
        result == (draw_open && !capturing),
{
    draw_open && !capturing
}

/// What the run button says.
pub fn run_label(running: bool) -> (result: &'static str)
    ensures
        result@ == if running {
            "Pause"@
        } else {
            "Run"@
        },
{
    if running {
        "Pause"
    } else {
        "Run"
    }
}

/// A material by its id and name.
#[derive(Debug)]
pub struct NamedMaterial {
    pub id: u64,
    pub name: String,
}

/// The name of the selected material in a picker.
pub fn selected_material_name(materials: &Vec<NamedMaterial>, selected: u64) -> (result: String)
    ensures
        result@ == match first_value(
            materials@,
            |material: NamedMaterial| material.id == selected,
        ) {
            Some(material) => material.name@,
            None => "Missing"@,
        },
{
    let named = |material: &NamedMaterial| -> (passes: bool)
        ensures
            passes == (material.id == selected),
        { material.id == selected };
    match find(
        materials,
        named,
        Ghost(|material: NamedMaterial| material.id == selected),
    ) {
        Some(place) => materials[place].name.clone(),
        None => "Missing".to_owned(),
    }
}

/// The outer boundary as a selection.
pub fn select_outer_boundary() -> (result: TopologySelection)
    ensures
        result matches TopologySelection::Spans(spans) && spans.wf() && spans@
            == all_sides().to_set(),
{
    let mut spans: SpanSet = OrderedSet::new();
    spans.insert(TopologySpanTarget::Outer(OuterSide::Bottom));
    spans.insert(TopologySpanTarget::Outer(OuterSide::Right));
    spans.insert(TopologySpanTarget::Outer(OuterSide::Top));
    spans.insert(TopologySpanTarget::Outer(OuterSide::Left));
    proof {
        assert forall|target: TopologySpanTarget| spans@.contains(target)
            == all_sides().to_set().contains(target) by {
            let sides = all_sides();
            assert(sides[0] == TopologySpanTarget::Outer(OuterSide::Bottom));
            assert(sides[1] == TopologySpanTarget::Outer(OuterSide::Right));
            assert(sides[2] == TopologySpanTarget::Outer(OuterSide::Top));
            assert(sides[3] == TopologySpanTarget::Outer(OuterSide::Left));
            if sides.contains(target) {
                let i = sides.index_of(target);
                assert(i == 0 || i == 1 || i == 2 || i == 3);
            }
        }
        assert(spans@ =~= all_sides().to_set());
    }
    TopologySelection::Spans(spans)
}

/// Whether a selection is of sides of the domain alone.
pub open spec fn of_sides(selection: TopologySelection) -> bool {
    selection is Spans && forall|target: TopologySpanTarget| #[trigger]
        selection.span_set().contains(target) ==> target is Outer
}

pub fn outer_boundary_selected(selection: &TopologySelection) -> (result: bool)
    ensures
        result == of_sides(*selection),
{
    match selection {
        TopologySelection::Spans(spans) => {
            let mut index: usize = 0;
            while index < spans.values.len()
                invariant
                    index <= spans.values@.len(),
                    *selection == TopologySelection::Spans(*spans),
                    forall|i: int| 0 <= i < index ==> (#[trigger] spans.values@[i]) is Outer,
                decreases spans.values@.len() - index,
            {
                if let TopologySpanTarget::Curve(_) = spans.values[index] {
                    assert(selection.span_set().contains(spans.values@[index as int]));
                    return false;
                }
                index = index + 1;
            }
            proof {
                assert forall|target: TopologySpanTarget| #[trigger]
                    selection.span_set().contains(target) implies target is Outer by {
                    let i = spans.values@.index_of(target);
                    assert(spans.values@[i] is Outer);
                }
            }
            true
        },
        _ => false,
    }
}

/// Whether every span of a curve is selected.
pub open spec fn covers_curve(selection: TopologySelection, curve: TopologyCurve) -> bool {
    selection is Spans && forall|i: int|
        0 <= i < curve.spans@.len() ==> selection.span_set().contains(
            TopologySpanTarget::Curve((#[trigger] curve.spans@[i]).id),
        )
}

pub fn curve_selected(selection: &TopologySelection, curve: &TopologyCurve) -> (result: bool)
    requires
        selection.wf(),
    ensures
        result == covers_curve(*selection, *curve),
{
    match selection {
        TopologySelection::Spans(spans) => {
            let mut index: usize = 0;
            while index < curve.spans.len()
                invariant
                    index <= curve.spans@.len(),
                    spans.wf(),
                    *selection == TopologySelection::Spans(*spans),
                    forall|i: int|
                        0 <= i < index ==> spans@.contains(
                            TopologySpanTarget::Curve((#[trigger] curve.spans@[i]).id),
                        ),
                decreases curve.spans@.len() - index,
            {
                if !spans.contains(&TopologySpanTarget::Curve(curve.spans[index].id)) {
                    assert(!selection.span_set().contains(
                        TopologySpanTarget::Curve(curve.spans@[index as int].id),
                    ));
                    return false;
                }
                index = index + 1;
            }
            true
        },
        _ => false,
    }
}

/// The editor of one coefficient: the value, the text being typed and what is
/// wrong with it.
#[derive(Debug)]
pub struct FieldEditor {
    pub field: ScalarField,
    pub edit: Option<String>,
    pub error: Option<String>,
}

impl FieldEditor {
    /// Turns a constant into the formula that says the same; `source` is that
    /// formula.
    pub fn switch_to_formula(&mut self, source: String)
        ensures
            final(self).field == ScalarField::Formula(source),
            final(self).edit == Some(source),
            final(self).error is None,
    {
        let text: String = source.clone();
        self.field = ScalarField::Formula(source);
        self.edit = Some(text);
        self.error = None;
    }

    /// Turns a formula into a constant: its value at the origin, where that is
    /// allowed. `least_text` is the least allowed value in words.
    pub fn switch_to_constant(
        &mut self,
        value: Result<Scalar, String>,
        minimum: Scalar,
        least_text: &str,
    )
        ensures
            match value {
                Ok(value) => if minimum.le_num(value) {
                    &&& final(self).field == ScalarField::Constant(value)
                    &&& final(self).edit is None
                    &&& final(self).error is None
                } else {
                    &&& final(self).field == old(self).field
                    &&& final(self).edit == old(self).edit
                    &&& final(self).error matches Some(error) && error@
                        == "Value must be at least "@ + least_text@
                },
                Err(error) => *final(self) == (FieldEditor { error: Some(error), ..*old(self) }),
            },
    {
        match value {
            Ok(value) => {
                if minimum.at_most(value) {
                    self.field = ScalarField::Constant(value);
                    self.edit = None;
                    self.error = None;
                } else {
                    self.error = Some(joined("Value must be at least ", least_text));
                }
            },
            Err(error) => {
                self.error = Some(error);
            },
        }
    }

    /// Takes the typed formula when the field is left: `value` is what it comes
    /// to at the origin, or why it cannot be read. A value that is too small is
    /// refused with the words of `invalid`.
    pub fn commit_formula(
        &mut self,
        source: String,
        value: Result<Scalar, String>,
        minimum: Scalar,
        invalid: String,
    )
        ensures
            *final(self) == match value {
                Ok(value) => if value.lt_num(minimum) {
                    FieldEditor { error: Some(invalid), ..*old(self) }
                } else {
                    FieldEditor {
                        field: ScalarField::Formula(source),
                        error: None,
                        ..*old(self)
                    }
                },
                Err(error) => FieldEditor { error: Some(error), ..*old(self) },
            },
    {
        match value {
            Ok(value) => {
                if value.less(minimum) {
                    self.error = Some(invalid);
                } else {
                    self.field = ScalarField::Formula(source);
                    self.error = None;
                }
            },
            Err(error) => {
                self.error = Some(error);
            },
        }
    }
}

} // verus!
