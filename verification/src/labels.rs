//! What things are called: boundary kinds, material rows, field quantities and
//! the states that the panels name.

use crate::model::{ElectromagneticPolarization, PhysicsModel, ProbeSamplingPreset};
use crate::scalar::Scalar;
use crate::text::joined;
use vstd::prelude::*;

verus! {

/// Which way an adaptation takes the mesh.
#[derive(Clone, Copy, Debug, PartialEq, Eq, Structural)]
pub enum AmrDecision {
    Hold,
    Refine,
    Coarsen,
}

impl AmrDecision {
    pub open spec fn label_text(self) -> Seq<char> {
        match self {
            AmrDecision::Hold => "settled"@,
            AmrDecision::Refine => "refining"@,
            AmrDecision::Coarsen => "coarsening"@,
        }
    }

    pub fn label(self) -> (result: &'static str)
        ensures
            result@ == self.label_text(),
    {
        match self {
            AmrDecision::Hold => "settled",
            AmrDecision::Refine => "refining",
            AmrDecision::Coarsen => "coarsening",
        }
    }
}

/// What a marquee does to the selection it started from.
#[derive(Clone, Copy, Debug, PartialEq, Eq, Structural)]
pub enum MarqueeOperation {
    Replace,
    Add,
    Subtract,
}

impl MarqueeOperation {
    pub open spec fn label_text(self) -> Seq<char> {
        match self {
            MarqueeOperation::Replace => "Replace"@,
            MarqueeOperation::Add => "Add"@,
            MarqueeOperation::Subtract => "Subtract"@,
        }
    }

    pub fn label(self) -> (result: &'static str)
        ensures
            result@ == self.label_text(),
    {
        match self {
            MarqueeOperation::Replace => "Replace",
            MarqueeOperation::Add => "Add",
            MarqueeOperation::Subtract => "Subtract",
        }
    }
}

/// Which spans a marquee takes.
#[derive(Clone, Copy, Debug, PartialEq, Eq, Structural)]
pub enum MarqueeContainment {
    Enclosed,
    Crossing,
}

impl MarqueeContainment {
    pub open spec fn label_text(self) -> Seq<char> {
        match self {
            MarqueeContainment::Enclosed => "Enclosed"@,
            MarqueeContainment::Crossing => "Crossing"@,
        }
    }

    pub fn label(self) -> (result: &'static str)
        ensures
            result@ == self.label_text(),
    {
        match self {
            MarqueeContainment::Enclosed => "Enclosed",
            MarqueeContainment::Crossing => "Crossing",
        }
    }
}

impl MarqueeContainment {
    /// Drawn to the right a marquee encloses, drawn to the left it crosses.
    pub fn from_drag(start_x: Scalar, current_x: Scalar) -> (result: Self)
        ensures
            result == if start_x.le_num(current_x) {
                MarqueeContainment::Enclosed
            } else {
                MarqueeContainment::Crossing
            },
    {
        if start_x.at_most(current_x) {
            MarqueeContainment::Enclosed
        } else {
            MarqueeContainment::Crossing
        }
    }
}

/// The panels of the inspector.
#[derive(Clone, Copy, Debug, PartialEq, Eq, Structural)]
pub enum InspectorPanel {
    Edit,
    View,
    Simulation,
    Materials,
    Probes,
}

impl InspectorPanel {
    pub open spec fn title_text(self) -> Seq<char> {
        match self {
            InspectorPanel::Edit => "Edit"@,
            InspectorPanel::View => "View"@,
            InspectorPanel::Simulation => "Simulation"@,
            InspectorPanel::Materials => "Materials"@,
            InspectorPanel::Probes => "Probes"@,
        }
    }

    pub fn title(self) -> (result: &'static str)
        ensures
            result@ == self.title_text(),
    {
        match self {
            InspectorPanel::Edit => "Edit",
            InspectorPanel::View => "View",
            InspectorPanel::Simulation => "Simulation",
            InspectorPanel::Materials => "Materials",
            InspectorPanel::Probes => "Probes",
        }
    }
}

impl ProbeSamplingPreset {
    pub open spec fn picker_text(self) -> Seq<char> {
        match self {
            ProbeSamplingPreset::Low => "Low · 32 pts / 30 Hz"@,
            ProbeSamplingPreset::Medium => "Medium · 64 pts / 60 Hz"@,
            ProbeSamplingPreset::High => "High · 128 pts / 120 Hz"@,
        }
    }

    pub fn picker_label(self) -> (result: &'static str)
        ensures
            result@ == self.picker_text(),
    {
        match self {
            ProbeSamplingPreset::Low => "Low · 32 pts / 30 Hz",
            ProbeSamplingPreset::Medium => "Medium · 64 pts / 60 Hz",
            ProbeSamplingPreset::High => "High · 128 pts / 120 Hz",
        }
    }
}

pub open spec fn primary_field_label_text(physics: PhysicsModel) -> Seq<char> {
    match physics {
        PhysicsModel::Mechanical => "Displacement u"@,
        PhysicsModel::Electromagnetic { polarization: ElectromagneticPolarization::Tm } => "Electric field E_z"@,
        PhysicsModel::Electromagnetic { polarization: ElectromagneticPolarization::Te } => "Magnetic field H_z"@,
    }
}

pub fn primary_field_label(physics: PhysicsModel) -> (result: &'static str)
    ensures
        result@ == primary_field_label_text(physics),
{
    match physics {
        PhysicsModel::Mechanical => "Displacement u",
        PhysicsModel::Electromagnetic { polarization: ElectromagneticPolarization::Tm } => "Electric field E_z",
        PhysicsModel::Electromagnetic { polarization: ElectromagneticPolarization::Te } => "Magnetic field H_z",
    }
}

pub open spec fn primary_field_rate_label_text(physics: PhysicsModel) -> Seq<char> {
    match physics {
        PhysicsModel::Mechanical => "Velocity ∂u/∂t"@,
        PhysicsModel::Electromagnetic { polarization: ElectromagneticPolarization::Tm } => "Electric-field rate ∂E_z/∂t"@,
        PhysicsModel::Electromagnetic { polarization: ElectromagneticPolarization::Te } => "Magnetic-field rate ∂H_z/∂t"@,
    }
}

pub fn primary_field_rate_label(physics: PhysicsModel) -> (result: &'static str)
    ensures
        result@ == primary_field_rate_label_text(physics),
{
    match physics {
        PhysicsModel::Mechanical => "Velocity ∂u/∂t",
        PhysicsModel::Electromagnetic { polarization: ElectromagneticPolarization::Tm } => "Electric-field rate ∂E_z/∂t",
        PhysicsModel::Electromagnetic { polarization: ElectromagneticPolarization::Te } => "Magnetic-field rate ∂H_z/∂t",
    }
}

pub open spec fn total_energy_label_text(physics: PhysicsModel) -> Seq<char> {
    match physics {
        PhysicsModel::Mechanical => "Mechanical energy"@,
        PhysicsModel::Electromagnetic { .. } => "Electromagnetic energy"@,
    }
}

pub fn total_energy_label(physics: PhysicsModel) -> (result: &'static str)
    ensures
        result@ == total_energy_label_text(physics),
{
    match physics {
        PhysicsModel::Mechanical => "Mechanical energy",
        PhysicsModel::Electromagnetic { .. } => "Electromagnetic energy",
    }
}

pub open spec fn transverse_field_magnitude_label_text(physics: PhysicsModel) -> Seq<char> {
    match physics {
        PhysicsModel::Mechanical => "In-plane magnitude"@,
        PhysicsModel::Electromagnetic { polarization: ElectromagneticPolarization::Tm } => "Magnetic magnitude |H|"@,
        PhysicsModel::Electromagnetic { polarization: ElectromagneticPolarization::Te } => "Electric magnitude |E|"@,
    }
}

pub fn transverse_field_magnitude_label(physics: PhysicsModel) -> (result: &'static str)
    ensures
        result@ == transverse_field_magnitude_label_text(physics),
{
    match physics {
        PhysicsModel::Mechanical => "In-plane magnitude",
        PhysicsModel::Electromagnetic { polarization: ElectromagneticPolarization::Tm } => "Magnetic magnitude |H|",
        PhysicsModel::Electromagnetic { polarization: ElectromagneticPolarization::Te } => "Electric magnitude |E|",
    }
}

pub open spec fn energy_flow_magnitude_label_text(physics: PhysicsModel) -> Seq<char> {
    match physics {
        PhysicsModel::Mechanical => "Energy-flow magnitude |F|"@,
        PhysicsModel::Electromagnetic { .. } => "Poynting magnitude |S|"@,
    }
}

pub fn energy_flow_magnitude_label(physics: PhysicsModel) -> (result: &'static str)
    ensures
        result@ == energy_flow_magnitude_label_text(physics),
{
    match physics {
        PhysicsModel::Mechanical => "Energy-flow magnitude |F|",
        PhysicsModel::Electromagnetic { .. } => "Poynting magnitude |S|",
    }
}

/// The names of the rows of a material.
#[derive(Debug)]
pub struct MaterialEditorLabels {
    pub mass: &'static str,
    pub stiffness: &'static str,
    pub damping: &'static str,
    pub axis_ratio: &'static str,
}

/// The stored rows are generic; the editor names the physical response that is
/// authored.
pub fn material_editor_labels(physics: PhysicsModel) -> (result: MaterialEditorLabels)
    ensures
        match physics {
            PhysicsModel::Mechanical => {
                &&& result.mass@ == "Density ρ₀"@
                &&& result.stiffness@ == "Stiffness k₀"@
                &&& result.damping@ == "Damping σ"@
                &&& result.axis_ratio@ == "Stiffness axis ratio"@
            },
            PhysicsModel::Electromagnetic { .. } => {
                &&& result.mass@ == "Permittivity ε"@
                &&& result.stiffness@ == "Permeability μ"@
                &&& result.damping@ == "Loss rate α"@
                &&& result.axis_ratio@ == "Constitutive axis ratio"@
            },
        },
{
    match physics {
        PhysicsModel::Mechanical => MaterialEditorLabels {
            mass: "Density ρ₀",
            stiffness: "Stiffness k₀",
            damping: "Damping σ",
            axis_ratio: "Stiffness axis ratio",
        },
        PhysicsModel::Electromagnetic { .. } => MaterialEditorLabels {
            mass: "Permittivity ε",
            stiffness: "Permeability μ",
            damping: "Loss rate α",
            axis_ratio: "Constitutive axis ratio",
        },
    }
}

/// The row of a material that a law acts on.
#[derive(Clone, Copy, Debug, PartialEq, Eq, Structural)]
pub enum LawPresetRow {
    Mass,
    Stiffness,
    Both,
}

pub open spec fn law_row_text(physics: PhysicsModel, row: LawPresetRow) -> Seq<char> {
    match physics {
        PhysicsModel::Mechanical => if row is Mass {
            "Density ρ₀"@
        } else {
            "Reciprocal stiffness s₀"@
        },
        PhysicsModel::Electromagnetic { .. } => if row is Mass {
            "Permittivity ε"@
        } else {
            "Permeability μ"@
        },
    }
}

/// What a law on a row multiplies. On the mechanical stiffness row that is the
/// reciprocal of what is stored, and it is named so.
pub fn law_row_label(physics: PhysicsModel, row: LawPresetRow) -> (result: &'static str)
    ensures
        result@ == law_row_text(physics, row),
{
    match (physics, row) {
        (PhysicsModel::Mechanical, LawPresetRow::Mass) => "Density ρ₀",
        (PhysicsModel::Mechanical, _) => "Reciprocal stiffness s₀",
        (PhysicsModel::Electromagnetic { .. }, LawPresetRow::Mass) => "Permittivity ε",
        (PhysicsModel::Electromagnetic { .. }, _) => "Permeability μ",
    }
}

/// A preset as the selector names it: the phenomenon, and the coefficient it
/// acts on when that is one row rather than the pair. `plain` says that it has
/// no variables.
pub fn law_preset_label(name: &str, row: LawPresetRow, plain: bool, physics: PhysicsModel) -> (result:
    String)
    ensures
        result@ == if row is Both {
            if plain {
                name@
            } else {
                name@ + " (both rows)"@
            }
        } else {
            name@ + " — "@ + law_row_text(physics, row)
        },
{
    match row {
        LawPresetRow::Both => if plain {
            name.to_owned()
        } else {
            joined(name, " (both rows)")
        },
        _ => {
            let head: String = joined(name, " — ");
            joined(head.as_str(), law_row_label(physics, row))
        },
    }
}

/// How near a percentage has to be to a preset to be called by its name.
pub const PRESET_TOLERANCE_BITS: u64 = 0x3e112e0be826d695;

pub open spec fn close(gap: Scalar) -> bool {
    gap.lt_num(Scalar { bits: PRESET_TOLERANCE_BITS })
}

/// What to call the accuracy that the adaptation is set to. The arguments are
/// how far the setting is from each preset, in percent. The slider reaches
/// everything between, so most values have no name.
pub fn amr_accuracy_preset_name(coarse: Scalar, medium: Scalar, fine: Scalar) -> (result: &'static str)
    ensures
        result@ == if close(coarse) {
            "Coarse"@
        } else if close(medium) {
            "Medium"@
        } else if close(fine) {
            "Fine"@
        } else {
            "Custom"@
        },
{
    if coarse.less(Scalar { bits: PRESET_TOLERANCE_BITS }) {
        "Coarse"
    } else if medium.less(Scalar { bits: PRESET_TOLERANCE_BITS }) {
        "Medium"
    } else if fine.less(Scalar { bits: PRESET_TOLERANCE_BITS }) {
        "Fine"
    } else {
        "Custom"
    }
}

} // verus!
