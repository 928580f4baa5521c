//! The stored form of the presentation settings, with what older files say in
//! other words.

use crate::model::{AdaptationSettings, MaterialOverlay, PresentationSettings};
use crate::stored::{StoredMaterialOverlay, StoredPresentation};
use crate::value_codec::{
    decode_property, decode_vector_overlay, encode_property, encode_vector_overlay, plain_property,
    plain_vector_overlay, stored_property, stored_vector_overlay,
};
use vstd::prelude::*;

verus! {

pub open spec fn stored_material_overlay(overlay: MaterialOverlay) -> StoredMaterialOverlay {
    match overlay {
        MaterialOverlay::Off => StoredMaterialOverlay::Off,
        MaterialOverlay::Regions => StoredMaterialOverlay::Regions,
        MaterialOverlay::Subdomains => StoredMaterialOverlay::Subdomains,
        MaterialOverlay::AdaptationTarget => StoredMaterialOverlay::AdaptationTarget,
        MaterialOverlay::Property(property) => StoredMaterialOverlay::Property(
            stored_property(property),
        ),
    }
}

/// The overlay that a file asks for. The retired adaptation flag stands for the
/// overlay it became, unless another overlay was the one that was visible.
pub open spec fn plain_material_overlay(
    overlay: StoredMaterialOverlay,
    adaptation_target: bool,
) -> MaterialOverlay {
    match overlay {
        StoredMaterialOverlay::Off => if adaptation_target {
            MaterialOverlay::AdaptationTarget
        } else {
            MaterialOverlay::Off
        },
        StoredMaterialOverlay::Regions => MaterialOverlay::Regions,
        StoredMaterialOverlay::Subdomains => MaterialOverlay::Subdomains,
        StoredMaterialOverlay::AdaptationTarget => MaterialOverlay::AdaptationTarget,
        StoredMaterialOverlay::Property(property) => MaterialOverlay::Property(
            plain_property(property),
        ),
    }
}

pub open spec fn stored_presentation(settings: PresentationSettings) -> StoredPresentation {
    StoredPresentation {
        grid: settings.grid,
        control_polygons: settings.control_polygons,
        handles: settings.handles,
        accepted_reference: settings.accepted_reference,
        boundary_conditions: settings.boundary_conditions,
        mesh: settings.mesh,
        mesh_boundaries: settings.mesh_boundaries,
        adaptation_target: false,
        point_probes: settings.point_probes,
        line_probes: settings.line_probes,
        boundary_probes: settings.boundary_probes,
        area_probes: settings.area_probes,
        far_field_contour: settings.far_field_contour,
        probe_labels: settings.probe_labels,
        field: settings.field,
        simulation_speed: settings.simulation_speed,
        field_gain: settings.field_gain,
        field_auto_exposure: settings.field_auto_exposure,
        vector_overlay: stored_vector_overlay(settings.vector_overlay),
        vector_overlay_smoothed: false,
        vector_overlay_ac_coupled: Some(settings.vector_overlay_ac_coupled),
        vector_overlay_density: settings.vector_overlay_density,
        vector_overlay_gain: settings.vector_overlay_gain,
        material_overlay: stored_material_overlay(settings.material_overlay),
        material_overlay_opacity: settings.material_overlay_opacity,
        material_overlay_auto_range: settings.material_overlay_auto_range,
        material_overlay_logarithmic: settings.material_overlay_logarithmic,
        material_overlay_manual_min: settings.material_overlay_manual_min,
        material_overlay_manual_max: settings.material_overlay_manual_max,
        mesh_edge: settings.mesh_edge,
        adaptation_enabled: settings.adaptation.enabled,
        adaptation_accuracy_percent: settings.adaptation.accuracy_percent,
        adaptation_elements_per_wavelength: settings.adaptation.elements_per_wavelength,
        adaptation_minimum_edge: settings.adaptation.minimum_edge,
        adaptation_maximum_edge: settings.adaptation.maximum_edge,
        grid_scale_filter: settings.grid_scale_filter,
        advanced_materials: settings.advanced_materials,
    }
}

pub open spec fn plain_presentation(stored: StoredPresentation) -> PresentationSettings {
    PresentationSettings {
        grid: stored.grid,
        control_polygons: stored.control_polygons,
        handles: stored.handles,
        accepted_reference: stored.accepted_reference,
        boundary_conditions: stored.boundary_conditions,
        mesh: stored.mesh,
        mesh_boundaries: stored.mesh_boundaries,
        point_probes: stored.point_probes,
        line_probes: stored.line_probes,
        boundary_probes: stored.boundary_probes,
        area_probes: stored.area_probes,
        far_field_contour: stored.far_field_contour,
        probe_labels: stored.probe_labels,
        field: stored.field,
        simulation_speed: stored.simulation_speed,
        field_gain: stored.field_gain,
        field_auto_exposure: stored.field_auto_exposure,
        vector_overlay: plain_vector_overlay(stored.vector_overlay),
        // A file from before the coupling carries the choice in the retired
        // smoothing flag.
        vector_overlay_ac_coupled: match stored.vector_overlay_ac_coupled {
            Some(coupled) => coupled,
            None => stored.vector_overlay_smoothed,
        },
        vector_overlay_density: stored.vector_overlay_density,
        vector_overlay_gain: stored.vector_overlay_gain,
        material_overlay: plain_material_overlay(stored.material_overlay, stored.adaptation_target),
        material_overlay_opacity: stored.material_overlay_opacity,
        material_overlay_auto_range: stored.material_overlay_auto_range,
        material_overlay_logarithmic: stored.material_overlay_logarithmic,
        material_overlay_manual_min: stored.material_overlay_manual_min,
        material_overlay_manual_max: stored.material_overlay_manual_max,
        mesh_edge: stored.mesh_edge,
        adaptation: AdaptationSettings {
            enabled: stored.adaptation_enabled,
            accuracy_percent: stored.adaptation_accuracy_percent,
            elements_per_wavelength: stored.adaptation_elements_per_wavelength,
            minimum_edge: stored.adaptation_minimum_edge,
            maximum_edge: stored.adaptation_maximum_edge,
        },
        grid_scale_filter: stored.grid_scale_filter,
        advanced_materials: stored.advanced_materials,
    }
}

fn encode_material_overlay(overlay: MaterialOverlay) -> (result: StoredMaterialOverlay)
    ensures
        result == stored_material_overlay(overlay),
{
    match overlay {
        MaterialOverlay::Off => StoredMaterialOverlay::Off,
        MaterialOverlay::Regions => StoredMaterialOverlay::Regions,
        MaterialOverlay::Subdomains => StoredMaterialOverlay::Subdomains,
        MaterialOverlay::AdaptationTarget => StoredMaterialOverlay::AdaptationTarget,
        MaterialOverlay::Property(property) => StoredMaterialOverlay::Property(
            encode_property(property),
        ),
    }
}

fn decode_material_overlay(overlay: StoredMaterialOverlay, adaptation_target: bool) -> (result:
    MaterialOverlay)
    ensures
        result == plain_material_overlay(overlay, adaptation_target),
{
    match overlay {
        StoredMaterialOverlay::Off => if adaptation_target {
            MaterialOverlay::AdaptationTarget
        } else {
            MaterialOverlay::Off
        },
        StoredMaterialOverlay::Regions => MaterialOverlay::Regions,
        StoredMaterialOverlay::Subdomains => MaterialOverlay::Subdomains,
        StoredMaterialOverlay::AdaptationTarget => MaterialOverlay::AdaptationTarget,
        StoredMaterialOverlay::Property(property) => MaterialOverlay::Property(
            decode_property(property),
        ),
    }
}

pub fn encode_presentation(settings: PresentationSettings) -> (result: StoredPresentation)
    ensures
        result == stored_presentation(settings),
{
    StoredPresentation {
        grid: settings.grid,
        control_polygons: settings.control_polygons,
        handles: settings.handles,
        accepted_reference: settings.accepted_reference,
        boundary_conditions: settings.boundary_conditions,
        mesh: settings.mesh,
        mesh_boundaries: settings.mesh_boundaries,
        adaptation_target: false,
        point_probes: settings.point_probes,
        line_probes: settings.line_probes,
        boundary_probes: settings.boundary_probes,
        area_probes: settings.area_probes,
        far_field_contour: settings.far_field_contour,
        probe_labels: settings.probe_labels,
        field: settings.field,
        simulation_speed: settings.simulation_speed,
        field_gain: settings.field_gain,
        field_auto_exposure: settings.field_auto_exposure,
        vector_overlay: encode_vector_overlay(settings.vector_overlay),
        vector_overlay_smoothed: false,
        vector_overlay_ac_coupled: Some(settings.vector_overlay_ac_coupled),
        vector_overlay_density: settings.vector_overlay_density,
        vector_overlay_gain: settings.vector_overlay_gain,
        material_overlay: encode_material_overlay(settings.material_overlay),
        material_overlay_opacity: settings.material_overlay_opacity,
        material_overlay_auto_range: settings.material_overlay_auto_range,
        material_overlay_logarithmic: settings.material_overlay_logarithmic,
        material_overlay_manual_min: settings.material_overlay_manual_min,
        material_overlay_manual_max: settings.material_overlay_manual_max,
        mesh_edge: settings.mesh_edge,
        adaptation_enabled: settings.adaptation.enabled,
        adaptation_accuracy_percent: settings.adaptation.accuracy_percent,
        adaptation_elements_per_wavelength: settings.adaptation.elements_per_wavelength,
        adaptation_minimum_edge: settings.adaptation.minimum_edge,
        adaptation_maximum_edge: settings.adaptation.maximum_edge,
        grid_scale_filter: settings.grid_scale_filter,
        advanced_materials: settings.advanced_materials,
    }
}

/// The settings of a file, before they are held against what is allowed.
pub fn presentation_of(stored: StoredPresentation) -> (result: PresentationSettings)
    ensures
        result == plain_presentation(stored),
{
    PresentationSettings {
        grid: stored.grid,
        control_polygons: stored.control_polygons,
        handles: stored.handles,
        accepted_reference: stored.accepted_reference,
        boundary_conditions: stored.boundary_conditions,
        mesh: stored.mesh,
        mesh_boundaries: stored.mesh_boundaries,
        point_probes: stored.point_probes,
        line_probes: stored.line_probes,
        boundary_probes: stored.boundary_probes,
        area_probes: stored.area_probes,
        far_field_contour: stored.far_field_contour,
        probe_labels: stored.probe_labels,
        field: stored.field,
        simulation_speed: stored.simulation_speed,
        field_gain: stored.field_gain,
        field_auto_exposure: stored.field_auto_exposure,
        vector_overlay: decode_vector_overlay(stored.vector_overlay),
        vector_overlay_ac_coupled: match stored.vector_overlay_ac_coupled {
            Some(coupled) => coupled,
            None => stored.vector_overlay_smoothed,
        },
        vector_overlay_density: stored.vector_overlay_density,
        vector_overlay_gain: stored.vector_overlay_gain,
        material_overlay: decode_material_overlay(
            stored.material_overlay,
            stored.adaptation_target,
        ),
        material_overlay_opacity: stored.material_overlay_opacity,
        material_overlay_auto_range: stored.material_overlay_auto_range,
        material_overlay_logarithmic: stored.material_overlay_logarithmic,
        material_overlay_manual_min: stored.material_overlay_manual_min,
        material_overlay_manual_max: stored.material_overlay_manual_max,
        mesh_edge: stored.mesh_edge,
        adaptation: AdaptationSettings {
            enabled: stored.adaptation_enabled,
            accuracy_percent: stored.adaptation_accuracy_percent,
            elements_per_wavelength: stored.adaptation_elements_per_wavelength,
            minimum_edge: stored.adaptation_minimum_edge,
            maximum_edge: stored.adaptation_maximum_edge,
        },
        grid_scale_filter: stored.grid_scale_filter,
        advanced_materials: stored.advanced_materials,
    }
}

/// Reads the settings of a file. `valid` says whether the settings are within
/// the allowed ranges.
pub fn decode_presentation(stored: StoredPresentation, valid: bool) -> (result: Result<
    PresentationSettings,
    String,
>)
    ensures
        result is Ok <==> valid,
        result matches Ok(settings) ==> settings == plain_presentation(stored),
        result matches Err(issue) ==> issue@ == "Scene contains invalid presentation settings"@,
{
    let settings: PresentationSettings = presentation_of(stored);
    if valid {
        Ok(settings)
    } else {
        Err("Scene contains invalid presentation settings".to_owned())
    }
}

/// The presentation settings come back from the file as they were.
pub proof fn presentation_survives_the_file(settings: PresentationSettings)
    ensures
        plain_presentation(stored_presentation(settings)) == settings,
{
    crate::value_codec::plain_values_survive_the_file();
}

/// The retired adaptation flag turns into the overlay it became where no other
/// overlay is stored, and is without effect otherwise.
pub proof fn the_retired_target_flag_migrates(stored: StoredPresentation)
    ensures
        stored.adaptation_target && stored.material_overlay is Off ==> plain_presentation(
            stored,
        ).material_overlay == MaterialOverlay::AdaptationTarget,
        !(stored.material_overlay is Off) ==> plain_presentation(stored) == plain_presentation(
            StoredPresentation { adaptation_target: false, ..stored },
        ),
{
}

/// Without an explicit coupling the retired smoothing flag decides it, and with
/// one the flag is without effect.
pub proof fn the_retired_smoothing_flag_migrates(stored: StoredPresentation)
    ensures
        plain_presentation(stored).vector_overlay_ac_coupled == (
        match stored.vector_overlay_ac_coupled {
            Some(coupled) => coupled,
            None => stored.vector_overlay_smoothed,
        }),
{
}

} // verus!
