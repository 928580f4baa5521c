//! What a candidate may take over from the active topology, and what it must be
//! made of anew.

use crate::alike::Alike;
use crate::model::{PointSource, TopologyScene};
use crate::preparation::{
    AcceptedTopology, Artifact, CompiledTopologyScene, MeshingOptions, PreparationIntent,
    PreparedTopology, TopologyFullRebuildReason, TopologyMeshUpdateAction,
};
use crate::preparation_job::{
    source_refusal, DocumentFacts, ForcingChange, PreviousComparison, SourcePlacement,
    TopologyPreparationJob, WorkOutcome,
};
use crate::preparation_start::{new_bundle, remapped, retraced_vertices, AdaptedMesh, Trace};
use vstd::prelude::*;

verus! {

/// A candidate runs on the active operators only if its scene is the active one
/// in every part that they are assembled from. Where the geometry, the physics,
/// the materials, the regions, the faces or one of the outer walls differs, it
/// starts with no operator of its own or of another; where all of them agree and
/// the mesh is kept, it takes all of the active ones over.
pub proof fn an_operator_is_kept_only_for_the_scene_it_was_assembled_from(
    active: TopologyScene,
    edited: TopologyScene,
    document: DocumentFacts,
    bundle: AcceptedTopology,
    previous: PreparedTopology,
    comparison: PreviousComparison,
    mesh_revision: u64,
    options: MeshingOptions,
    intent: PreparationIntent,
)
    requires
        comparison.scene.compares(active, edited),
    ensures
        ({
            let job = TopologyPreparationJob::started(
                document,
                bundle,
                Some(previous),
                comparison,
                mesh_revision,
                options,
                intent,
            );
            let agrees = active.geometry.alike(edited.geometry) && active.physics == edited.physics
                && active.materials.alike(edited.materials) && active.regions.alike(edited.regions)
                && active.face_assignments.alike(edited.face_assignments)
                && active.outer_boundaries.alike(edited.outer_boundaries);
            &&& !agrees ==> {
                &&& !job.request.operator_reused
                &&& job.assembly.operator is None
                &&& job.assembly.canonical_operator is None
                &&& job.assembly.temporal_operator is None
                &&& job.solver_update() is FullHandoff
            }
            &&& job.request.operator_reused <==> agrees && job.mesh.action is Reuse
            &&& job.request.operator_reused ==> {
                &&& job.assembly.operator == Some(previous.operator)
                &&& job.assembly.canonical_operator == Some(previous.canonical_operator)
                &&& job.assembly.temporal_operator == previous.canonical_temporal_operator
                &&& job.mesh.mesh == Some(previous.mesh)
            }
            &&& !job.request.operator_reused ==> job.assembly.operator is None
                && job.assembly.canonical_operator is None && job.sources.forcing is None
                && job.sources.volume_sources is None
        }),
{
    if comparison.scene.regions {
        assert forall|i: int| 0 <= i < active.regions@.len() implies (
        #[trigger] active.regions@[i]).id == edited.regions@[i].id by {
            assert(active.regions@[i].alike(edited.regions@[i]));
        }
    }
}

/// Walls are compared side by side: outer boundaries that agree have on each
/// side a condition of the same kind, and driven walls the same drive.
pub proof fn walls_agree_side_by_side(active: TopologyScene, edited: TopologyScene)
    requires
        active.outer_boundaries.alike(edited.outer_boundaries),
    ensures
        active.outer_boundaries.bottom.alike(edited.outer_boundaries.bottom),
        active.outer_boundaries.right.alike(edited.outer_boundaries.right),
        active.outer_boundaries.top.alike(edited.outer_boundaries.top),
        active.outer_boundaries.left.alike(edited.outer_boundaries.left),
        active.outer_boundaries.bottom is Reflecting <==> edited.outer_boundaries.bottom
            is Reflecting,
        active.outer_boundaries.right is Reflecting <==> edited.outer_boundaries.right
            is Reflecting,
        active.outer_boundaries.top is Reflecting <==> edited.outer_boundaries.top is Reflecting,
        active.outer_boundaries.left is Reflecting <==> edited.outer_boundaries.left is Reflecting,
{
}

/// The scene that a candidate is made for is the edited one: the active one
/// stands for it only where the two agree in every part, the volume sources
/// among them. The request's own revision goes with it.
pub proof fn a_candidate_is_made_for_the_edited_scene(
    active: TopologyScene,
    edited: TopologyScene,
    document_revision: u64,
    document: DocumentFacts,
    compiled: CompiledTopologyScene,
    previous: Option<PreparedTopology>,
    comparison: PreviousComparison,
    mesh_revision: u64,
    options: MeshingOptions,
    intent: PreparationIntent,
)
    requires
        comparison.scene.compares(active, edited),
    ensures
        new_bundle(
            document_revision,
            document,
            compiled,
            previous,
            comparison,
            mesh_revision,
            options,
            intent,
        ) matches Ok(bundle) ==> {
            let agrees = active.geometry.alike(edited.geometry) && active.physics == edited.physics
                && active.materials.alike(edited.materials) && active.regions.alike(edited.regions)
                && active.face_assignments.alike(edited.face_assignments)
                && active.volume_sources.alike(edited.volume_sources)
                && active.outer_boundaries.alike(edited.outer_boundaries);
            &&& bundle.token.document_revision == document_revision
            &&& bundle.authored == if previous is Some && agrees {
                previous->0.bundle.authored
            } else {
                document.authored
            }
        },
{
    if comparison.scene.regions {
        assert forall|i: int| 0 <= i < active.regions@.len() implies (
        #[trigger] active.regions@[i]).id == edited.regions@[i].id by {
            assert(active.regions@[i].alike(edited.regions@[i]));
        }
    }
}

/// The snapshot and the plan of the active topology are kept only where its
/// geometry, its faces and the order of its regions are; everything else is
/// compiled anew. A plan outlives only the meshing options it was made for, and a
/// mesh keeps its generation only where nothing calls for another one.
pub proof fn a_plan_is_kept_only_for_the_geometry_it_was_made_for(
    active: TopologyScene,
    edited: TopologyScene,
    document_revision: u64,
    document: DocumentFacts,
    compiled: CompiledTopologyScene,
    previous: Option<PreparedTopology>,
    comparison: PreviousComparison,
    mesh_revision: u64,
    options: MeshingOptions,
    intent: PreparationIntent,
)
    requires
        comparison.scene.compares(active, edited),
    ensures
        ({
            let kept = previous is Some && active.geometry.alike(edited.geometry)
                && active.face_assignments.alike(edited.face_assignments)
                && active.regions@.len() == edited.regions@.len() && forall|i: int|
                0 <= i < active.regions@.len() ==> (#[trigger] active.regions@[i]).id
                    == edited.regions@[i].id;
            new_bundle(
                document_revision,
                document,
                compiled,
                previous,
                comparison,
                mesh_revision,
                options,
                intent,
            ) matches Ok(bundle) ==> if kept {
                let old = previous->0;
                let same = old.meshing.eq_options(options);
                &&& bundle.snapshot == old.bundle.snapshot
                &&& bundle.token.topology_revision == old.bundle.token.topology_revision
                &&& same ==> bundle.plan == old.bundle.plan
                &&& !same ==> compiled.coarsened == Ok::<Artifact, String>(bundle.plan)
                &&& bundle.token.mesh_generation == if same && !intent.force_rebuild {
                    old.bundle.token.mesh_generation
                } else {
                    mesh_revision
                }
            } else {
                &&& bundle.snapshot == compiled.snapshot
                &&& bundle.token.topology_revision == compiled.revision
                &&& bundle.token.mesh_generation == mesh_revision
                &&& compiled.coarsened == Ok::<Artifact, String>(bundle.plan)
                &&& compiled.plan_geometry_revision == compiled.revision
                &&& compiled.geometry_matches && compiled.domain_matches && compiled.model_valid
                &&& compiled.assignments == Ok::<bool, String>(true)
                &&& compiled.expected_plan == Ok::<bool, String>(true)
            }
        }),
{
}

/// A mesh is taken over as it is only where the plans call for no other, no
/// rebuild was asked for and the meshing options are the ones it was made with.
pub proof fn a_mesh_is_kept_only_where_nothing_asks_for_another(
    document: DocumentFacts,
    bundle: AcceptedTopology,
    previous: PreparedTopology,
    comparison: PreviousComparison,
    mesh_revision: u64,
    options: MeshingOptions,
    intent: PreparationIntent,
)
    ensures
        ({
            let job = TopologyPreparationJob::started(
                document,
                bundle,
                Some(previous),
                comparison,
                mesh_revision,
                options,
                intent,
            );
            let same_plan = comparison.scene.geometry && comparison.scene.face_assignments
                && comparison.scene.region_ids;
            let same_options = previous.meshing.curve_tolerance.eq_num(options.curve_tolerance)
                && previous.meshing.target_edge_length.eq_num(options.target_edge_length)
                && previous.meshing.minimum_angle_degrees.eq_num(options.minimum_angle_degrees)
                && previous.meshing.max_vertices == options.max_vertices
                && previous.meshing.max_triangles == options.max_triangles
                && previous.meshing.max_refinement_steps == options.max_refinement_steps;
            &&& job.mesh.action is Reuse <==> same_options && !intent.force_rebuild
                && comparison.plan_change is Reuse && (same_plan || comparison.retraced is Some)
            &&& job.mesh.action is Reuse ==> job.mesh.mesh == if same_plan {
                Some(previous.mesh)
            } else {
                comparison.retraced
            }
            &&& !(job.mesh.action is Reuse) ==> job.mesh.mesh is None
            &&& job.mesh.building <==> job.mesh.action is FullRebuild
            &&& job.mesh.carving <==> job.mesh.action is Repair
            &&& !same_options ==> job.mesh.action == TopologyMeshUpdateAction::FullRebuild(
                TopologyFullRebuildReason::MeshingOptionsChanged,
            )
            &&& same_options && comparison.plan_change is Repair ==> job.mesh.action
                == comparison.plan_change
        }),
{
}

/// A job prepares what the document says: its probes, its source and its far
/// field, with the options and under the revision of the request.
pub proof fn a_job_prepares_what_the_document_says(
    document: DocumentFacts,
    bundle: AcceptedTopology,
    previous: Option<PreparedTopology>,
    comparison: PreviousComparison,
    mesh_revision: u64,
    options: MeshingOptions,
    intent: PreparationIntent,
)
    ensures
        ({
            let job = TopologyPreparationJob::started(
                document,
                bundle,
                previous,
                comparison,
                mesh_revision,
                options,
                intent,
            );
            &&& job.request.bundle == bundle
            &&& job.request.probes == document.probes
            &&& job.request.point_source == document.source
            &&& job.request.source_valid == document.source_valid
            &&& job.request.far_field == document.far_field
            &&& job.request.driven == document.driven
            &&& job.request.previous == previous
            &&& job.request.fresh == intent.fresh
            &&& job.request.require_solver_handoff == intent.require_solver_handoff
            &&& job.request.preserve_adaptation == intent.preserve_adaptation
            &&& job.request.meshing == options
            &&& job.request.mesh_revision == mesh_revision
            &&& !job.request.adapted && !job.done
        }),
{
}

/// The compiled sources are taken over only with the operator they were compiled
/// for: the forcing where neither the point source nor a volume source changed,
/// the volume sources where they act where they did, and with their new signals
/// where those changed. A point source is placed again unless it stayed put.
pub proof fn sources_are_kept_only_where_they_act_as_before(
    document: DocumentFacts,
    bundle: AcceptedTopology,
    previous: PreparedTopology,
    comparison: PreviousComparison,
    mesh_revision: u64,
    options: MeshingOptions,
    intent: PreparationIntent,
)
    ensures
        ({
            let job = TopologyPreparationJob::started(
                document,
                bundle,
                Some(previous),
                comparison,
                mesh_revision,
                options,
                intent,
            );
            let reused = job.request.operator_reused;
            &&& job.sources.forcing is Some <==> reused && comparison.source
                && comparison.scene.volume_sources
            &&& job.sources.forcing is Some ==> job.sources.forcing == Some(
                previous.canonical_forcing,
            ) && job.sources.forcing_change is Unchanged
            &&& job.sources.volume_sources is Some <==> reused && comparison.scene.volume_layout
            &&& job.sources.volume_sources is Some ==> job.sources.volume_sources == Some(
                if comparison.scene.volume_sources {
                    previous.volume_sources
                } else {
                    comparison.resignalled
                },
            )
            &&& job.assembly.source_validated <==> reused && comparison.source_place
                && previous.point_source.enabled == document.source.enabled
            &&& job.sources.transfer is None && job.canonical.joined is None
        }),
{
}

/// An adapted mesh continues the active topology only where the document still
/// says the same scene, the mesh was made for its geometry and is another one.
/// It is then the mesh of the candidate, under its own revision, with new
/// operators and the running field handed over.
pub proof fn an_adapted_mesh_goes_on_from_the_active_topology(
    active: TopologyScene,
    edited: TopologyScene,
    document_revision: u64,
    document: DocumentFacts,
    previous: PreparedTopology,
    comparison: PreviousComparison,
    plan_geometry_revision: u64,
    active_mesh_revision: u64,
    mesh: AdaptedMesh,
)
    requires
        comparison.scene.compares(active, edited),
    ensures
        TopologyPreparationJob::continues(
            previous,
            comparison,
            plan_geometry_revision,
            active_mesh_revision,
            mesh,
        ) <==> {
            &&& active.geometry.alike(edited.geometry)
            &&& active.physics == edited.physics
            &&& active.materials.alike(edited.materials)
            &&& active.regions.alike(edited.regions)
            &&& active.face_assignments.alike(edited.face_assignments)
            &&& active.volume_sources.alike(edited.volume_sources)
            &&& active.outer_boundaries.alike(edited.outer_boundaries)
            &&& mesh.geometry_revision == plan_geometry_revision
            &&& mesh.mesh_revision != active_mesh_revision
        },
        ({
            let job = TopologyPreparationJob::started_adapted(
                document_revision,
                document,
                previous,
                comparison,
                mesh,
            );
            &&& job.mesh.mesh == Some(mesh.mesh)
            &&& job.request.bundle.token.document_revision == document_revision
            &&& job.request.bundle.token.mesh_generation == mesh.mesh_revision
            &&& job.request.bundle.token.topology_revision
                == previous.bundle.token.topology_revision
            &&& job.request.bundle.authored == previous.bundle.authored
            &&& job.request.bundle.snapshot == previous.bundle.snapshot
            &&& job.request.bundle.plan == previous.bundle.plan
            &&& job.request.adapted && !job.request.fresh && !job.request.operator_reused
            &&& job.request.previous == Some(previous)
            &&& job.request.probes == document.probes
            &&& job.request.point_source == document.source
            &&& job.request.far_field == document.far_field
            &&& job.request.driven == document.driven
            &&& job.request.meshing == previous.meshing
            &&& job.assembly.operator is None && job.assembly.canonical_operator is None
            &&& job.solver_update() is FullHandoff
        }),
{
}

/// The solver is told of no more than what changed, and of all of it: less than a
/// full handover only for a running field on the active operator, and then by
/// what the forcing changed in.
pub proof fn the_solver_is_told_of_everything_that_changed(job: TopologyPreparationJob)
    requires
        job.wf(),
    ensures
        job.solver_update() is FullHandoff <==> job.request.fresh || !job.request.operator_reused
            || job.request.require_solver_handoff || job.sources.forcing is None
            || job.sources.forcing_change is Layout,
        job.solver_update() is MeasurementsOnly ==> job.sources.forcing_change is Unchanged,
        job.solver_update() is SourceDrivesOnly ==> job.sources.forcing_change is Drives,
        job.solver_update() is SourceWeightsOnly ==> job.sources.forcing_change is Weights,
{
}

/// The active far field serves a candidate only while nothing that it depends on
/// changed: the operator, its own settings, whether and where the point source
/// acts, and where the volume sources do. Otherwise it is made anew, if it is
/// wanted at all.
pub proof fn a_far_field_is_kept_only_where_it_would_come_out_the_same(
    job: TopologyPreparationJob,
    probes: Artifact,
    far_field: Option<Result<Artifact, String>>,
)
    requires
        job.wf(),
    ensures
        ({
            let previous = job.request.previous->0;
            let kept = job.request.operator_reused
                && previous.far_field_settings.enabled == job.request.far_field.enabled
                && previous.far_field_settings.inset.eq_num(job.request.far_field.inset)
                && previous.point_source.enabled == job.request.point_source.enabled
                && job.request.comparison.source_place
                && job.request.comparison.scene.volume_layout;
            &&& job.wants_far_field() <==> !kept && job.request.far_field.enabled
            &&& job.candidate(probes, far_field).far_field == if kept {
                previous.far_field
            } else if job.request.far_field.enabled {
                far_field
            } else {
                None
            }
        }),
{
    reveal(TopologyPreparationJob::candidate);
}

/// The finished candidate is made of what the job was asked for and of what it
/// prepared.
pub proof fn a_candidate_is_what_was_prepared(
    job: TopologyPreparationJob,
    probes: Artifact,
    far_field: Option<Result<Artifact, String>>,
)
    requires
        job.wf(),
        job.work() is CompileMeasurements,
    ensures
        ({
            let candidate = job.candidate(probes, far_field);
            &&& candidate.bundle == job.request.bundle
            &&& Some(candidate.mesh) == job.mesh.mesh
            &&& Some(candidate.operator) == job.assembly.operator
            &&& Some(candidate.canonical_operator) == job.assembly.canonical_operator
            &&& candidate.canonical_temporal_operator == job.assembly.temporal_operator
            &&& Some(candidate.canonical_forcing) == job.sources.forcing
            &&& Some(candidate.volume_sources) == job.sources.volume_sources
            &&& candidate.canonical_transfer == job.canonical.joined
            &&& candidate.transfer == job.sources.transfer
            &&& candidate.probes == probes
            &&& candidate.point_source == job.request.point_source
            &&& candidate.probe_definitions == job.request.probes
            &&& candidate.far_field_settings == job.request.far_field
            &&& candidate.meshing == job.request.meshing
            &&& candidate.fresh == job.request.fresh
            &&& candidate.adapted == job.request.adapted
            &&& candidate.operator_reused == job.request.operator_reused
            &&& candidate.mesh_action == job.mesh.action
            &&& candidate.carve == job.mesh.carve
            &&& candidate.repair_fallback == job.mesh.repair_fallback
            &&& candidate.timing == job.timing
        }),
{
    reveal(TopologyPreparationJob::work);
    reveal(TopologyPreparationJob::candidate);
}

/// Nothing is worked on before what it is made from is there, and nothing is
/// left out on the way.
pub proof fn each_work_has_what_it_needs(job: TopologyPreparationJob)
    requires
        job.wf(),
    ensures
        job.work() is AdvanceCarve <==> !job.done && job.mesh.carving,
        job.work() is AdvanceMesh <==> !job.done && job.mesh.building,
        job.work() is StartAssembly ==> job.mesh.mesh is Some && job.assembly.operator is None,
        job.work() is PlacePointSource ==> job.assembly.operator is Some
            && !job.assembly.source_validated,
        job.work() is StartCanonicalAssembly ==> job.assembly.operator is Some
            && job.assembly.source_validated && job.assembly.canonical_operator is None,
        job.work() is BuildTemporalOperator ==> job.request.driven
            && job.assembly.pending_canonical is Some,
        job.work() is StartTransfer || job.work() is BuildIdentityTransfer ==> {
            &&& job.assembly.canonical_operator is Some
            &&& !job.request.fresh && !job.request.operator_reused
            &&& job.sources.transfer is None
            &&& job.work() is BuildIdentityTransfer <==> Some(job.request.previous->0.mesh)
                == job.mesh.mesh
        },
        job.work() is StartSources ==> job.assembly.canonical_operator is Some
            && job.sources.volume_sources is None,
        job.work() is CompileForcing ==> job.sources.volume_sources is Some
            && job.sources.forcing is None,
        job.work() is JoinCanonicalTransfer ==> {
            &&& job.canonical.primary is Some
            &&& job.canonical.vector is Some
            &&& job.canonical.gap is Some
            &&& job.canonical.outgoing is Some
            &&& job.canonical.joined is None
        },
        job.work() is CompileMeasurements ==> {
            &&& job.mesh.mesh is Some
            &&& job.assembly.operator is Some
            &&& job.assembly.source_validated
            &&& job.assembly.canonical_operator is Some
            &&& job.sources.volume_sources is Some
            &&& job.sources.forcing is Some
            &&& !job.request.fresh && !job.request.operator_reused ==> job.sources.transfer is Some
            &&& !job.request.fresh && job.solver_update() is FullHandoff ==> job.canonical.joined
                is Some
        },
{
    reveal(TopologyPreparationJob::work);
}

/// What the engine built is what the job goes on with, and nothing that was there
/// before is lost over it.
pub proof fn what_was_built_is_kept(job: TopologyPreparationJob, artifact: Artifact)
    requires
        job.wf(),
        job.expects(WorkOutcome::Built(artifact)),
    ensures
        ({
            let next = job.accepted(WorkOutcome::Built(artifact));
            &&& job.work() is AdvanceMesh ==> next.mesh.mesh == Some(artifact)
                && !next.mesh.building
            &&& job.work() is AdvanceAssembly ==> next.assembly.operator == Some(artifact)
            &&& job.work() is AdvanceTransfer || job.work() is BuildIdentityTransfer
                ==> next.sources.transfer == Some(artifact)
            &&& job.work() is AdvanceSources ==> next.sources.volume_sources == Some(artifact)
            &&& job.work() is PreparePrimaryTransfer ==> next.canonical.primary == Some(artifact)
            &&& job.work() is PrepareThinGapTransfer ==> next.canonical.gap == Some(artifact)
            &&& job.work() is AdvanceVectorTransfer ==> next.canonical.vector == Some(artifact)
            &&& job.work() is AdvanceOutgoingTransfer ==> next.canonical.outgoing == Some(artifact)
            &&& !(job.work() is AdvanceMesh) ==> next.mesh == job.mesh
            &&& !(job.work() is AdvanceAssembly) ==> next.assembly.operator == job.assembly.operator
            &&& next.assembly.canonical_operator == job.assembly.canonical_operator
            &&& next.sources.forcing == job.sources.forcing
        }),
{
    reveal(TopologyPreparationJob::work);
    reveal(TopologyPreparationJob::carve_accepted);
    reveal(TopologyPreparationJob::mesh_accepted);
    reveal(TopologyPreparationJob::assembly_accepted);
    reveal(TopologyPreparationJob::placement_accepted);
    reveal(TopologyPreparationJob::canonical_assembly_accepted);
    reveal(TopologyPreparationJob::temporal_accepted);
    reveal(TopologyPreparationJob::transfer_accepted);
    reveal(TopologyPreparationJob::sources_accepted);
    reveal(TopologyPreparationJob::canonical_accepted);
    reveal(TopologyPreparationJob::completed);
}

/// Compiled forcing is kept with what it changed in, a carved mesh with its
/// report, and the canonical operator of a driven document only together with
/// its temporal one.
pub proof fn other_results_are_kept(
    job: TopologyPreparationJob,
    forcing: Artifact,
    change: ForcingChange,
    mesh: Artifact,
    report: Artifact,
)
    requires
        job.wf(),
    ensures
        job.work() is CompileForcing ==> {
            let next = job.accepted(WorkOutcome::Forced { forcing, change });
            &&& next.sources.forcing == Some(forcing)
            &&& next.sources.forcing_change == change
        },
        job.work() is AdvanceCarve ==> {
            let next = job.accepted(WorkOutcome::Carved { mesh, report });
            &&& next.mesh.mesh == Some(mesh)
            &&& next.mesh.carve == Some(report)
            &&& !next.mesh.carving && !next.mesh.building
            &&& next.mesh.action == job.mesh.action
        },
{
    reveal(TopologyPreparationJob::work);
    reveal(TopologyPreparationJob::sources_accepted);
    reveal(TopologyPreparationJob::carve_accepted);
}

/// A point source is refused exactly where it cannot act: it cannot be evaluated,
/// its region is not meshed, or it is on and does not lie in its region.
pub proof fn a_source_is_refused_only_where_it_cannot_act(
    source: PointSource,
    valid: bool,
    placement: SourcePlacement,
)
    ensures
        source_refusal(source, valid, placement) is None <==> {
            &&& valid
            &&& placement.active_regions@.contains(source.region)
            &&& source.enabled ==> placement.placed == Ok::<u64, String>(source.region)
        },
{
}

/// A trace is renumbered by the first entry for it, and a mesh can be renumbered
/// only where each of its traces has an entry; vertices without a trace stay
/// without one.
pub proof fn traces_are_renumbered_by_their_entries(
    vertices: Seq<Trace>,
    remap: Seq<(u64, u64)>,
    trace: u64,
)
    ensures
        match remapped(remap, trace) {
            Some(number) => exists|i: int|
                0 <= i < remap.len() && (#[trigger] remap[i]) == (trace, number) && forall|j: int|
                    0 <= j < i ==> (#[trigger] remap[j]).0 != trace,
            None => forall|i: int| 0 <= i < remap.len() ==> (#[trigger] remap[i]).0 != trace,
        },
        match retraced_vertices(vertices, remap) {
            Some(renumbered) => renumbered.len() == vertices.len() && forall|i: int|
                0 <= i < vertices.len() ==> {
                    &&& (#[trigger] renumbered[i]) is Some <==> vertices[i] is Some
                    &&& vertices[i] is Some ==> renumbered[i] == remapped(remap, vertices[i]->0)
                },
            None => exists|i: int|
                0 <= i < vertices.len() && (#[trigger] vertices[i]) is Some && remapped(
                    remap,
                    vertices[i]->0,
                ) is None,
        },
    decreases remap.len(),
{
    if remap.len() > 0 {
        let rest = remap.drop_first();
        traces_are_renumbered_by_their_entries(Seq::empty(), rest, trace);
        assert forall|i: int| 0 <= i < rest.len() implies #[trigger] rest[i] == remap[i + 1] by {}
        if remap[0].0 == trace {
            assert(remap[0] == (trace, remap[0].1));
        } else {
            match remapped(rest, trace) {
                Some(number) => {
                    let i = choose|i: int|
                        0 <= i < rest.len() && (#[trigger] rest[i]) == (trace, number) && forall|
                            j: int,
                        |
                            0 <= j < i ==> (#[trigger] rest[j]).0 != trace;
                    assert(remap[i + 1] == (trace, number));
                    assert forall|j: int| 0 <= j < i + 1 implies (#[trigger] remap[j]).0
                        != trace by {
                        if j > 0 {
                            assert(rest[j - 1].0 != trace);
                        }
                    }
                },
                None => {
                    assert forall|i: int| 0 <= i < remap.len() implies (#[trigger] remap[i]).0
                        != trace by {
                        if i > 0 {
                            assert(rest[i - 1].0 != trace);
                        }
                    }
                },
            }
        }
    }
}

/// A source that may act where it is lets the job go on, and one that may not ends
/// it. A source that follows on an assembly ends the slice, in which nothing is kept
/// of an interpolation; any other is part of it.
pub proof fn a_placed_source_lets_the_job_go_on(
    job: TopologyPreparationJob,
    placement: SourcePlacement,
)
    requires
        job.work() is PlacePointSource,
    ensures
        ({
            let after = job.accepted(WorkOutcome::Placed(placement));
            let refused = source_refusal(
                job.request.point_source,
                job.request.source_valid,
                placement,
            ) is Some;
            &&& after.assembly.source_validated <==> !refused
            &&& !after.assembly.just_finished
            &&& refused ==> after.done && after.phase is Failed
            &&& !refused ==> after.done == job.done && after.phase == job.phase
            &&& !refused && job.assembly.just_finished ==> after.canonical.interpolation is None
            &&& !refused && !job.assembly.just_finished ==> after.canonical == job.canonical
            &&& after.mesh == job.mesh && after.sources == job.sources
            &&& after.assembly.operator == job.assembly.operator
        }),
{
    reveal(TopologyPreparationJob::placement_accepted);
}

} // verus!
