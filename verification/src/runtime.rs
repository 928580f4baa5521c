//! The transaction by which candidates replace the active topology.
//!
//! One request is current at a time. What it prepares becomes ready under its
//! token, and only the caller's acknowledgement of that same token publishes
//! it.

use crate::preparation::{
    Artifact, CompiledTopologyScene, MeshingOptions, PreparationIntent, PreparedTopology,
    TopologyPreparationError, TopologyPreparationPhase, TopologyPreparationTiming, TopologyToken,
};
use crate::preparation_job::{
    DocumentFacts, PreviousComparison, Progress, TopologyPreparationJob, Work, WorkOutcome,
};
use crate::preparation_start::{new_bundle, AdaptedMesh};
use crate::scalar::Scalar;
use vstd::prelude::*;

verus! {

#[derive(Debug)]
pub struct TopologyRuntime {
    pub active: Option<PreparedTopology>,
    pub preparing: Option<TopologyPreparationJob>,
    pub ready: Option<PreparedTopology>,
    pub requested: Option<TopologyToken>,
    /// Whether `requested` came from adaptation rather than an edit.
    pub requested_adaptation: bool,
    pub next_mesh_revision: u64,
    pub last_error: Option<TopologyPreparationError>,
    /// Consumed by the next request: rebuild the mesh even for an unchanged
    /// plan with unchanged options.
    pub force_rebuild: bool,
    /// Whether repairs refill a carved band at the sizes adaptation requested
    /// there.
    pub preserve_adaptation: bool,
}

/// The revision after this one; zero is skipped.
pub open spec fn following_revision(revision: u64) -> u64 {
    if revision == u64::MAX {
        1
    } else {
        (revision + 1) as u64
    }
}

impl Default for TopologyRuntime {
    fn default() -> (result: Self)
        ensures
            result == Self::at_launch(1),
    {
        TopologyRuntime {
            active: None,
            preparing: None,
            ready: None,
            requested: None,
            requested_adaptation: false,
            next_mesh_revision: 1,
            last_error: None,
            force_rebuild: false,
            preserve_adaptation: true,
        }
    }
}

impl TopologyRuntime {
    /// The runtime before anything was requested.
    pub open spec fn at_launch(next_mesh_revision: u64) -> Self {
        TopologyRuntime {
            active: None,
            preparing: None,
            ready: None,
            requested: None,
            requested_adaptation: false,
            next_mesh_revision,
            last_error: None,
            force_rebuild: false,
            preserve_adaptation: true,
        }
    }

    /// What holds of every reachable runtime: revisions are never zero, a
    /// ready candidate is the requested one, and what is preparing is sound
    /// and was requested.
    pub open spec fn wf(self) -> bool {
        &&& self.next_mesh_revision >= 1
        &&& self.ready matches Some(candidate) ==> self.requested == Some(candidate.bundle.token)
        &&& self.preparing matches Some(job) ==> job.wf() && self.requested == Some(
            job.request.bundle.token,
        )
    }

    /// Makes the next request rebuild the mesh even when the plan and the
    /// meshing options are unchanged, for instance to leave an adapted mesh.
    pub fn request_full_rebuild(&mut self)
        ensures
            *final(self) == (TopologyRuntime { force_rebuild: true, ..*old(self) }),
    {
        self.force_rebuild = true;
    }

    /// Whether repairs refill a carved band at the sizes adaptation requested
    /// there. Off, the band comes back at the meshing target.
    pub fn set_preserve_adaptation(&mut self, preserve: bool)
        ensures
            *final(self) == (TopologyRuntime { preserve_adaptation: preserve, ..*old(self) }),
    {
        self.preserve_adaptation = preserve;
    }

    pub fn reserve_mesh_revision(&mut self) -> (result: u64)
        ensures
            result == old(self).next_mesh_revision,
            *final(self) == (TopologyRuntime {
                next_mesh_revision: following_revision(old(self).next_mesh_revision),
                ..*old(self)
            }),
    {
        let revision: u64 = self.next_mesh_revision;
        self.next_mesh_revision = if revision == u64::MAX {
            1
        } else {
            revision + 1
        };
        revision
    }

    /// The runtime once a job for a new request is under way.
    pub open spec fn requesting(self, job: TopologyPreparationJob, adaptation: bool) -> Self {
        TopologyRuntime {
            preparing: Some(job),
            ready: None,
            requested: Some(job.request.bundle.token),
            requested_adaptation: adaptation,
            last_error: None,
            ..self
        }
    }

    /// How an edit asks for its candidate.
    pub open spec fn edit_intent(self, fresh: bool, require_solver_handoff: bool)
        -> PreparationIntent {
        PreparationIntent {
            fresh,
            force_rebuild: self.force_rebuild,
            preserve_adaptation: self.preserve_adaptation,
            require_solver_handoff,
        }
    }

    /// The runtime after an edit was requested: a new job under a new token, or
    /// the reason why the compiled scene cannot be prepared. Either way a mesh
    /// revision is used up and a forced rebuild is consumed.
    pub open spec fn requested_edit(
        self,
        after: Self,
        result: Result<TopologyToken, String>,
        document_revision: u64,
        document: DocumentFacts,
        compiled: CompiledTopologyScene,
        comparison: PreviousComparison,
        options: MeshingOptions,
        fresh: bool,
        require_solver_handoff: bool,
    ) -> bool {
        let intent = self.edit_intent(fresh, require_solver_handoff);
        let reserved = TopologyRuntime {
            next_mesh_revision: following_revision(self.next_mesh_revision),
            force_rebuild: false,
            ..self
        };
        match new_bundle(
            document_revision,
            document,
            compiled,
            self.active,
            comparison,
            self.next_mesh_revision,
            options,
            intent,
        ) {
            Ok(bundle) => {
                &&& result == Ok::<TopologyToken, String>(bundle.token)
                &&& after == reserved.requesting(
                    TopologyPreparationJob::started(
                        document,
                        bundle,
                        self.active,
                        comparison,
                        self.next_mesh_revision,
                        options,
                        intent,
                    ),
                    false,
                )
            },
            Err(issue) => {
                &&& result is Err
                &&& result->Err_0@ == issue
                &&& after == reserved
            },
        }
    }

    pub fn request(
        &mut self,
        document_revision: u64,
        document: &DocumentFacts,
        compiled: &CompiledTopologyScene,
        comparison: PreviousComparison,
        options: MeshingOptions,
        fresh: bool,
    ) -> (result: Result<TopologyToken, String>)
        requires
            fresh || old(self).active is Some,
        ensures
            old(self).requested_edit(
                *final(self),
                result,
                document_revision,
                *document,
                *compiled,
                comparison,
                options,
                fresh,
                false,
            ),
            old(self).wf() ==> final(self).wf(),
    {
        self.request_with_handoff(
            document_revision,
            document,
            compiled,
            comparison,
            options,
            fresh,
            false,
        )
    }

    pub fn request_with_handoff(
        &mut self,
        document_revision: u64,
        document: &DocumentFacts,
        compiled: &CompiledTopologyScene,
        comparison: PreviousComparison,
        options: MeshingOptions,
        fresh: bool,
        require_solver_handoff: bool,
    ) -> (result: Result<TopologyToken, String>)
        requires
            fresh || old(self).active is Some,
        ensures
            old(self).requested_edit(
                *final(self),
                result,
                document_revision,
                *document,
                *compiled,
                comparison,
                options,
                fresh,
                require_solver_handoff,
            ),
            old(self).wf() ==> final(self).wf(),
    {
        let mesh_revision: u64 = self.reserve_mesh_revision();
        let intent = PreparationIntent {
            fresh,
            force_rebuild: self.force_rebuild,
            preserve_adaptation: self.preserve_adaptation,
            require_solver_handoff,
        };
        self.force_rebuild = false;
        let active: Option<PreparedTopology> = match &self.active {
            Some(active) => Some(active.clone()),
            None => None,
        };
        match TopologyPreparationJob::new(
            document_revision,
            document,
            compiled,
            active,
            comparison,
            mesh_revision,
            options,
            intent,
        ) {
            Ok(job) => {
                let token: TopologyToken = job.token();
                self.preparing = Some(job);
                self.ready = None;
                self.requested = Some(token);
                self.requested_adaptation = false;
                self.last_error = None;
                Ok(token)
            },
            Err(issue) => Err(issue),
        }
    }

    /// Continues the normal preparation and publication path from the result
    /// of adapting the active mesh.
    pub fn request_adapted(
        &mut self,
        document_revision: u64,
        document: &DocumentFacts,
        comparison: PreviousComparison,
        plan_geometry_revision: u64,
        active_mesh_revision: u64,
        mesh: AdaptedMesh,
    ) -> (result: Result<TopologyToken, String>)
        ensures
            match old(self).active {
                None => {
                    &&& result is Err
                    &&& result->Err_0@ == "Cannot adapt before a topology is active"@
                    &&& *final(self) == *old(self)
                },
                Some(active) => if TopologyPreparationJob::continues(
                    active,
                    comparison,
                    plan_geometry_revision,
                    active_mesh_revision,
                    mesh,
                ) {
                    let job = TopologyPreparationJob::started_adapted(
                        document_revision,
                        *document,
                        active,
                        comparison,
                        mesh,
                    );
                    &&& result == Ok::<TopologyToken, String>(job.request.bundle.token)
                    &&& *final(self) == old(self).requesting(job, true)
                } else {
                    &&& result is Err
                    &&& result->Err_0@ == "Adapted mesh does not match the active topology"@
                    &&& *final(self) == *old(self)
                },
            },
            old(self).wf() ==> final(self).wf(),
    {
        let previous: PreparedTopology = match &self.active {
            Some(active) => active.clone(),
            None => {
                return Err("Cannot adapt before a topology is active".to_owned());
            },
        };
        match TopologyPreparationJob::new_adapted(
            document_revision,
            document,
            previous,
            comparison,
            plan_geometry_revision,
            active_mesh_revision,
            mesh,
        ) {
            Ok(job) => {
                let token: TopologyToken = job.token();
                self.preparing = Some(job);
                self.ready = None;
                self.requested = Some(token);
                self.requested_adaptation = true;
                self.last_error = None;
                Ok(token)
            },
            Err(issue) => Err(issue),
        }
    }

    /// Whether the latest request came from adaptation rather than an edit.
    pub fn requested_adaptation(&self) -> (result: bool)
        ensures
            result == self.requested_adaptation,
    {
        self.requested_adaptation
    }

    /// The phase of what is preparing, or that a candidate is ready.
    pub open spec fn shown_phase(self) -> Option<TopologyPreparationPhase> {
        match self.preparing {
            Some(job) => Some(job.phase),
            None => if self.ready is Some {
                Some(TopologyPreparationPhase::Ready)
            } else {
                None
            },
        }
    }

    pub fn phase(&self) -> (result: Option<TopologyPreparationPhase>)
        ensures
            result == self.shown_phase(),
    {
        match &self.preparing {
            Some(job) => Some(job.phase()),
            None => if self.ready.is_some() {
                Some(TopologyPreparationPhase::Ready)
            } else {
                None
            },
        }
    }

    pub fn detail(&self) -> (result: Option<Result<Work, &'static str>>)
        ensures
            match self.preparing {
                None => result is None,
                Some(job) => result is Some && match job.running_job() {
                    Some(work) => result->0 == Ok::<Work, &'static str>(work),
                    None => result->0 is Err && result->0->Err_0@ == job.phase.label_text(),
                },
            },
    {
        match &self.preparing {
            Some(job) => Some(job.detail()),
            None => None,
        }
    }

    /// Live breakdown of the candidate still being prepared.
    pub fn preparing_timing(&self) -> (result: Option<TopologyPreparationTiming>)
        ensures
            result == (match self.preparing {
                Some(job) => Some(job.timing),
                None => None,
            }),
    {
        match &self.preparing {
            Some(job) => Some(job.timing()),
            None => None,
        }
    }

    /// Moves the current job to an external executor. The requested token stays
    /// here, so a result superseded by a newer request is still turned away by
    /// [`Self::finish_external_preparation`].
    pub fn take_preparing_job(&mut self) -> (result: Option<TopologyPreparationJob>)
        ensures
            result == old(self).preparing,
            *final(self) == (TopologyRuntime { preparing: None, ..*old(self) }),
            old(self).wf() ==> final(self).wf(),
    {
        self.preparing.take()
    }

    /// Restores a job when an external executor is unavailable.
    pub fn restore_preparing_job(&mut self, job: TopologyPreparationJob)
        ensures
            *final(self) == (if old(self).requested == Some(job.request.bundle.token)
                && old(self).preparing is None {
                TopologyRuntime { preparing: Some(job), ..*old(self) }
            } else {
                *old(self)
            }),
            old(self).wf() && job.wf() ==> final(self).wf(),
    {
        if self.is_requested(job.token()) && self.preparing.is_none() {
            self.preparing = Some(job);
        }
    }

    fn is_requested(&self, token: TopologyToken) -> (result: bool)
        ensures
            result == (self.requested == Some(token)),
    {
        match self.requested {
            Some(requested) => requested == token,
            None => false,
        }
    }

    /// The runtime and the answer once a preparation came to its end. Only the
    /// requested token counts; a superseded result changes nothing.
    pub open spec fn settled(
        self,
        result: Result<PreparedTopology, TopologyPreparationError>,
    ) -> (Self, Option<Result<TopologyToken, TopologyPreparationError>>) {
        match result {
            Ok(candidate) => if self.requested == Some(candidate.bundle.token) {
                (
                    TopologyRuntime { ready: Some(candidate), ..self },
                    Some(Ok(candidate.bundle.token)),
                )
            } else {
                (self, None)
            },
            Err(error) => if self.requested == Some(error.token) {
                (TopologyRuntime { last_error: Some(error), ..self }, Some(Err(error)))
            } else {
                (self, None)
            },
        }
    }

    fn settle(&mut self, result: Result<PreparedTopology, TopologyPreparationError>) -> (answer:
        Option<Result<TopologyToken, TopologyPreparationError>>)
        ensures
            (*final(self), answer) == old(self).settled(result),
            old(self).wf() ==> final(self).wf(),
    {
        match result {
            Ok(candidate) => {
                let token: TopologyToken = candidate.bundle.token;
                if self.is_requested(token) {
                    self.ready = Some(candidate);
                    Some(Ok(token))
                } else {
                    None
                }
            },
            Err(error) => {
                if self.is_requested(error.token) {
                    self.last_error = Some(error.clone());
                    Some(Err(error))
                } else {
                    None
                }
            },
        }
    }

    /// Settles a result produced elsewhere. Token ownership is checked exactly
    /// as for work done in place.
    pub fn finish_external_preparation(
        &mut self,
        result: Result<PreparedTopology, TopologyPreparationError>,
    ) -> (answer: Option<Result<TopologyToken, TopologyPreparationError>>)
        ensures
            (*final(self), answer) == old(self).settled(result),
            old(self).wf() ==> final(self).wf(),
    {
        self.settle(result)
    }

    pub fn active(&self) -> (result: Option<&PreparedTopology>)
        ensures
            result == (match self.active {
                Some(active) => Some(&active),
                None => None,
            }),
    {
        self.active.as_ref()
    }

    pub fn ready(&self) -> (result: Option<&PreparedTopology>)
        ensures
            result == (match self.ready {
                Some(ready) => Some(&ready),
                None => None,
            }),
    {
        self.ready.as_ref()
    }

    pub fn last_error(&self) -> (result: Option<&TopologyPreparationError>)
        ensures
            result == (match self.last_error {
                Some(error) => Some(&error),
                None => None,
            }),
    {
        self.last_error.as_ref()
    }

    /// The runtime once it forgot what it had.
    pub open spec fn cleared(self) -> Self {
        TopologyRuntime {
            force_rebuild: self.force_rebuild,
            preserve_adaptation: self.preserve_adaptation,
            ..Self::at_launch(self.next_mesh_revision)
        }
    }

    /// Forgets the active topology and whatever was prepared or preparing, as
    /// at launch. A document replacement drops the outgoing scene rather than
    /// keep it running under the new one. Mesh revisions keep counting.
    pub fn clear_active(&mut self)
        ensures
            *final(self) == old(self).cleared(),
            old(self).wf() ==> final(self).wf(),
    {
        self.active = None;
        self.preparing = None;
        self.ready = None;
        self.requested = None;
        self.requested_adaptation = false;
        self.last_error = None;
    }

    /// Names the next work of what is preparing.
    pub fn next_work(&mut self) -> (result: Option<Work>)
        requires
            old(self).wf(),
        ensures
            match old(self).preparing {
                None => result is None && *final(self) == *old(self),
                Some(job) => {
                    &&& result == Some(job.work())
                    &&& *final(self) == (TopologyRuntime {
                        preparing: Some(
                            TopologyPreparationJob { phase: job.working_phase(), ..job },
                        ),
                        ..*old(self)
                    })
                },
            },
            final(self).wf(),
    {
        match self.preparing.take() {
            None => None,
            Some(job) => {
                let mut job: TopologyPreparationJob = job;
                let work: Work = job.next_work();
                self.preparing = Some(job);
                Some(work)
            },
        }
    }

    /// Builds the model that the fixed compilers read for what is preparing, once.
    pub fn ensure_stripped_model<F: FnOnce(Artifact) -> Artifact>(&mut self, strip: F)
        requires
            old(self).wf(),
            old(self).preparing matches Some(job) ==> call_requires(
                strip,
                (job.request.bundle.authored,),
            ),
        ensures
            match old(self).preparing {
                None => *final(self) == *old(self),
                Some(job) => {
                    &&& final(self).preparing is Some
                    &&& *final(self) == (TopologyRuntime {
                        preparing: Some(
                            TopologyPreparationJob {
                                stripped_model: final(self).preparing->0.stripped_model,
                                ..job
                            },
                        ),
                        ..*old(self)
                    })
                    &&& match job.stripped_model {
                        Some(_) => final(self).preparing->0.stripped_model == job.stripped_model,
                        None => final(self).preparing->0.stripped_model is Some && call_ensures(
                            strip,
                            (job.request.bundle.authored,),
                            final(self).preparing->0.stripped_model->0,
                        ),
                    }
                },
            },
            final(self).wf(),
    {
        match self.preparing.take() {
            None => {},
            Some(job) => {
                let mut job: TopologyPreparationJob = job;
                job.ensure_stripped_model(strip);
                self.preparing = Some(job);
            },
        }
    }

    /// Takes the outcome of the work that [`Self::next_work`] named.
    pub fn accept(&mut self, outcome: WorkOutcome) -> (result: Progress)
        requires
            old(self).wf(),
            old(self).preparing is Some,
            old(self).preparing->0.expects(outcome),
        ensures
            *final(self) == (TopologyRuntime {
                preparing: Some(old(self).preparing->0.accepted(outcome)),
                ..*old(self)
            }),
            old(self).preparing->0.reported(outcome, result),
            final(self).wf(),
    {
        proof {
            crate::preparation_laws::every_outcome_keeps_the_job_sound(
                self.preparing->0,
                outcome,
            );
        }
        match self.preparing.take() {
            None => Progress::Pause,
            Some(job) => {
                let mut job: TopologyPreparationJob = job;
                let progress: Progress = job.accept(outcome);
                self.preparing = Some(job);
                progress
            },
        }
    }

    /// Ends a slice of what is preparing. A finished preparation is settled and
    /// no longer preparing.
    pub fn finish_slice(
        &mut self,
        elapsed: Scalar,
        work_total: Scalar,
        outcome: Option<Result<PreparedTopology, TopologyPreparationError>>,
    ) -> (answer: Option<Result<TopologyToken, TopologyPreparationError>>)
        ensures
            match old(self).preparing {
                None => answer is None && *final(self) == *old(self),
                Some(job) => {
                    let timing = job.sliced_timing(elapsed, work_total);
                    match outcome {
                        None => {
                            &&& answer is None
                            &&& *final(self) == (TopologyRuntime {
                                preparing: Some(TopologyPreparationJob { timing, ..job }),
                                ..*old(self)
                            })
                        },
                        Some(Ok(prepared)) => (*final(self), answer) == (TopologyRuntime {
                            preparing: None,
                            ..*old(self)
                        }).settled(Ok(PreparedTopology { timing, ..prepared })),
                        Some(Err(error)) => (*final(self), answer) == (TopologyRuntime {
                            preparing: None,
                            ..*old(self)
                        }).settled(Err(error)),
                    }
                },
            },
            old(self).wf() ==> final(self).wf(),
    {
        match self.preparing.take() {
            None => None,
            Some(job) => {
                let mut job: TopologyPreparationJob = job;
                match job.finish_slice(elapsed, work_total, outcome) {
                    None => {
                        self.preparing = Some(job);
                        None
                    },
                    Some(result) => self.settle(result),
                }
            },
        }
    }

    /// Whether this token can be published.
    pub open spec fn publishes(self, token: TopologyToken) -> bool {
        self.requested == Some(token) && self.ready is Some && self.ready->0.bundle.token == token
    }

    /// Publishes the ready candidate once its upload was acknowledged.
    pub fn commit_ready(&mut self, token: TopologyToken) -> (result: Result<
        PreparedTopology,
        String,
    >)
        ensures
            if old(self).publishes(token) {
                &&& result == Ok::<PreparedTopology, String>(old(self).ready->0)
                &&& *final(self) == (TopologyRuntime {
                    active: old(self).ready,
                    ready: None,
                    ..*old(self)
                })
            } else {
                &&& result is Err
                &&& result->Err_0@ == "Candidate is stale or not ready"@
                &&& *final(self) == *old(self)
            },
            old(self).wf() ==> final(self).wf(),
    {
        let current: bool = match &self.ready {
            Some(candidate) => candidate.bundle.token == token,
            None => false,
        };
        if !self.is_requested(token) || !current {
            return Err("Candidate is stale or not ready".to_owned());
        }
        let committed: PreparedTopology = self.ready.take().unwrap();
        self.active = Some(committed.clone());
        Ok(committed)
    }

    /// Drops the ready candidate of a failed upload. Any other token is left
    /// alone.
    pub fn reject_ready(&mut self, token: TopologyToken, message: String)
        ensures
            *final(self) == (if old(self).ready is Some && old(self).ready->0.bundle.token
                == token {
                TopologyRuntime {
                    ready: None,
                    last_error: Some(
                        TopologyPreparationError {
                            token,
                            phase: TopologyPreparationPhase::Failed,
                            message,
                        },
                    ),
                    ..*old(self)
                }
            } else {
                *old(self)
            }),
            old(self).wf() ==> final(self).wf(),
    {
        let current: bool = match &self.ready {
            Some(candidate) => candidate.bundle.token == token,
            None => false,
        };
        if current {
            self.ready = None;
            self.last_error = Some(
                TopologyPreparationError {
                    token,
                    phase: TopologyPreparationPhase::Failed,
                    message,
                },
            );
        }
    }
}

} // verus!
