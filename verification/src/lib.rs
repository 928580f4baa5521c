//! Verified core of the Funfern wave playground: the rules by which documents
//! are stored, topologies are prepared and published, geometry is selected and
//! edited, and the interface decides what to do next.
//!
//! Numbers that the application holds as floating point travel through this
//! crate as [`scalar::Scalar`] bit patterns; everything that only the wave
//! engine can compute enters as a plain argument.

pub mod adaptation;
pub mod adaptation_laws;
pub mod adaptation_pass;
pub mod alike;
pub mod attachment;
pub mod boundary_edit;
pub mod candidate_laws;
pub mod capture;
pub mod collect;
pub mod display;
pub mod display_laws;
pub mod document_codec;
pub mod document_laws;
pub mod document_validation;
pub mod drag_laws;
pub mod drawing;
pub mod drawing_laws;
pub mod equality_laws;
pub mod events;
pub mod exposure;
pub mod file_laws;
pub mod frame_laws;
pub mod frame_pass;
pub mod gesture;
pub mod hit_laws;
pub mod hits;
pub mod interaction;
pub mod labels;
pub mod law_codec;
pub mod model;
pub mod ordered_set;
pub mod overlay;
pub mod paint_laws;
pub mod panels;
pub mod persistence;
pub mod pointer_laws;
pub mod preparation;
pub mod preparation_job;
pub mod preparation_laws;
pub mod preparation_run;
pub mod preparation_start;
pub mod preparation_task;
pub mod presentation_codec;
pub mod preview;
pub mod probe_laws;
pub mod probe_sampling;
pub mod probes;
pub mod readouts;
pub mod removal;
pub mod runtime;
pub mod sampling;
pub mod scalar;
pub mod scene_codec;
pub mod scene_equality;
pub mod sections;
pub mod selection;
pub mod selection_laws;
pub mod shuffle;
pub mod stored;
pub mod session_laws;
pub mod text;
pub mod top_bar;
pub mod transform;
pub mod transform_plan;
pub mod validation;
pub mod value_codec;
pub mod viewport_laws;
pub mod viewport_pass;
pub mod windows;
