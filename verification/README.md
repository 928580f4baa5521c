# Funfern core

The decisions of the Funfern wave playground, written in Verus and proved
against their contracts: how documents are stored and opened, how a topology is
prepared and published while the committed field keeps running, how geometry is
hit, selected, transformed and removed, how the mesh is adapted, and what the
interface says and does from frame to frame.

## What is where

- `src/` is the library. Every item in it is verified; nothing in it is taken on
  trust.
  - Documents: `model`, `stored`, `value_codec`, `law_codec`, `scene_codec`,
    `document_codec`, `presentation_codec`, `validation`, `document_validation`,
    `persistence`, `scene_equality`.
  - Preparation: `preparation`, `preparation_start`, `preparation_job`,
    `preparation_task`, `preparation_laws`, `preparation_run`, `runtime`, `probes`,
    `probe_sampling`.
  - Adaptation: `adaptation`, `adaptation_pass`.
  - The viewport: `sampling`, `hits`, `attachment`, `selection`, `transform`,
    `transform_plan`, `gesture`, `interaction`, `viewport_pass`, `drawing`,
    `removal`, `boundary_edit`.
  - What is shown: `overlay`, `exposure`, `display`, `preview`, `labels`,
    `readouts`, `sections`, `events`, `panels`, `top_bar`, `windows`, `capture`,
    `frame_pass`.
  - Foundations: `scalar`, `text`, `collect`, `alike`, `ordered_set`, `shuffle`.
- `tests/` runs the library on concrete values, with stand-ins for the engine.
- `app/` is ordinary Rust around the library: the text of scene files, the
  floating-point arithmetic of the view, and the loops that run the wave engine
  and the window behind traits.

## Numbers

Floating-point numbers travel through the library as `Scalar` bit patterns. The
library orders them, tests them and passes them on, all of which is exact on the
bit pattern; arithmetic is the application's.

## The engine

Meshes, operators, compiled probes and the like are `Artifact` handles. Where a
decision depends on what the engine finds, its answer is an argument: a plain
value, or a function whose contract the caller has to meet. Longer exchanges are
state machines. `preparation_job` names the next piece of work and takes its
outcome, and `preparation_task` says what that work is done on; `adaptation_pass` and `viewport_pass` name the next step of a frame and
take what came of it.
