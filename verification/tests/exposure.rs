use funfern::exposure::{
    exposure_level, exposure_samples, field_scale, nth_sample, ArrowHistory, AutoExposure,
    DisplayScales, VectorAcState, VectorOverlayAcOwner, EXPOSURE_SAMPLES,
};
use funfern::model::PhysicsModel;
use funfern::scalar::{Point2, Scalar};

const RELEASE_PER_SECOND: f64 = 1.15;
const QUIET_FLOOR: f64 = 1.0e-2;
const MAX_STEP: f32 = 1.0;
const FIELD_EXPOSURE_GAIN: f64 = 0.5;

fn n(value: f64) -> Scalar {
    Scalar { bits: value.to_bits() }
}

fn value(number: Scalar) -> f64 {
    f64::from_bits(number.bits)
}

fn fresh() -> AutoExposure {
    AutoExposure { reference: n(0.0), peak: n(0.0) }
}

fn update(exposure: &mut AutoExposure, level: f64, seconds: f32) -> Option<f64> {
    let elapsed = f64::from(seconds.clamp(0.0, MAX_STEP));
    let release = |reference: Scalar| n(value(reference) * RELEASE_PER_SECOND.powf(-elapsed));
    let floor = |peak: Scalar| n(value(peak) * QUIET_FLOOR);
    exposure.update(n(level), release, floor).map(value)
}

fn reference(exposure: AutoExposure) -> Option<f64> {
    exposure.reference().map(value)
}

/// How much of a level is shown: nothing where nothing is visible, and fading
/// below the quiet floor of the run.
fn visibility(exposure: AutoExposure, level: f64) -> f64 {
    if !exposure.visible(n(level)) {
        return 0.0;
    }
    let fraction = (level / (value(exposure.peak) * QUIET_FLOOR)).clamp(0.0, 1.0);
    let smooth = fraction * fraction * (3.0 - 2.0 * fraction);
    smooth * smooth
}

/// The level at a quantile of a field.
fn level(field: &[f32], quantile: f64) -> f64 {
    let widened = field.iter().map(|entry| n(f64::from(*entry))).collect();
    let samples = exposure_samples(&widened);
    let place = ((samples.len().max(1) - 1) as f64 * quantile).round() as usize;
    value(exposure_level(&samples, place))
}

#[test]
fn an_exposure_paints_the_same_picture_at_any_field_scale() {
    let scale = 118.0;
    let mut levels = vec![0.0, 1.0e-3, 6.0e-3, 4.0e-3, 6.2e-3, 5.9e-3, 2.0e-2];
    let mut decaying = 2.0e-2;
    for _ in 0..40 {
        decaying *= 0.5;
        levels.push(decaying);
    }
    let mut quiet = fresh();
    let mut loud = fresh();
    let mut floored = false;
    for level in levels {
        let (Some(a), Some(b)) =
            (update(&mut quiet, level, 0.1), update(&mut loud, level * scale, 0.1))
        else {
            assert_eq!(level, 0.0, "a measured level produced no reference");
            continue;
        };
        floored |= a > level * 2.0;
        let probe = level * 0.7;
        assert!(
            (probe / a - probe * scale / b).abs() < 1.0e-9 * (probe / a).max(1.0e-9),
            "{level}: {a} against {b}"
        );
        assert!(
            (visibility(quiet, level) - visibility(loud, level * scale)).abs() < 1.0e-12,
            "the quiet-tail fade changed with absolute field scale"
        );
    }
    assert!(floored, "the run never reached the quiet floor");
}

#[test]
fn an_exposure_recovers_after_a_transient_spike() {
    let mut exposure = fresh();
    for _ in 0..120 {
        update(&mut exposure, 1.0, 1.0 / 60.0);
    }
    assert_eq!(update(&mut exposure, 20.0, 1.0 / 60.0), Some(20.0), "clipped");
    for _ in 0..1_500 {
        update(&mut exposure, 1.0, 1.0 / 60.0);
    }
    assert_eq!(reference(exposure), Some(1.0));
}

#[test]
fn a_field_that_drains_away_stops_being_painted() {
    let mut exposure = fresh();
    for _ in 0..600 {
        update(&mut exposure, 3.0e-2, 1.0 / 60.0);
    }
    let mut level = 3.0e-2;
    for _ in 0..480 {
        level *= 0.985_7;
        update(&mut exposure, level, 1.0 / 60.0);
    }
    let painted = level / reference(exposure).unwrap();
    assert!(level < 3.0e-5, "the fixture did not actually drain: {level:e}");
    assert!(painted < 0.05, "a drained domain still paints at {:.1}%", painted * 100.0);
}

#[test]
fn an_exposure_refuses_to_magnify_decayed_noise() {
    let mut exposure = fresh();
    update(&mut exposure, 1.0, 1.0 / 60.0);
    for _ in 0..3_600 {
        update(&mut exposure, 1.0e-9, 1.0 / 60.0);
    }
    let floor = reference(exposure).unwrap();
    assert!((floor - QUIET_FLOOR).abs() < 1.0e-12, "{floor}");
    assert!(1.0e-9 / floor < 1.0e-5, "noise would still be drawn");
    assert!(visibility(exposure, 1.0e-9) < 1.0e-10, "late residue was not faded out");
}

#[test]
fn nothing_is_visible_without_a_level_or_a_run() {
    let mut exposure = fresh();
    assert!(!exposure.visible(n(1.0)), "nothing has run yet");
    update(&mut exposure, 1.0, 0.0);
    assert!(exposure.visible(n(QUIET_FLOOR)));
    assert!(!exposure.visible(n(0.0)));
    assert!(!exposure.visible(n(f64::NAN)));
    assert!(!exposure.visible(n(f64::INFINITY)));
}

#[test]
fn an_exposure_releases_by_wall_clock_not_by_frame_count() {
    let mut coarse = fresh();
    let mut fine = fresh();
    update(&mut coarse, 10.0, 0.016);
    update(&mut fine, 10.0, 0.016);
    update(&mut coarse, 1.0, 0.5);
    update(&mut coarse, 1.0, 0.5);
    for _ in 0..100 {
        update(&mut fine, 1.0, 0.01);
    }
    let (a, b) = (reference(coarse).unwrap(), reference(fine).unwrap());
    assert!((a - b).abs() < a * 1.0e-6, "{a} against {b}");
}

#[test]
fn a_sampled_quantile_matches_the_sorted_one() {
    let values = (0..50_000).map(|index| index as f32 / 50_000.0).collect::<Vec<_>>();
    let found = level(&values, 0.98);
    assert!((found - 0.98).abs() < 0.01, "{found}");
    assert_eq!(level(&[0.0; 32], 0.98), 0.0);
    assert_eq!(level(&[], 0.98), 0.0);
    let broken = [f32::NAN, f32::INFINITY, -3.0, 1.0];
    assert_eq!(level(&broken, 0.5), 3.0);
}

#[test]
fn a_large_field_is_measured_at_equal_strides() {
    let values: Vec<Scalar> = (0..2 * EXPOSURE_SAMPLES).map(|index| n(-(index as f64))).collect();
    let samples = exposure_samples(&values);
    assert_eq!(samples.len(), EXPOSURE_SAMPLES);
    assert_eq!(samples[3], n(6.0));
    assert_eq!(nth_sample(&samples, 0), n(0.0));
    assert_eq!(nth_sample(&samples, 10), n(20.0));
    let shuffled = vec![n(5.0), n(1.0), n(4.0), n(1.0), n(2.0)];
    let order: Vec<f64> = (0..5).map(|place| value(nth_sample(&shuffled, place))).collect();
    assert_eq!(order, vec![1.0, 1.0, 2.0, 4.0, 5.0]);
}

#[test]
fn clearing_forgets_the_run_and_restarting_keeps_it() {
    let mut exposure = fresh();
    update(&mut exposure, 0.71, 0.016);
    let mut restarted = exposure;
    restarted.restart();
    assert_eq!(restarted.reference(), None);
    assert_eq!(restarted.peak, n(0.71));
    exposure.clear();
    assert_eq!(exposure, fresh());
}

#[test]
fn a_restarted_scale_does_not_latch_onto_the_first_dust() {
    let mut exposure = fresh();
    update(&mut exposure, 3.0e-2, 0.016);
    exposure.restart();
    let dust = 3.5e-10;
    let reference = update(&mut exposure, dust, 0.016).unwrap();
    assert!(dust / reference < 1.0e-4, "dust painted at {:.0}%", 100.0 * dust / reference);
    assert_eq!(update(&mut exposure, 2.0e-2, 0.016), Some(2.0e-2));
}

#[test]
fn the_scale_never_falls_faster_than_the_release_rate() {
    let mut exposure = fresh();
    let mut level = 1.0_f64;
    let step = 1.0_f32 / 60.0;
    let mut previous = update(&mut exposure, level, step).unwrap();
    for _ in 0..1_200 {
        level *= 0.98;
        let reference = update(&mut exposure, level, step).unwrap();
        let allowed = previous * RELEASE_PER_SECOND.powf(-f64::from(step));
        assert!(
            reference >= allowed * (1.0 - 1.0e-12),
            "the scale fell to {reference:e} when {allowed:e} was the floor"
        );
        previous = reference;
    }
}

#[test]
fn a_level_that_is_no_measurement_changes_nothing() {
    let mut exposure = fresh();
    update(&mut exposure, 2.0, 0.016);
    for level in [0.0, -1.0, f64::NAN, f64::INFINITY] {
        assert_eq!(update(&mut exposure, level, 0.5), Some(2.0));
    }
    assert_eq!(exposure.peak, n(2.0));
}

#[test]
fn turning_auto_exposure_off_restores_the_plain_gain() {
    let scale = |gain: f64, reference: Option<f64>, automatic: bool| {
        let relative = reference.map(|reference| n(gain * FIELD_EXPOSURE_GAIN / reference));
        value(field_scale(n(gain), automatic, relative))
    };
    assert_eq!(scale(2.0, Some(0.02), false), 2.0);
    assert_eq!(scale(0.25, None, false), 0.25);
    let quiet = scale(2.0, Some(6.0e-3), true) * 6.0e-3;
    let loud = scale(2.0, Some(7.1e-1), true) * 7.1e-1;
    assert!((quiet - loud).abs() < 1.0e-12);
    assert_eq!(scale(2.0, None, true), 0.0);
}

#[test]
fn exposure_fades_smoothly_below_its_run_relative_floor() {
    let mut exposure = fresh();
    update(&mut exposure, 1.0, 0.0);
    assert_eq!(visibility(exposure, QUIET_FLOOR), 1.0);
    let tenth = visibility(exposure, QUIET_FLOOR * 0.1);
    assert!((0.0..1.0e-3).contains(&tenth), "weak fade {tenth}");
    assert_eq!(visibility(exposure, 0.0), 0.0);
    assert_eq!(visibility(exposure, f64::NAN), 0.0);
}

#[test]
fn measured_damped_tail_is_not_renormalized_into_a_field() {
    let mut exposure = fresh();
    update(&mut exposure, 1.0, 0.0);
    let tail = 3.0e-3;
    for _ in 0..6_000 {
        update(&mut exposure, tail, 1.0 / 60.0);
    }
    let painted = tail / reference(exposure).unwrap() * visibility(exposure, tail);
    assert!(painted < 0.02, "tail still paints at {painted:.3}");
}

fn scales() -> DisplayScales {
    DisplayScales {
        field: fresh(),
        arrows: fresh(),
        integrated: false,
        history: ArrowHistory::new(),
    }
}

#[test]
fn switching_to_or_from_the_integrated_field_starts_its_scale_again() {
    let mut scales = scales();
    scales.follow_field_quantity(true);
    update(&mut scales.field, 34.8, 0.016);
    scales.follow_field_quantity(true);
    assert_eq!(reference(scales.field), Some(34.8));
    scales.follow_field_quantity(false);
    let rate = 0.3;
    assert_eq!(update(&mut scales.field, rate, 0.016), Some(rate));
    assert_eq!(visibility(scales.field, rate), 1.0);
}

#[test]
fn a_mesh_handoff_leaves_the_scale_alone() {
    let mut scales = scales();
    update(&mut scales.field, 0.71, 0.016);
    update(&mut scales.arrows, 0.71, 0.016);
    scales.history.remember(
        VectorOverlayAcOwner { mesh_revision: 3, physics: PhysicsModel::Mechanical },
        4,
        VectorAcState {
            input: Point2 { x: n(1.0), y: n(0.0) },
            output: Point2 { x: n(0.2), y: n(0.0) },
            step: 10,
            time: n(0.1),
            origin: Point2 { x: n(20.0), y: n(30.0) },
        },
    );
    scales.restart_exposures_after_handoff(false);
    assert_eq!(reference(scales.field), Some(0.71));
    assert_eq!(reference(scales.arrows), Some(0.71));
    assert_eq!(scales.history.states.len(), 1);

    // A field replaced with zeros starts the scale again.
    scales.restart_exposures_after_handoff(true);
    assert_eq!(reference(scales.field), None);
    assert_eq!(reference(scales.arrows), None);
    assert!(scales.history.states.is_empty());
    assert_eq!(scales.history.owner, None);
    assert_eq!(value(scales.field.peak), 0.71);
}

#[test]
fn the_order_of_the_values_leaves_the_level_alone() {
    let one: Vec<Scalar> = vec![n(0.5), n(-3.0), n(f64::NAN), n(1.5), n(0.25)];
    let other: Vec<Scalar> = vec![n(1.5), n(0.25), n(0.5), n(-3.0), n(f64::NAN)];
    for place in 0..4 {
        let level = exposure_level(&exposure_samples(&one), place);
        assert_eq!(level, exposure_level(&exposure_samples(&other), place));
    }
    assert_eq!(value(exposure_level(&exposure_samples(&one), 3)), 3.0);
}
