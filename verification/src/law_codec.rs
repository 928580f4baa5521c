//! The stored form of coefficients and of the laws of materials. A law is read
//! back unless a formula in it is refused; then the first refusal, in the order
//! in which the file lists the formulas, is what is said.

use crate::collect::either_issue;
use crate::model::{
    CoefficientLaw, DampingLaw, FieldLaw, LossChannel, RateLaw, RestoringLaw, ScalarField,
    TimeDrive,
};
use crate::stored::{
    StoredCoefficientLaw, StoredDampingLaw, StoredFieldLaw, StoredLossChannel, StoredRateLaw,
    StoredRestoringLaw, StoredScalarField, StoredTimeDrive,
};
use vstd::prelude::*;

verus! {

/// What the engine makes of formulas and of laws.
pub ghost struct LawReading {
    /// What is wrong with the source of a formula, if anything.
    pub issue: spec_fn(String) -> Option<String>,
    /// The normal form of a coefficient law.
    pub normal: spec_fn(CoefficientLaw) -> CoefficientLaw,
}

/// The engine's part in reading laws: `check` says what is wrong with the source
/// of a formula, and `normalize` puts a coefficient law into its normal form.
pub struct LawReader<C, N> {
    pub check: C,
    pub normalize: N,
}

impl<C: Fn(&String) -> Option<String>, N: Fn(CoefficientLaw) -> CoefficientLaw> LawReader<C, N> {
    /// Whether both functions answer for every argument, and always in the same
    /// way.
    pub open spec fn wf(self) -> bool {
        &&& forall|source: &String| call_requires(self.check, (source,))
        &&& forall|source: &String, one: Option<String>, other: Option<String>|
            call_ensures(self.check, (source,), one) && call_ensures(self.check, (source,), other)
                ==> one == other
        &&& forall|law: CoefficientLaw| call_requires(self.normalize, (law,))
        &&& forall|law: CoefficientLaw, one: CoefficientLaw, other: CoefficientLaw|
            call_ensures(self.normalize, (law,), one) && call_ensures(self.normalize, (law,), other)
                ==> one == other
    }

    pub open spec fn issue_of(self, source: String) -> Option<String> {
        choose|issue: Option<String>| call_ensures(self.check, (&source,), issue)
    }

    pub open spec fn normal_form(self, law: CoefficientLaw) -> CoefficientLaw {
        choose|normal: CoefficientLaw| call_ensures(self.normalize, (law,), normal)
    }

    /// Both functions, as the specifications speak of them.
    pub open spec fn reading(self) -> LawReading {
        LawReading {
            issue: |source: String| self.issue_of(source),
            normal: |law: CoefficientLaw| self.normal_form(law),
        }
    }

    fn formula_issue(&self, source: &String) -> (result: Option<String>)
        requires
            self.wf(),
        ensures
            result == (self.reading().issue)(*source),
    {
        (self.check)(source)
    }

    fn normalized(&self, law: CoefficientLaw) -> (result: CoefficientLaw)
        requires
            self.wf(),
        ensures
            result == (self.reading().normal)(law),
    {
        (self.normalize)(law)
    }
}

pub open spec fn stored_scalar_field(value: ScalarField) -> StoredScalarField {
    match value {
        ScalarField::Constant(value) => StoredScalarField::Constant { value },
        ScalarField::Formula(source) => StoredScalarField::Formula { source },
    }
}

pub open spec fn plain_scalar_field(stored: StoredScalarField) -> ScalarField {
    match stored {
        StoredScalarField::Constant { value } => ScalarField::Constant(value),
        StoredScalarField::Formula { source } => ScalarField::Formula(source),
    }
}

pub open spec fn scalar_field_issue(stored: StoredScalarField, reading: LawReading) -> Option<String> {
    match stored {
        StoredScalarField::Constant { .. } => None,
        StoredScalarField::Formula { source } => (reading.issue)(source),
    }
}

pub fn encode_scalar_field(value: &ScalarField) -> (result: StoredScalarField)
    ensures
        result == stored_scalar_field(*value),
{
    match value {
        ScalarField::Constant(value) => StoredScalarField::Constant { value: *value },
        ScalarField::Formula(source) => StoredScalarField::Formula {
            source: source.clone(),
        },
    }
}

pub fn decode_scalar_field<C, N>(
    stored: &StoredScalarField,
    reader: &LawReader<C, N>,
) -> (result: Result<ScalarField, String>) where
    C: Fn(&String) -> Option<String>,
    N: Fn(CoefficientLaw) -> CoefficientLaw,

    requires
        reader.wf(),
    ensures
        result == (match scalar_field_issue(*stored, reader.reading()) {
            Some(issue) => Err(issue),
            None => Ok(plain_scalar_field(*stored)),
        }),
{
    match stored {
        StoredScalarField::Constant { value } => Ok(ScalarField::Constant(*value)),
        StoredScalarField::Formula { source } => match reader.formula_issue(source) {
            Some(issue) => Err(issue),
            None => Ok(ScalarField::Formula(source.clone())),
        },
    }
}

/// Comes back from its stored form as it was, and is refused there only for its
/// own formula.
pub proof fn scalar_field_survives_the_file(value: ScalarField, reading: LawReading)
    ensures
        scalar_field_issue(stored_scalar_field(value), reading) == (match value {
            ScalarField::Constant(_) => None,
            ScalarField::Formula(source) => (reading.issue)(source),
        }),
        plain_scalar_field(stored_scalar_field(value)) == value,
{
}

pub open spec fn stored_optional_field(value: Option<ScalarField>) -> Option<StoredScalarField> {
    match value {
        Some(field) => Some(stored_scalar_field(field)),
        None => None,
    }
}

pub open spec fn plain_optional_field(stored: Option<StoredScalarField>) -> Option<ScalarField> {
    match stored {
        Some(field) => Some(plain_scalar_field(field)),
        None => None,
    }
}

pub open spec fn optional_field_issue(stored: Option<StoredScalarField>, reading: LawReading) -> Option<String> {
    match stored {
        Some(field) => scalar_field_issue(field, reading),
        None => None,
    }
}

pub fn encode_optional_field(value: &Option<ScalarField>) -> (result: Option<StoredScalarField>)
    ensures
        result == stored_optional_field(*value),
{
    match value {
        Some(field) => Some(encode_scalar_field(field)),
        None => None,
    }
}

pub fn decode_optional_field<C, N>(
    stored: &Option<StoredScalarField>,
    reader: &LawReader<C, N>,
) -> (result: Result<Option<ScalarField>, String>) where
    C: Fn(&String) -> Option<String>,
    N: Fn(CoefficientLaw) -> CoefficientLaw,

    requires
        reader.wf(),
    ensures
        result == (match optional_field_issue(*stored, reader.reading()) {
            Some(issue) => Err(issue),
            None => Ok(plain_optional_field(*stored)),
        }),
{
    match stored {
        Some(field) => match decode_scalar_field(field, reader) {
            Ok(field) => Ok(Some(field)),
            Err(issue) => Err(issue),
        },
        None => Ok(None),
    }
}

/// Comes back from its stored form as it was.
pub proof fn optional_field_survives_the_file(value: Option<ScalarField>)
    ensures
        plain_optional_field(stored_optional_field(value)) == value,
{
}

pub open spec fn stored_field_law(value: FieldLaw) -> StoredFieldLaw {
    match value {
        FieldLaw::Linear => StoredFieldLaw::Linear,
        FieldLaw::Polynomial { chi1, chi2, amplitude_bound } => StoredFieldLaw::Polynomial {
            chi1: stored_scalar_field(chi1),
            chi2: stored_scalar_field(chi2),
            amplitude_bound: stored_optional_field(amplitude_bound),
        },
        FieldLaw::Saturable { chi, saturation } => StoredFieldLaw::Saturable {
            chi: stored_scalar_field(chi),
            saturation: stored_scalar_field(saturation),
        },
    }
}

pub open spec fn plain_field_law(stored: StoredFieldLaw) -> FieldLaw {
    match stored {
        StoredFieldLaw::Linear => FieldLaw::Linear,
        StoredFieldLaw::Polynomial { chi1, chi2, amplitude_bound } => FieldLaw::Polynomial {
            chi1: plain_scalar_field(chi1),
            chi2: plain_scalar_field(chi2),
            amplitude_bound: plain_optional_field(amplitude_bound),
        },
        StoredFieldLaw::Saturable { chi, saturation } => FieldLaw::Saturable {
            chi: plain_scalar_field(chi),
            saturation: plain_scalar_field(saturation),
        },
    }
}

pub open spec fn field_law_issue(stored: StoredFieldLaw, reading: LawReading) -> Option<String> {
    match stored {
        StoredFieldLaw::Linear => None,
        StoredFieldLaw::Polynomial { chi1, chi2, amplitude_bound } => either_issue(scalar_field_issue(chi1, reading), either_issue(scalar_field_issue(chi2, reading), optional_field_issue(amplitude_bound, reading))),
        StoredFieldLaw::Saturable { chi, saturation } => either_issue(scalar_field_issue(chi, reading), scalar_field_issue(saturation, reading)),
    }
}

pub fn encode_field_law(value: &FieldLaw) -> (result: StoredFieldLaw)
    ensures
        result == stored_field_law(*value),
{
    match value {
        FieldLaw::Linear => StoredFieldLaw::Linear,
        FieldLaw::Polynomial { chi1, chi2, amplitude_bound } => StoredFieldLaw::Polynomial {
            chi1: encode_scalar_field(chi1),
            chi2: encode_scalar_field(chi2),
            amplitude_bound: encode_optional_field(amplitude_bound),
        },
        FieldLaw::Saturable { chi, saturation } => StoredFieldLaw::Saturable {
            chi: encode_scalar_field(chi),
            saturation: encode_scalar_field(saturation),
        },
    }
}

pub fn decode_field_law<C, N>(
    stored: &StoredFieldLaw,
    reader: &LawReader<C, N>,
) -> (result: Result<FieldLaw, String>) where
    C: Fn(&String) -> Option<String>,
    N: Fn(CoefficientLaw) -> CoefficientLaw,

    requires
        reader.wf(),
    ensures
        result == (match field_law_issue(*stored, reader.reading()) {
            Some(issue) => Err(issue),
            None => Ok(plain_field_law(*stored)),
        }),
{
    match stored {
        StoredFieldLaw::Linear => Ok(FieldLaw::Linear),
        StoredFieldLaw::Polynomial { chi1, chi2, amplitude_bound } => {
            let chi1 = match decode_scalar_field(chi1, reader) {
                Ok(value) => value,
                Err(issue) => {
                    return Err(issue);
                },
            };
            let chi2 = match decode_scalar_field(chi2, reader) {
                Ok(value) => value,
                Err(issue) => {
                    return Err(issue);
                },
            };
            let amplitude_bound = match decode_optional_field(amplitude_bound, reader) {
                Ok(value) => value,
                Err(issue) => {
                    return Err(issue);
                },
            };
            Ok(FieldLaw::Polynomial { chi1, chi2, amplitude_bound })
        },
        StoredFieldLaw::Saturable { chi, saturation } => {
            let chi = match decode_scalar_field(chi, reader) {
                Ok(value) => value,
                Err(issue) => {
                    return Err(issue);
                },
            };
            let saturation = match decode_scalar_field(saturation, reader) {
                Ok(value) => value,
                Err(issue) => {
                    return Err(issue);
                },
            };
            Ok(FieldLaw::Saturable { chi, saturation })
        },
    }
}

/// Comes back from its stored form as it was.
pub proof fn field_law_survives_the_file(value: FieldLaw)
    ensures
        plain_field_law(stored_field_law(value)) == value,
{
}

pub open spec fn stored_time_drive(value: TimeDrive) -> StoredTimeDrive {
    match value {
        TimeDrive::Absent => StoredTimeDrive::Absent,
        TimeDrive::ParametricPump { depth, frequency_hz, phase_radians } => StoredTimeDrive::ParametricPump {
            depth: stored_scalar_field(depth),
            frequency_hz: stored_scalar_field(frequency_hz),
            phase_radians: stored_scalar_field(phase_radians),
        },
        TimeDrive::TimeCrystal { depth, frequency_hz, phase_radians, sharpness } => StoredTimeDrive::TimeCrystal {
            depth: stored_scalar_field(depth),
            frequency_hz: stored_scalar_field(frequency_hz),
            phase_radians: stored_scalar_field(phase_radians),
            sharpness: stored_scalar_field(sharpness),
        },
        TimeDrive::TravellingModulation { depth, frequency_hz, phase_radians, wavenumber, angle_radians } => StoredTimeDrive::TravellingModulation {
            depth: stored_scalar_field(depth),
            frequency_hz: stored_scalar_field(frequency_hz),
            phase_radians: stored_scalar_field(phase_radians),
            wavenumber: stored_scalar_field(wavenumber),
            angle_radians: stored_scalar_field(angle_radians),
        },
    }
}

pub open spec fn plain_time_drive(stored: StoredTimeDrive) -> TimeDrive {
    match stored {
        StoredTimeDrive::Absent => TimeDrive::Absent,
        StoredTimeDrive::ParametricPump { depth, frequency_hz, phase_radians } => TimeDrive::ParametricPump {
            depth: plain_scalar_field(depth),
            frequency_hz: plain_scalar_field(frequency_hz),
            phase_radians: plain_scalar_field(phase_radians),
        },
        StoredTimeDrive::TimeCrystal { depth, frequency_hz, phase_radians, sharpness } => TimeDrive::TimeCrystal {
            depth: plain_scalar_field(depth),
            frequency_hz: plain_scalar_field(frequency_hz),
            phase_radians: plain_scalar_field(phase_radians),
            sharpness: plain_scalar_field(sharpness),
        },
        StoredTimeDrive::TravellingModulation { depth, frequency_hz, phase_radians, wavenumber, angle_radians } => TimeDrive::TravellingModulation {
            depth: plain_scalar_field(depth),
            frequency_hz: plain_scalar_field(frequency_hz),
            phase_radians: plain_scalar_field(phase_radians),
            wavenumber: plain_scalar_field(wavenumber),
            angle_radians: plain_scalar_field(angle_radians),
        },
    }
}

pub open spec fn time_drive_issue(stored: StoredTimeDrive, reading: LawReading) -> Option<String> {
    match stored {
        StoredTimeDrive::Absent => None,
        StoredTimeDrive::ParametricPump { depth, frequency_hz, phase_radians } => either_issue(scalar_field_issue(depth, reading), either_issue(scalar_field_issue(frequency_hz, reading), scalar_field_issue(phase_radians, reading))),
        StoredTimeDrive::TimeCrystal { depth, frequency_hz, phase_radians, sharpness } => either_issue(scalar_field_issue(depth, reading), either_issue(scalar_field_issue(frequency_hz, reading), either_issue(scalar_field_issue(phase_radians, reading), scalar_field_issue(sharpness, reading)))),
        StoredTimeDrive::TravellingModulation { depth, frequency_hz, phase_radians, wavenumber, angle_radians } => either_issue(scalar_field_issue(depth, reading), either_issue(scalar_field_issue(frequency_hz, reading), either_issue(scalar_field_issue(phase_radians, reading), either_issue(scalar_field_issue(wavenumber, reading), scalar_field_issue(angle_radians, reading))))),
    }
}

pub fn encode_time_drive(value: &TimeDrive) -> (result: StoredTimeDrive)
    ensures
        result == stored_time_drive(*value),
{
    match value {
        TimeDrive::Absent => StoredTimeDrive::Absent,
        TimeDrive::ParametricPump { depth, frequency_hz, phase_radians } => StoredTimeDrive::ParametricPump {
            depth: encode_scalar_field(depth),
            frequency_hz: encode_scalar_field(frequency_hz),
            phase_radians: encode_scalar_field(phase_radians),
        },
        TimeDrive::TimeCrystal { depth, frequency_hz, phase_radians, sharpness } => StoredTimeDrive::TimeCrystal {
            depth: encode_scalar_field(depth),
            frequency_hz: encode_scalar_field(frequency_hz),
            phase_radians: encode_scalar_field(phase_radians),
            sharpness: encode_scalar_field(sharpness),
        },
        TimeDrive::TravellingModulation { depth, frequency_hz, phase_radians, wavenumber, angle_radians } => StoredTimeDrive::TravellingModulation {
            depth: encode_scalar_field(depth),
            frequency_hz: encode_scalar_field(frequency_hz),
            phase_radians: encode_scalar_field(phase_radians),
            wavenumber: encode_scalar_field(wavenumber),
            angle_radians: encode_scalar_field(angle_radians),
        },
    }
}

pub fn decode_time_drive<C, N>(
    stored: &StoredTimeDrive,
    reader: &LawReader<C, N>,
) -> (result: Result<TimeDrive, String>) where
    C: Fn(&String) -> Option<String>,
    N: Fn(CoefficientLaw) -> CoefficientLaw,

    requires
        reader.wf(),
    ensures
        result == (match time_drive_issue(*stored, reader.reading()) {
            Some(issue) => Err(issue),
            None => Ok(plain_time_drive(*stored)),
        }),
{
    match stored {
        StoredTimeDrive::Absent => Ok(TimeDrive::Absent),
        StoredTimeDrive::ParametricPump { depth, frequency_hz, phase_radians } => {
            let depth = match decode_scalar_field(depth, reader) {
                Ok(value) => value,
                Err(issue) => {
                    return Err(issue);
                },
            };
            let frequency_hz = match decode_scalar_field(frequency_hz, reader) {
                Ok(value) => value,
                Err(issue) => {
                    return Err(issue);
                },
            };
            let phase_radians = match decode_scalar_field(phase_radians, reader) {
                Ok(value) => value,
                Err(issue) => {
                    return Err(issue);
                },
            };
            Ok(TimeDrive::ParametricPump { depth, frequency_hz, phase_radians })
        },
        StoredTimeDrive::TimeCrystal { depth, frequency_hz, phase_radians, sharpness } => {
            let depth = match decode_scalar_field(depth, reader) {
                Ok(value) => value,
                Err(issue) => {
                    return Err(issue);
                },
            };
            let frequency_hz = match decode_scalar_field(frequency_hz, reader) {
                Ok(value) => value,
                Err(issue) => {
                    return Err(issue);
                },
            };
            let phase_radians = match decode_scalar_field(phase_radians, reader) {
                Ok(value) => value,
                Err(issue) => {
                    return Err(issue);
                },
            };
            let sharpness = match decode_scalar_field(sharpness, reader) {
                Ok(value) => value,
                Err(issue) => {
                    return Err(issue);
                },
            };
            Ok(TimeDrive::TimeCrystal { depth, frequency_hz, phase_radians, sharpness })
        },
        StoredTimeDrive::TravellingModulation { depth, frequency_hz, phase_radians, wavenumber, angle_radians } => {
            let depth = match decode_scalar_field(depth, reader) {
                Ok(value) => value,
                Err(issue) => {
                    return Err(issue);
                },
            };
            let frequency_hz = match decode_scalar_field(frequency_hz, reader) {
                Ok(value) => value,
                Err(issue) => {
                    return Err(issue);
                },
            };
            let phase_radians = match decode_scalar_field(phase_radians, reader) {
                Ok(value) => value,
                Err(issue) => {
                    return Err(issue);
                },
            };
            let wavenumber = match decode_scalar_field(wavenumber, reader) {
                Ok(value) => value,
                Err(issue) => {
                    return Err(issue);
                },
            };
            let angle_radians = match decode_scalar_field(angle_radians, reader) {
                Ok(value) => value,
                Err(issue) => {
                    return Err(issue);
                },
            };
            Ok(TimeDrive::TravellingModulation { depth, frequency_hz, phase_radians, wavenumber, angle_radians })
        },
    }
}

/// Comes back from its stored form as it was.
pub proof fn time_drive_survives_the_file(value: TimeDrive)
    ensures
        plain_time_drive(stored_time_drive(value)) == value,
{
}

pub open spec fn stored_coefficient_law(value: CoefficientLaw) -> StoredCoefficientLaw {
    StoredCoefficientLaw {
        field: stored_field_law(value.field),
        drive: stored_time_drive(value.drive),
        alternate: stored_optional_field(value.alternate),
        inverted: value.inverted,
    }
}

pub open spec fn plain_coefficient_law(stored: StoredCoefficientLaw) -> CoefficientLaw {
    CoefficientLaw {
        field: plain_field_law(stored.field),
        drive: plain_time_drive(stored.drive),
        alternate: plain_optional_field(stored.alternate),
        inverted: stored.inverted,
    }
}

/// The law that is read: the normal form of the stored one.
pub open spec fn read_coefficient_law(
    stored: StoredCoefficientLaw,
    reading: LawReading,
) -> CoefficientLaw {
    (reading.normal)(plain_coefficient_law(stored))
}

pub open spec fn coefficient_law_issue(stored: StoredCoefficientLaw, reading: LawReading) -> Option<String> {
    either_issue(field_law_issue(stored.field, reading), either_issue(time_drive_issue(stored.drive, reading), optional_field_issue(stored.alternate, reading)))
}

pub fn encode_coefficient_law(value: &CoefficientLaw) -> (result: StoredCoefficientLaw)
    ensures
        result == stored_coefficient_law(*value),
{
    StoredCoefficientLaw {
        field: encode_field_law(&value.field),
        drive: encode_time_drive(&value.drive),
        alternate: encode_optional_field(&value.alternate),
        inverted: value.inverted,
    }
}

/// Reads a law. Every formula of it is read before the normal form is taken.
pub fn decode_coefficient_law<C, N>(
    stored: &StoredCoefficientLaw,
    reader: &LawReader<C, N>,
) -> (result: Result<CoefficientLaw, String>) where
    C: Fn(&String) -> Option<String>,
    N: Fn(CoefficientLaw) -> CoefficientLaw,

    requires
        reader.wf(),
    ensures
        result == (match coefficient_law_issue(*stored, reader.reading()) {
            Some(issue) => Err(issue),
            None => Ok(read_coefficient_law(*stored, reader.reading())),
        }),
{
    let field = match decode_field_law(&stored.field, reader) {
        Ok(value) => value,
        Err(issue) => {
            return Err(issue);
        },
    };
    let drive = match decode_time_drive(&stored.drive, reader) {
        Ok(value) => value,
        Err(issue) => {
            return Err(issue);
        },
    };
    let alternate = match decode_optional_field(&stored.alternate, reader) {
        Ok(value) => value,
        Err(issue) => {
            return Err(issue);
        },
    };
    Ok(reader.normalized(CoefficientLaw { field, drive, alternate, inverted: stored.inverted }))
}

/// A law in its normal form comes back from its stored form as it was.
pub proof fn coefficient_law_survives_the_file(value: CoefficientLaw, reading: LawReading)
    requires
        (reading.normal)(value) == value,
    ensures
        read_coefficient_law(stored_coefficient_law(value), reading) == value,
{
}

pub open spec fn stored_rate_law(value: RateLaw) -> StoredRateLaw {
    match value {
        RateLaw::Constant => StoredRateLaw::Constant,
        RateLaw::SaturableAbsorption { saturation } => StoredRateLaw::SaturableAbsorption {
            saturation: stored_scalar_field(saturation),
        },
        RateLaw::Polynomial { beta1, beta2, amplitude_bound } => StoredRateLaw::Polynomial {
            beta1: stored_scalar_field(beta1),
            beta2: stored_scalar_field(beta2),
            amplitude_bound: stored_optional_field(amplitude_bound),
        },
        RateLaw::VanDerPol { threshold, amplitude_bound } => StoredRateLaw::VanDerPol {
            threshold: stored_scalar_field(threshold),
            amplitude_bound: stored_scalar_field(amplitude_bound),
        },
    }
}

pub open spec fn plain_rate_law(stored: StoredRateLaw) -> RateLaw {
    match stored {
        StoredRateLaw::Constant => RateLaw::Constant,
        StoredRateLaw::SaturableAbsorption { saturation } => RateLaw::SaturableAbsorption {
            saturation: plain_scalar_field(saturation),
        },
        StoredRateLaw::Polynomial { beta1, beta2, amplitude_bound } => RateLaw::Polynomial {
            beta1: plain_scalar_field(beta1),
            beta2: plain_scalar_field(beta2),
            amplitude_bound: plain_optional_field(amplitude_bound),
        },
        StoredRateLaw::VanDerPol { threshold, amplitude_bound } => RateLaw::VanDerPol {
            threshold: plain_scalar_field(threshold),
            amplitude_bound: plain_scalar_field(amplitude_bound),
        },
    }
}

pub open spec fn rate_law_issue(stored: StoredRateLaw, reading: LawReading) -> Option<String> {
    match stored {
        StoredRateLaw::Constant => None,
        StoredRateLaw::SaturableAbsorption { saturation } => scalar_field_issue(saturation, reading),
        StoredRateLaw::Polynomial { beta1, beta2, amplitude_bound } => either_issue(scalar_field_issue(beta1, reading), either_issue(scalar_field_issue(beta2, reading), optional_field_issue(amplitude_bound, reading))),
        StoredRateLaw::VanDerPol { threshold, amplitude_bound } => either_issue(scalar_field_issue(threshold, reading), scalar_field_issue(amplitude_bound, reading)),
    }
}

pub fn encode_rate_law(value: &RateLaw) -> (result: StoredRateLaw)
    ensures
        result == stored_rate_law(*value),
{
    match value {
        RateLaw::Constant => StoredRateLaw::Constant,
        RateLaw::SaturableAbsorption { saturation } => StoredRateLaw::SaturableAbsorption {
            saturation: encode_scalar_field(saturation),
        },
        RateLaw::Polynomial { beta1, beta2, amplitude_bound } => StoredRateLaw::Polynomial {
            beta1: encode_scalar_field(beta1),
            beta2: encode_scalar_field(beta2),
            amplitude_bound: encode_optional_field(amplitude_bound),
        },
        RateLaw::VanDerPol { threshold, amplitude_bound } => StoredRateLaw::VanDerPol {
            threshold: encode_scalar_field(threshold),
            amplitude_bound: encode_scalar_field(amplitude_bound),
        },
    }
}

pub fn decode_rate_law<C, N>(
    stored: &StoredRateLaw,
    reader: &LawReader<C, N>,
) -> (result: Result<RateLaw, String>) where
    C: Fn(&String) -> Option<String>,
    N: Fn(CoefficientLaw) -> CoefficientLaw,

    requires
        reader.wf(),
    ensures
        result == (match rate_law_issue(*stored, reader.reading()) {
            Some(issue) => Err(issue),
            None => Ok(plain_rate_law(*stored)),
        }),
{
    match stored {
        StoredRateLaw::Constant => Ok(RateLaw::Constant),
        StoredRateLaw::SaturableAbsorption { saturation } => {
            let saturation = match decode_scalar_field(saturation, reader) {
                Ok(value) => value,
                Err(issue) => {
                    return Err(issue);
                },
            };
            Ok(RateLaw::SaturableAbsorption { saturation })
        },
        StoredRateLaw::Polynomial { beta1, beta2, amplitude_bound } => {
            let beta1 = match decode_scalar_field(beta1, reader) {
                Ok(value) => value,
                Err(issue) => {
                    return Err(issue);
                },
            };
            let beta2 = match decode_scalar_field(beta2, reader) {
                Ok(value) => value,
                Err(issue) => {
                    return Err(issue);
                },
            };
            let amplitude_bound = match decode_optional_field(amplitude_bound, reader) {
                Ok(value) => value,
                Err(issue) => {
                    return Err(issue);
                },
            };
            Ok(RateLaw::Polynomial { beta1, beta2, amplitude_bound })
        },
        StoredRateLaw::VanDerPol { threshold, amplitude_bound } => {
            let threshold = match decode_scalar_field(threshold, reader) {
                Ok(value) => value,
                Err(issue) => {
                    return Err(issue);
                },
            };
            let amplitude_bound = match decode_scalar_field(amplitude_bound, reader) {
                Ok(value) => value,
                Err(issue) => {
                    return Err(issue);
                },
            };
            Ok(RateLaw::VanDerPol { threshold, amplitude_bound })
        },
    }
}

/// Comes back from its stored form as it was.
pub proof fn rate_law_survives_the_file(value: RateLaw)
    ensures
        plain_rate_law(stored_rate_law(value)) == value,
{
}

pub open spec fn stored_damping_law(value: DampingLaw) -> StoredDampingLaw {
    StoredDampingLaw {
        rate: stored_rate_law(value.rate),
        drive: stored_time_drive(value.drive),
    }
}

pub open spec fn plain_damping_law(stored: StoredDampingLaw) -> DampingLaw {
    DampingLaw {
        rate: plain_rate_law(stored.rate),
        drive: plain_time_drive(stored.drive),
    }
}

pub open spec fn damping_law_issue(stored: StoredDampingLaw, reading: LawReading) -> Option<String> {
    either_issue(rate_law_issue(stored.rate, reading), time_drive_issue(stored.drive, reading))
}

pub fn encode_damping_law(value: &DampingLaw) -> (result: StoredDampingLaw)
    ensures
        result == stored_damping_law(*value),
{
    StoredDampingLaw {
        rate: encode_rate_law(&value.rate),
        drive: encode_time_drive(&value.drive),
    }
}

pub fn decode_damping_law<C, N>(
    stored: &StoredDampingLaw,
    reader: &LawReader<C, N>,
) -> (result: Result<DampingLaw, String>) where
    C: Fn(&String) -> Option<String>,
    N: Fn(CoefficientLaw) -> CoefficientLaw,

    requires
        reader.wf(),
    ensures
        result == (match damping_law_issue(*stored, reader.reading()) {
            Some(issue) => Err(issue),
            None => Ok(plain_damping_law(*stored)),
        }),
{
    let rate = match decode_rate_law(&stored.rate, reader) {
        Ok(value) => value,
        Err(issue) => {
            return Err(issue);
        },
    };
    let drive = match decode_time_drive(&stored.drive, reader) {
        Ok(value) => value,
        Err(issue) => {
            return Err(issue);
        },
    };
    Ok(DampingLaw { rate, drive })
}

/// Comes back from its stored form as it was.
pub proof fn damping_law_survives_the_file(value: DampingLaw)
    ensures
        plain_damping_law(stored_damping_law(value)) == value,
{
}

pub open spec fn stored_loss_channel(value: LossChannel) -> StoredLossChannel {
    StoredLossChannel {
        base_rate: stored_scalar_field(value.base_rate),
        law: stored_damping_law(value.law),
    }
}

pub open spec fn plain_loss_channel(stored: StoredLossChannel) -> LossChannel {
    LossChannel {
        base_rate: plain_scalar_field(stored.base_rate),
        law: plain_damping_law(stored.law),
    }
}

pub open spec fn loss_channel_issue(stored: StoredLossChannel, reading: LawReading) -> Option<String> {
    either_issue(scalar_field_issue(stored.base_rate, reading), damping_law_issue(stored.law, reading))
}

pub fn encode_loss_channel(value: &LossChannel) -> (result: StoredLossChannel)
    ensures
        result == stored_loss_channel(*value),
{
    StoredLossChannel {
        base_rate: encode_scalar_field(&value.base_rate),
        law: encode_damping_law(&value.law),
    }
}

pub fn decode_loss_channel<C, N>(
    stored: &StoredLossChannel,
    reader: &LawReader<C, N>,
) -> (result: Result<LossChannel, String>) where
    C: Fn(&String) -> Option<String>,
    N: Fn(CoefficientLaw) -> CoefficientLaw,

    requires
        reader.wf(),
    ensures
        result == (match loss_channel_issue(*stored, reader.reading()) {
            Some(issue) => Err(issue),
            None => Ok(plain_loss_channel(*stored)),
        }),
{
    let base_rate = match decode_scalar_field(&stored.base_rate, reader) {
        Ok(value) => value,
        Err(issue) => {
            return Err(issue);
        },
    };
    let law = match decode_damping_law(&stored.law, reader) {
        Ok(value) => value,
        Err(issue) => {
            return Err(issue);
        },
    };
    Ok(LossChannel { base_rate, law })
}

/// Comes back from its stored form as it was.
pub proof fn loss_channel_survives_the_file(value: LossChannel)
    ensures
        plain_loss_channel(stored_loss_channel(value)) == value,
{
}

pub open spec fn stored_optional_loss(value: Option<LossChannel>) -> Option<StoredLossChannel> {
    match value {
        Some(loss) => Some(stored_loss_channel(loss)),
        None => None,
    }
}

pub open spec fn plain_optional_loss(stored: Option<StoredLossChannel>) -> Option<LossChannel> {
    match stored {
        Some(loss) => Some(plain_loss_channel(loss)),
        None => None,
    }
}

pub open spec fn optional_loss_issue(stored: Option<StoredLossChannel>, reading: LawReading) -> Option<String> {
    match stored {
        Some(loss) => loss_channel_issue(loss, reading),
        None => None,
    }
}

pub fn encode_optional_loss(value: &Option<LossChannel>) -> (result: Option<StoredLossChannel>)
    ensures
        result == stored_optional_loss(*value),
{
    match value {
        Some(loss) => Some(encode_loss_channel(loss)),
        None => None,
    }
}

pub fn decode_optional_loss<C, N>(
    stored: &Option<StoredLossChannel>,
    reader: &LawReader<C, N>,
) -> (result: Result<Option<LossChannel>, String>) where
    C: Fn(&String) -> Option<String>,
    N: Fn(CoefficientLaw) -> CoefficientLaw,

    requires
        reader.wf(),
    ensures
        result == (match optional_loss_issue(*stored, reader.reading()) {
            Some(issue) => Err(issue),
            None => Ok(plain_optional_loss(*stored)),
        }),
{
    match stored {
        Some(loss) => match decode_loss_channel(loss, reader) {
            Ok(loss) => Ok(Some(loss)),
            Err(issue) => Err(issue),
        },
        None => Ok(None),
    }
}

/// Comes back from its stored form as it was.
pub proof fn optional_loss_survives_the_file(value: Option<LossChannel>)
    ensures
        plain_optional_loss(stored_optional_loss(value)) == value,
{
}

pub open spec fn stored_restoring_law(value: RestoringLaw) -> StoredRestoringLaw {
    match value {
        RestoringLaw::Absent => StoredRestoringLaw::Absent,
        RestoringLaw::KleinGordon { omega0 } => StoredRestoringLaw::KleinGordon {
            omega0: stored_scalar_field(omega0),
        },
        RestoringLaw::SineGordon { omega0 } => StoredRestoringLaw::SineGordon {
            omega0: stored_scalar_field(omega0),
        },
        RestoringLaw::Phi4 { lambda, amplitude_bound } => StoredRestoringLaw::Phi4 {
            lambda: stored_scalar_field(lambda),
            amplitude_bound: stored_scalar_field(amplitude_bound),
        },
    }
}

pub open spec fn plain_restoring_law(stored: StoredRestoringLaw) -> RestoringLaw {
    match stored {
        StoredRestoringLaw::Absent => RestoringLaw::Absent,
        StoredRestoringLaw::KleinGordon { omega0 } => RestoringLaw::KleinGordon {
            omega0: plain_scalar_field(omega0),
        },
        StoredRestoringLaw::SineGordon { omega0 } => RestoringLaw::SineGordon {
            omega0: plain_scalar_field(omega0),
        },
        StoredRestoringLaw::Phi4 { lambda, amplitude_bound } => RestoringLaw::Phi4 {
            lambda: plain_scalar_field(lambda),
            amplitude_bound: plain_scalar_field(amplitude_bound),
        },
    }
}

pub open spec fn restoring_law_issue(stored: StoredRestoringLaw, reading: LawReading) -> Option<String> {
    match stored {
        StoredRestoringLaw::Absent => None,
        StoredRestoringLaw::KleinGordon { omega0 } => scalar_field_issue(omega0, reading),
        StoredRestoringLaw::SineGordon { omega0 } => scalar_field_issue(omega0, reading),
        StoredRestoringLaw::Phi4 { lambda, amplitude_bound } => either_issue(scalar_field_issue(lambda, reading), scalar_field_issue(amplitude_bound, reading)),
    }
}

pub fn encode_restoring_law(value: &RestoringLaw) -> (result: StoredRestoringLaw)
    ensures
        result == stored_restoring_law(*value),
{
    match value {
        RestoringLaw::Absent => StoredRestoringLaw::Absent,
        RestoringLaw::KleinGordon { omega0 } => StoredRestoringLaw::KleinGordon {
            omega0: encode_scalar_field(omega0),
        },
        RestoringLaw::SineGordon { omega0 } => StoredRestoringLaw::SineGordon {
            omega0: encode_scalar_field(omega0),
        },
        RestoringLaw::Phi4 { lambda, amplitude_bound } => StoredRestoringLaw::Phi4 {
            lambda: encode_scalar_field(lambda),
            amplitude_bound: encode_scalar_field(amplitude_bound),
        },
    }
}

pub fn decode_restoring_law<C, N>(
    stored: &StoredRestoringLaw,
    reader: &LawReader<C, N>,
) -> (result: Result<RestoringLaw, String>) where
    C: Fn(&String) -> Option<String>,
    N: Fn(CoefficientLaw) -> CoefficientLaw,

    requires
        reader.wf(),
    ensures
        result == (match restoring_law_issue(*stored, reader.reading()) {
            Some(issue) => Err(issue),
            None => Ok(plain_restoring_law(*stored)),
        }),
{
    match stored {
        StoredRestoringLaw::Absent => Ok(RestoringLaw::Absent),
        StoredRestoringLaw::KleinGordon { omega0 } => {
            let omega0 = match decode_scalar_field(omega0, reader) {
                Ok(value) => value,
                Err(issue) => {
                    return Err(issue);
                },
            };
            Ok(RestoringLaw::KleinGordon { omega0 })
        },
        StoredRestoringLaw::SineGordon { omega0 } => {
            let omega0 = match decode_scalar_field(omega0, reader) {
                Ok(value) => value,
                Err(issue) => {
                    return Err(issue);
                },
            };
            Ok(RestoringLaw::SineGordon { omega0 })
        },
        StoredRestoringLaw::Phi4 { lambda, amplitude_bound } => {
            let lambda = match decode_scalar_field(lambda, reader) {
                Ok(value) => value,
                Err(issue) => {
                    return Err(issue);
                },
            };
            let amplitude_bound = match decode_scalar_field(amplitude_bound, reader) {
                Ok(value) => value,
                Err(issue) => {
                    return Err(issue);
                },
            };
            Ok(RestoringLaw::Phi4 { lambda, amplitude_bound })
        },
    }
}

/// Comes back from its stored form as it was.
pub proof fn restoring_law_survives_the_file(value: RestoringLaw)
    ensures
        plain_restoring_law(stored_restoring_law(value)) == value,
{
}

} // verus!
