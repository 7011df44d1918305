//! Declarations of the engine's types that the verified code carries.
//!
//! The engine's physical quantities are floating-point values with units
//! attached at the type level. The values that hold them stay opaque here:
//! the verified code only stores them and hands them back to the engine.
use spdcalc::math::Integrator as IntegrationMethod;
use spdcalc::CrystalType as EngineCrystalType;
use spdcalc::FrequencySpace as EngineFrequencySpace;
use spdcalc::PMType as EnginePmType;
use spdcalc::SPDC as EngineSpdc;
use spdcalc::SignalIdlerFrequencyArray as EngineFrequencyArray;
use spdcalc::SignalIdlerWavelengthArray as EngineWavelengthArray;
use spdcalc::SumDiffFrequencySpace as EngineSumDiffSpace;
use spdcalc::WavelengthSpace as EngineWavelengthSpace;
use vstd::prelude::*;

verus! {

/// A regular grid of signal/idler frequencies: opaque.
#[verifier::external_type_specification]
#[verifier::external_body]
pub struct ExFrequencySpace(EngineFrequencySpace);

/// A regular grid of signal/idler vacuum wavelengths: opaque.
#[verifier::external_type_specification]
#[verifier::external_body]
pub struct ExWavelengthSpace(EngineWavelengthSpace);

/// A regular grid over half the sum and half the difference of the signal
/// and idler frequencies: opaque.
#[verifier::external_type_specification]
#[verifier::external_body]
pub struct ExSumDiffFrequencySpace(EngineSumDiffSpace);

/// A flat list of frequencies: opaque.
#[verifier::external_type_specification]
#[verifier::external_body]
pub struct ExFrequencyArray(EngineFrequencyArray);

/// A flat list of vacuum wavelengths: opaque.
#[verifier::external_type_specification]
#[verifier::external_body]
pub struct ExWavelengthArray(EngineWavelengthArray);

/// The step counts (x axis, y axis) of the engine's frequency grid, its
/// `steps().0.2` and `steps().1.2`.
pub uninterp spec fn frequency_grid_counts(g: spdcalc::FrequencySpace) -> (nat, nat);

/// The step counts (x axis, y axis) of the engine's wavelength grid.
pub uninterp spec fn wavelength_grid_counts(g: spdcalc::WavelengthSpace) -> (nat, nat);

/// The step counts (x axis, y axis) of the engine's sum/difference grid.
pub uninterp spec fn sum_diff_grid_counts(g: spdcalc::SumDiffFrequencySpace) -> (nat, nat);

/// The number of values in the engine's frequency list (its public `Vec`).
pub uninterp spec fn frequency_list_len(a: spdcalc::SignalIdlerFrequencyArray) -> nat;

/// The number of values in the engine's wavelength list (its public `Vec`).
pub uninterp spec fn wavelength_list_len(a: spdcalc::SignalIdlerWavelengthArray) -> nat;

/// Relies on the derived `Clone` of the engine's frequency list, which clones
/// its `Vec`: the copy has as many values.
pub assume_specification[ <EngineFrequencyArray as std::clone::Clone>::clone ](
    a: &EngineFrequencyArray,
) -> (r: EngineFrequencyArray)
    ensures
        frequency_list_len(r) == frequency_list_len(*a),
;

/// Relies on the derived `Clone` of the engine's wavelength list, which
/// clones its `Vec`: the copy has as many values.
pub assume_specification[ <EngineWavelengthArray as std::clone::Clone>::clone ](
    a: &EngineWavelengthArray,
) -> (r: EngineWavelengthArray)
    ensures
        wavelength_list_len(r) == wavelength_list_len(*a),
;

/// The engine's numerical integration settings: a plain enum.
#[verifier::external_type_specification]
pub struct ExIntegrationMethod(IntegrationMethod);

/// The engine's error: a message.
#[verifier::external_type_specification]
pub struct ExEngineError(spdcalc::SPDCError);

/// The engine's SPDC configuration: opaque.
#[verifier::external_type_specification]
#[verifier::external_body]
pub struct ExSpdc(EngineSpdc);

/// Relies on the derived `Clone` of the engine's configuration.
pub assume_specification[ <EngineSpdc as std::clone::Clone>::clone ](s: &EngineSpdc) -> EngineSpdc;

/// The crystal of a configuration: opaque.
#[verifier::external_type_specification]
#[verifier::external_body]
pub struct ExCrystalType(EngineCrystalType);

/// The phasematching type: a plain enum of five variants.
#[verifier::external_type_specification]
pub struct ExPmType(EnginePmType);

/// The JSON codec's error: opaque.
#[verifier::external_type_specification]
#[verifier::external_body]
pub struct ExJsonError(serde_json::Error);

/// The YAML codec's error: opaque.
#[verifier::external_type_specification]
#[verifier::external_body]
pub struct ExYamlError(serde_yaml::Error);

} // verus!
