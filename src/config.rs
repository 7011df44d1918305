//! The SPDC configuration as the host handles it: built, written in the two
//! interchange formats, and changed by what the engine reads or optimises.
//! Every failure leaves the configuration as it was and comes back as one
//! error.
//!
//! The engine's readers and its searches (optimum idler, theta, poling period,
//! frequency range) can panic on inputs the configuration does not reveal: a
//! NaN cost in the minimiser, or an expression crystal naming an unknown
//! variable. The host makes those calls where it can catch that, and hands
//! their outcome to `from_read` or `adopt`.
use crate::error::{ErrorKind, SpdcError};
use vstd::prelude::*;

verus! {

/// An SPDC configuration, held by the engine.
#[derive(Clone, Debug)]
pub struct SPDC {
    pub engine: spdcalc::SPDC,
}

impl SPDC {
    /// The engine's default configuration.
    pub fn default() -> SPDC {
        SPDC { engine: engine_default() }
    }

    /// The configuration that reading a text gave: the engine's reading, or
    /// its message as a parse error.
    pub fn from_read(outcome: Result<spdcalc::SPDC, String>) -> (r: Result<SPDC, SpdcError>)
        ensures
            match outcome {
                Ok(s) => r is Ok && r->Ok_0.engine == s,
                Err(m) => r is Err && r->Err_0.kind == ErrorKind::Parse && r->Err_0.message@ == m@,
            },
    {
        match outcome {
            Ok(engine) => Ok(SPDC { engine }),
            Err(message) => Err(SpdcError::parse(message)),
        }
    }

    /// Write the configuration in the structured-text (YAML) format; this
    /// always succeeds.
    pub fn to_yaml(&self) -> (r: Result<String, SpdcError>)
        ensures
            r is Ok,
    {
        match write_yaml(&self.engine) {
            Ok(text) => Ok(text),
            Err(_) => Err(SpdcError::parse("the configuration could not be written".to_owned())),
        }
    }

    /// Write the configuration in JSON; this always succeeds.
    pub fn to_json(&self) -> (r: Result<String, SpdcError>)
        ensures
            r is Ok,
    {
        match write_json(&self.engine) {
            Ok(text) => Ok(text),
            Err(_) => Err(SpdcError::parse("the configuration could not be written".to_owned())),
        }
    }

    /// Take the outcome of an engine optimisation: on success the
    /// configuration becomes the engine's result; on failure it stays as it
    /// was and the error carries the engine's message.
    pub fn adopt(&mut self, outcome: Result<spdcalc::SPDC, spdcalc::SPDCError>) -> (r: Result<
        (),
        SpdcError,
    >)
        ensures
            match outcome {
                Ok(s) => r is Ok && final(self).engine == s,
                Err(e) => r is Err && r->Err_0.kind == ErrorKind::Engine && r->Err_0.message@
                    == e.0@ && *final(self) == *old(self),
            },
    {
        match outcome {
            Ok(engine) => {
                self.engine = engine;
                Ok(())
            },
            Err(e) => Err(SpdcError::from_engine(e)),
        }
    }

    /// Exchange the roles of signal and idler.
    pub fn with_swapped_signal_idler(&mut self) {
        self.engine = engine_swapped_signal_idler(&self.engine);
    }

    /// The phasematching type.
    pub fn crystal_pm_type(&self) -> spdcalc::PMType {
        engine_pm_type(&self.engine)
    }

    pub fn set_crystal_pm_type(&mut self, value: spdcalc::PMType) {
        engine_set_pm_type(&mut self.engine, value);
    }

    /// The crystal.
    pub fn crystal_kind(&self) -> spdcalc::CrystalType {
        engine_crystal_kind(&self.engine)
    }

    pub fn set_crystal_kind(&mut self, value: spdcalc::CrystalType) {
        engine_set_crystal_kind(&mut self.engine, value);
    }

    /// Whether signal and idler propagate against each other.
    pub fn counter_propagation(&self) -> bool {
        engine_counter_propagation(&self.engine)
    }

    pub fn set_counter_propagation(&mut self, value: bool) {
        engine_set_counter_propagation(&mut self.engine, value);
    }
}

/// What setting the poling period does to a configuration's poling.
#[derive(Clone, Debug, PartialEq)]
pub enum PolingChange<P> {
    /// No period given: poling is turned off.
    TurnOff,
    /// Poling was off: it starts with this period and no apodization.
    Start(P),
    /// Poling was on: only its period changes; the apodization stays.
    SetPeriod(P),
}

/// Decide what setting the poling period to `requested` does, given whether
/// poling is on.
pub fn poling_change<P>(requested: Option<P>, poling_on: bool) -> (r: PolingChange<P>)
    ensures
        match requested {
            None => r == PolingChange::<P>::TurnOff,
            Some(p) => if poling_on {
                r == PolingChange::SetPeriod(p)
            } else {
                r == PolingChange::Start(p)
            },
        },
{
    match requested {
        None => PolingChange::TurnOff,
        Some(p) => if poling_on {
            PolingChange::SetPeriod(p)
        } else {
            PolingChange::Start(p)
        },
    }
}

/// Relies on `Default` of `spdcalc::SPDC`.
#[verifier::external_body]
fn engine_default() -> spdcalc::SPDC {
    spdcalc::SPDC::default()
}

/// Relies on `serde_yaml::to_string` of the engine's flat `SPDCConfig`, a
/// derived `Serialize` of numbers, strings and lists, which always writes.
#[verifier::external_body]
fn write_yaml(s: &spdcalc::SPDC) -> (r: Result<String, serde_yaml::Error>)
    ensures
        r is Ok,
{
    serde_yaml::to_string(&spdcalc::SPDCConfig::from(s.clone()))
}

/// Relies on `serde_json::to_string` of the engine's flat `SPDCConfig`, a
/// derived `Serialize` with string keys only, which always writes.
#[verifier::external_body]
fn write_json(s: &spdcalc::SPDC) -> (r: Result<String, serde_json::Error>)
    ensures
        r is Ok,
{
    serde_json::to_string(&spdcalc::SPDCConfig::from(s.clone()))
}

/// Relies on `spdcalc::SPDC::with_swapped_signal_idler`.
#[verifier::external_body]
fn engine_swapped_signal_idler(s: &spdcalc::SPDC) -> spdcalc::SPDC {
    s.clone().with_swapped_signal_idler()
}

/// Relies on the public `crystal_setup.pm_type` field of `spdcalc::SPDC`.
#[verifier::external_body]
fn engine_pm_type(s: &spdcalc::SPDC) -> spdcalc::PMType {
    s.crystal_setup.pm_type
}

/// Relies on the public `crystal_setup.pm_type` field of `spdcalc::SPDC`.
#[verifier::external_body]
fn engine_set_pm_type(s: &mut spdcalc::SPDC, value: spdcalc::PMType) {
    s.crystal_setup.pm_type = value;
}

/// Relies on the public `crystal_setup.crystal` field of `spdcalc::SPDC`.
#[verifier::external_body]
fn engine_crystal_kind(s: &spdcalc::SPDC) -> spdcalc::CrystalType {
    s.crystal_setup.crystal.clone()
}

/// Relies on the public `crystal_setup.crystal` field of `spdcalc::SPDC`.
#[verifier::external_body]
fn engine_set_crystal_kind(s: &mut spdcalc::SPDC, value: spdcalc::CrystalType) {
    s.crystal_setup.crystal = value;
}

/// Relies on the public `crystal_setup.counter_propagation` field of `spdcalc::SPDC`.
#[verifier::external_body]
fn engine_counter_propagation(s: &spdcalc::SPDC) -> bool {
    s.crystal_setup.counter_propagation
}

/// Relies on the public `crystal_setup.counter_propagation` field of `spdcalc::SPDC`.
#[verifier::external_body]
fn engine_set_counter_propagation(s: &mut spdcalc::SPDC, value: bool) {
    s.crystal_setup.counter_propagation = value;
}

} // verus!
