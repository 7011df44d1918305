//! Choice of the engine's numerical integration method.
use spdcalc::math::Integrator as IntegrationMethod;
use vstd::prelude::*;

verus! {

/// Divisions of Simpson's rule when none is given.
pub const DEFAULT_SIMPSON_DIVS: usize = 50;

/// Degree of Gauss-Legendre quadrature when none is given.
pub const DEFAULT_GAUSS_LEGENDRE_DEGREE: usize = 40;

/// An integration method and its settings, as the engine takes it.
#[derive(Clone, Copy, Debug)]
pub struct Integrator(pub IntegrationMethod);

impl Integrator {
    /// The engine's default method: Simpson's rule with 50 divisions.
    pub fn default() -> (r: Integrator)
        ensures
            r.0 == (IntegrationMethod::Simpson { divs: DEFAULT_SIMPSON_DIVS }),
    {
        Integrator(engine_default_integrator())
    }

    /// Simpson's rule with `divs` divisions, 50 when none is given.
    pub fn simpson(divs: Option<usize>) -> (r: Integrator)
        ensures
            r.0 == (IntegrationMethod::Simpson {
                divs: match divs {
                    Some(d) => d,
                    None => DEFAULT_SIMPSON_DIVS,
                },
            }),
    {
        let divs = match divs {
            Some(d) => d,
            None => DEFAULT_SIMPSON_DIVS,
        };
        Integrator(IntegrationMethod::Simpson { divs })
    }

    /// Gauss-Legendre quadrature of the given degree, 40 when none is given.
    pub fn gauss_legendre(degree: Option<usize>) -> (r: Integrator)
        ensures
            r.0 == (IntegrationMethod::GaussLegendre {
                degree: match degree {
                    Some(d) => d,
                    None => DEFAULT_GAUSS_LEGENDRE_DEGREE,
                },
            }),
    {
        let degree = match degree {
            Some(d) => d,
            None => DEFAULT_GAUSS_LEGENDRE_DEGREE,
        };
        Integrator(IntegrationMethod::GaussLegendre { degree })
    }
}

/// Relies on `Default` of `spdcalc::math::Integrator`, which the engine
/// defines as Simpson's rule with 50 divisions.
#[verifier::external_body]
fn engine_default_integrator() -> (r: IntegrationMethod)
    ensures
        r == (IntegrationMethod::Simpson { divs: DEFAULT_SIMPSON_DIVS }),
{
    IntegrationMethod::default()
}

} // verus!
