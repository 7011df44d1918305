use spdcalc::math::Integrator as Method;
use spdcalc_py::integrator::Integrator;

#[test]
fn default_is_simpson_with_fifty_divisions() {
    assert!(matches!(Integrator::default().0, Method::Simpson { divs: 50 }));
}

#[test]
fn simpson_takes_given_divisions() {
    assert!(matches!(Integrator::simpson(Some(12)).0, Method::Simpson { divs: 12 }));
    assert!(matches!(Integrator::simpson(None).0, Method::Simpson { divs: 50 }));
}

#[test]
fn gauss_legendre_defaults_to_degree_forty() {
    assert!(matches!(Integrator::gauss_legendre(None).0, Method::GaussLegendre { degree: 40 }));
    assert!(matches!(Integrator::gauss_legendre(Some(7)).0, Method::GaussLegendre { degree: 7 }));
}
