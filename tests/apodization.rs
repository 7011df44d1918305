use spdcalc_py::apodization::{
    decode, encode, name_matches, Apodization, ApodizationKind, ApodizationRecord, ParamValue,
};
use spdcalc_py::error::ErrorKind;

fn record(kind: &str, parameter: ParamValue<f64>) -> ApodizationRecord<f64> {
    ApodizationRecord { kind: kind.to_string(), parameter }
}

fn all_kinds() -> Vec<Apodization<f64>> {
    vec![
        Apodization::Off,
        Apodization::Gaussian { fwhm_um: 12.5 },
        Apodization::Bartlett(0.1),
        Apodization::Blackman(0.2),
        Apodization::Connes(0.3),
        Apodization::Cosine(0.4),
        Apodization::Hamming(0.5),
        Apodization::Welch(0.6),
        Apodization::Interpolate(vec![0.0, 0.5, 1.0, 0.5]),
    ]
}

#[test]
fn codec_round_trip_each_kind() {
    for a in all_kinds() {
        let back = decode(encode(a.clone())).ok().expect("decodes");
        assert_eq!(back, a);
    }
}

#[test]
fn encode_emits_canonical_names() {
    let names: Vec<String> = all_kinds().into_iter().map(|a| encode(a).kind).collect();
    assert_eq!(
        names,
        vec![
            "off", "gaussian", "bartlett", "blackman", "connes", "cosine", "hamming", "welch",
            "interpolate"
        ]
    );
}

#[test]
fn encode_off_emits_no_parameter() {
    assert_eq!(encode::<f64>(Apodization::Off).parameter, ParamValue::Absent);
}

#[test]
fn encode_gaussian_emits_fwhm_record() {
    assert_eq!(
        encode(Apodization::Gaussian { fwhm_um: 3.0 }).parameter,
        ParamValue::Record { fwhm_um: Some(3.0) }
    );
}

#[test]
fn decode_unknown_kind_fails() {
    let e = decode(record("nonexistent", ParamValue::Number(1.0))).err().expect("fails");
    assert_eq!(e.kind, ErrorKind::Parse);
}

#[test]
fn decode_gaussian_without_fwhm_fails() {
    let e = decode(record("gaussian", ParamValue::Record { fwhm_um: None })).err().expect("fails");
    assert_eq!(e.kind, ErrorKind::Parse);
}

#[test]
fn decode_gaussian_with_number_fails() {
    assert!(decode(record("gaussian", ParamValue::Number(2.0))).is_err());
}

#[test]
fn decode_windowed_kind_needs_number() {
    assert!(decode(record("hamming", ParamValue::List(vec![1.0]))).is_err());
    assert!(decode(record("welch", ParamValue::Absent)).is_err());
    assert_eq!(decode(record("welch", ParamValue::Number(0.7))).ok(), Some(Apodization::Welch(0.7)));
}

#[test]
fn decode_interpolate_needs_list() {
    assert!(decode(record("interpolate", ParamValue::Number(1.0))).is_err());
    assert_eq!(
        decode(record("interpolate", ParamValue::List(vec![]))).ok(),
        Some(Apodization::Interpolate(vec![]))
    );
}

#[test]
fn decode_off_ignores_parameter() {
    assert_eq!(decode(record("off", ParamValue::Absent)).ok(), Some(Apodization::Off));
    assert_eq!(decode(record("off", ParamValue::Number(4.0))).ok(), Some(Apodization::Off));
}

#[test]
fn decode_is_case_insensitive() {
    assert_eq!(
        decode(record("BARTLETT", ParamValue::Number(0.25))).ok(),
        Some(Apodization::Bartlett(0.25))
    );
    assert_eq!(
        decode(record("Gaussian", ParamValue::Record { fwhm_um: Some(1.5) })).ok(),
        Some(Apodization::Gaussian { fwhm_um: 1.5 })
    );
    assert_eq!(decode(record("InTerPolate", ParamValue::List(vec![2.0]))).ok(), Some(Apodization::Interpolate(vec![2.0])));
}

#[test]
fn lookup_rejects_near_misses() {
    assert_eq!(ApodizationKind::from_name("cosines"), None);
    assert_eq!(ApodizationKind::from_name("welc"), None);
    assert_eq!(ApodizationKind::from_name(""), None);
    assert_eq!(ApodizationKind::from_name("CONNES"), Some(ApodizationKind::Connes));
    assert!(name_matches("OfF", "off"));
    assert!(!name_matches("of_", "off"));
}

#[test]
fn kind_names_are_lower_case() {
    assert_eq!(ApodizationKind::Blackman.name(), "blackman");
    assert_eq!(Apodization::Cosine(1.0).kind(), ApodizationKind::Cosine);
}
