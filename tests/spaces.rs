use spdcalc::IntoSignalIdlerIterator;
use spdcalc::dim::ucum::{HZ, M, RAD};
use spdcalc_py::error::ErrorKind;
use spdcalc_py::spaces::{
    FrequencyArray, FrequencySpace, GridShape, SIRange, SpaceKind, SumDiffFrequencySpace,
    WavelengthArray, WavelengthSpace,
};

fn freq_grid(x: (f64, f64, usize), y: (f64, f64, usize)) -> FrequencySpace {
    let engine = spdcalc::FrequencySpace::new(
        (x.0 * RAD * HZ, x.1 * RAD * HZ, x.2),
        (y.0 * RAD * HZ, y.1 * RAD * HZ, y.2),
    );
    FrequencySpace::new(engine, x.2, y.2).ok().expect("valid grid")
}

fn freq_bounds(fs: &FrequencySpace) -> ((f64, f64, usize), (f64, f64, usize)) {
    let s = *fs.engine().steps();
    let u = RAD * HZ;
    ((*(s.0 .0 / u), *(s.0 .1 / u), s.0 .2), (*(s.1 .0 / u), *(s.1 .1 / u), s.1 .2))
}

fn close(a: f64, b: f64) -> bool {
    ((a - b) / b).abs() < 1e-9
}

fn freq_array(values: &[f64]) -> FrequencyArray {
    FrequencyArray::from_engine(spdcalc::SignalIdlerFrequencyArray(
        values.iter().map(|v| *v * RAD * HZ).collect(),
    ))
}

fn wavelength_array(values: &[f64]) -> WavelengthArray {
    WavelengthArray::from_engine(spdcalc::SignalIdlerWavelengthArray(
        values.iter().map(|v| *v * M).collect(),
    ))
}

#[test]
fn grid_round_trip_through_wavelength() {
    let fs = freq_grid((1e15, 2e15, 50), (1e15, 2e15, 50));
    let back = fs.to_wavelength_space().to_frequency_space();
    let (x, y) = freq_bounds(&back);
    assert!(close(x.0, 1e15) && close(x.1, 2e15) && close(y.0, 1e15) && close(y.1, 2e15));
    assert_eq!((x.2, y.2), (50, 50));
    assert_eq!(back.shape(), GridShape { x_count: 50, y_count: 50 });
}

#[test]
fn grid_round_trip_through_sum_diff() {
    let fs = freq_grid((1e15, 2e15, 7), (1.5e15, 2.5e15, 9));
    let back = SumDiffFrequencySpace::from_frequency_space(&fs).to_frequency_space();
    let (x, y) = freq_bounds(&back);
    assert!(close(x.0, 1e15) && close(x.1, 2e15) && close(y.0, 1.5e15) && close(y.1, 2.5e15));
    assert_eq!(back.shape(), GridShape { x_count: 7, y_count: 9 });
}

#[test]
fn conversions_keep_counts_per_axis() {
    let fs = freq_grid((1e15, 2e15, 3), (1e15, 2e15, 4));
    let ws = WavelengthSpace::from_frequency_space(&fs);
    assert_eq!(ws.shape(), GridShape { x_count: 3, y_count: 4 });
    let sd = ws.to_sum_diff_frequency_space();
    assert_eq!(sd.shape(), GridShape { x_count: 3, y_count: 4 });
    assert_eq!(WavelengthSpace::from_sum_diff_frequency_space(&sd).shape(), ws.shape());
    assert_eq!(FrequencySpace::from_sum_diff_frequency_space(&sd).shape(), fs.shape());
    assert_eq!(SumDiffFrequencySpace::from_wavelength_space(&ws).to_wavelength_space().shape(), ws.shape());
    assert_eq!(FrequencySpace::from_wavelength_space(&ws).shape(), fs.shape());
    assert_eq!(fs.to_sum_diff_frequency_space().shape(), fs.shape());
}

#[test]
fn wavelength_conversion_maps_bounds() {
    let fs = freq_grid((1e15, 2e15, 2), (1e15, 2e15, 2));
    let ws = fs.to_wavelength_space();
    let s = *ws.engine().steps();
    let c = 299_792_458.0;
    let lo = 2.0 * std::f64::consts::PI * c / 2e15;
    let hi = 2.0 * std::f64::consts::PI * c / 1e15;
    assert!(close(*(s.0 .0 / M), lo) && close(*(s.0 .1 / M), hi));
}

#[test]
fn set_resolution_changes_counts_only() {
    let mut fs = freq_grid((1e15, 2e15, 5), (1.1e15, 2.1e15, 8));
    fs.set_resolution(3);
    assert_eq!(fs.shape(), GridShape { x_count: 3, y_count: 3 });
    let (x, y) = freq_bounds(&fs);
    assert!(close(x.0, 1e15) && close(x.1, 2e15) && close(y.0, 1.1e15) && close(y.1, 2.1e15));
    assert_eq!((x.2, y.2), (3, 3));
    let mut ws = fs.to_wavelength_space();
    ws.set_resolution(11);
    assert_eq!(ws.shape(), GridShape { x_count: 11, y_count: 11 });
    let mut sd = fs.to_sum_diff_frequency_space();
    sd.set_resolution(2);
    assert_eq!(sd.shape(), GridShape { x_count: 2, y_count: 2 });
}

#[test]
fn grid_with_empty_axis_is_refused() {
    let engine = spdcalc::FrequencySpace::new((1e15 * RAD * HZ, 2e15 * RAD * HZ, 0), (1e15 * RAD * HZ, 2e15 * RAD * HZ, 3));
    let e = FrequencySpace::new(engine, 0, 3).err().expect("refused");
    assert_eq!(e.kind, ErrorKind::Parse);
}

#[test]
fn arrays_never_become_frequency_grids() {
    let fa = SIRange::FrequencyArray(freq_array(&[1e15, 2e15]));
    assert_eq!(fa.to_frequency_space().err().expect("refused").kind, ErrorKind::Conversion);
    let wa = SIRange::WavelengthArray(wavelength_array(&[8e-7, 1.6e-6]));
    assert_eq!(wa.to_frequency_space().err().expect("refused").kind, ErrorKind::Conversion);
}

#[test]
fn arrays_never_convert_into_any_grid() {
    for target in [SpaceKind::FrequencySpace, SpaceKind::WavelengthSpace, SpaceKind::SumDiffFrequencySpace] {
        let fa = SIRange::FrequencyArray(freq_array(&[1e15, 2e15]));
        assert_eq!(fa.convert(target).err().expect("refused").kind, ErrorKind::Conversion);
        let wa = SIRange::WavelengthArray(wavelength_array(&[8e-7, 1.6e-6]));
        assert_eq!(wa.convert(target).err().expect("refused").kind, ErrorKind::Conversion);
    }
}

#[test]
fn grids_never_convert_into_arrays() {
    let fs = SIRange::FrequencySpace(freq_grid((1e15, 2e15, 2), (1e15, 2e15, 2)));
    assert_eq!(fs.convert(SpaceKind::FrequencyArray).err().expect("refused").kind, ErrorKind::Conversion);
}

#[test]
fn grids_convert_among_themselves() {
    let fs = freq_grid((1e15, 2e15, 4), (1e15, 2e15, 6));
    let r = SIRange::FrequencySpace(fs).convert(SpaceKind::SumDiffFrequencySpace).ok().expect("converts");
    assert_eq!(r.kind(), SpaceKind::SumDiffFrequencySpace);
    let r = r.convert(SpaceKind::WavelengthSpace).ok().expect("converts");
    assert_eq!(r.kind(), SpaceKind::WavelengthSpace);
    let fs2 = r.to_frequency_space().ok().expect("grid");
    assert_eq!(fs2.shape(), GridShape { x_count: 4, y_count: 6 });
}

#[test]
fn arrays_convert_value_by_value() {
    let fa = freq_array(&[1e15, 2e15, 3e15]);
    let r = SIRange::FrequencyArray(fa).convert(SpaceKind::WavelengthArray).ok().expect("converts");
    match r {
        SIRange::WavelengthArray(wa) => {
            assert_eq!(wa.len(), 3);
            let values = wa.engine().0;
            let c = 299_792_458.0;
            assert!(close(*(values[1] / M), 2.0 * std::f64::consts::PI * c / 2e15));
            let back = wa.to_frequency_array();
            assert!(close(*(back.engine().0[2] / (RAD * HZ)), 3e15));
        }
        _ => panic!("expected a wavelength array"),
    }
}

#[test]
fn frequency_space_to_itself_is_unchanged() {
    let fs = freq_grid((1e15, 2e15, 4), (1e15, 2e15, 6));
    let r = SIRange::FrequencySpace(fs).to_frequency_space().ok().expect("grid");
    assert_eq!(freq_bounds(&r), ((1e15, 2e15, 4), (1e15, 2e15, 6)));
}

#[test]
fn array_repr_lists_values() {
    let fa = freq_array(&[1e15]);
    assert!(fa.__repr__().contains("SignalIdlerFrequencyArray"));
    let wa = wavelength_array(&[8e-7]);
    assert!(wa.__repr__().contains("SignalIdlerWavelengthArray"));
}

#[test]
fn converting_to_own_kind_keeps_value() {
    let wa = SIRange::WavelengthArray(wavelength_array(&[8e-7, 1.6e-6, 9e-7, 1.5e-6]));
    match wa.convert(SpaceKind::WavelengthArray).ok().expect("converts") {
        SIRange::WavelengthArray(a) => assert_eq!(a.len(), 4),
        _ => panic!("expected a wavelength array"),
    }
    let sd = SIRange::SumDiffFrequency(freq_grid((1e15, 2e15, 3), (1e15, 2e15, 2)).to_sum_diff_frequency_space());
    let same = sd.convert(SpaceKind::SumDiffFrequencySpace).ok().expect("converts");
    assert_eq!(same.kind(), SpaceKind::SumDiffFrequencySpace);
    assert_eq!(same.to_frequency_space().ok().expect("grid").shape(), GridShape { x_count: 3, y_count: 2 });
}

#[test]
fn engine_enumeration_is_repeatable() {
    let range = freq_grid((1e15, 2e15, 4), (1e15, 2e15, 5)).to_wavelength_space();
    let first: Vec<_> = range.engine().into_signal_idler_iterator().collect();
    let second: Vec<_> = range.engine().into_signal_idler_iterator().collect();
    assert_eq!(first.len(), 20);
    assert_eq!(first, second);
}

#[test]
fn single_point_grid_enumerates_its_start() {
    let fs = freq_grid((1.2e15, 1.9e15, 1), (1.2e15, 1.9e15, 1));
    let pairs: Vec<_> = fs.engine().into_signal_idler_iterator().collect();
    assert_eq!(pairs.len(), 1);
    let (x, y) = pairs[0];
    assert_eq!((*(x / (RAD * HZ)), *(y / (RAD * HZ))), (1.2e15, 1.2e15));
}

#[test]
fn grid_engine_value_has_library_counts() {
    let mut fs = freq_grid((1e15, 2e15, 4), (1e15, 2e15, 6));
    fs.set_resolution(9);
    assert_eq!(fs.engine().into_signal_idler_iterator().count(), 81);
}

#[test]
fn list_refusal_messages() {
    let fa = SIRange::FrequencyArray(freq_array(&[]));
    assert_eq!(fa.to_frequency_space().err().expect("refused").message(), "Cannot convert FrequencyArray to FrequencySpace");
    let wa = SIRange::WavelengthArray(wavelength_array(&[8e-7]));
    assert_eq!(wa.to_frequency_space().err().expect("refused").message(), "Cannot convert WavelengthArray to FrequencySpace");
}

#[test]
fn list_length_and_engine_copy() {
    let fa = freq_array(&[1e15, 2e15, 3e15]);
    assert_eq!(fa.len(), 3);
    assert_eq!(fa.engine().0.len(), 3);
    assert_eq!(fa.to_wavelength_array().to_frequency_array().len(), 3);
}

