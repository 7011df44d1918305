//! The five descriptions of a signal/idler domain and the conversions
//! between them.
//!
//! A grid keeps its bounds as the engine holds them and its step counts as
//! plain values of its own: the counts are what the layer reasons about, the
//! bounds are only ever converted by the engine.
use crate::engine::{
    frequency_grid_counts, frequency_list_len, sum_diff_grid_counts, wavelength_grid_counts,
    wavelength_list_len,
};
use crate::error::SpdcError;
use vstd::prelude::*;

verus! {

/// The step counts of a grid, one per axis.
#[derive(Clone, Copy, Debug, PartialEq, Eq, Structural)]
pub struct GridShape {
    pub x_count: usize,
    pub y_count: usize,
}

impl GridShape {
    /// Every axis has at least one step.
    pub open spec fn wf(self) -> bool {
        self.x_count >= 1 && self.y_count >= 1
    }
}

/// Which of the five descriptions a domain uses.
#[derive(Clone, Copy, Debug, PartialEq, Eq, Structural)]
pub enum SpaceKind {
    FrequencySpace,
    WavelengthSpace,
    SumDiffFrequencySpace,
    FrequencyArray,
    WavelengthArray,
}

impl SpaceKind {
    pub open spec fn is_grid(self) -> bool {
        match self {
            SpaceKind::FrequencySpace | SpaceKind::WavelengthSpace
            | SpaceKind::SumDiffFrequencySpace => true,
            _ => false,
        }
    }
}

/// The conversion matrix: grids convert among themselves, arrays convert
/// between frequency and wavelength, and nothing converts between a grid and
/// an array.
pub open spec fn conversion_allowed(from: SpaceKind, to: SpaceKind) -> bool {
    from.is_grid() == to.is_grid()
}

/// A regular grid of (signal, idler) angular frequencies.
#[derive(Clone, Copy, Debug)]
pub struct FrequencySpace {
    bounds: spdcalc::FrequencySpace,
    shape: GridShape,
}

/// A regular grid of (signal, idler) vacuum wavelengths.
#[derive(Clone, Copy, Debug)]
pub struct WavelengthSpace {
    bounds: spdcalc::WavelengthSpace,
    shape: GridShape,
}

/// A regular grid whose axes are half the sum and half the difference of the
/// signal and idler angular frequencies.
#[derive(Clone, Copy, Debug)]
pub struct SumDiffFrequencySpace {
    bounds: spdcalc::SumDiffFrequencySpace,
    shape: GridShape,
}

/// An explicit list of angular frequencies.
#[derive(Clone, Debug)]
pub struct FrequencyArray {
    values: spdcalc::SignalIdlerFrequencyArray,
}

/// An explicit list of vacuum wavelengths.
#[derive(Clone, Debug)]
pub struct WavelengthArray {
    values: spdcalc::SignalIdlerWavelengthArray,
}

impl View for FrequencySpace {
    type V = GridShape;

    closed spec fn view(&self) -> GridShape {
        self.shape
    }
}

impl View for WavelengthSpace {
    type V = GridShape;

    closed spec fn view(&self) -> GridShape {
        self.shape
    }
}

impl View for SumDiffFrequencySpace {
    type V = GridShape;

    closed spec fn view(&self) -> GridShape {
        self.shape
    }
}

impl View for FrequencyArray {
    type V = nat;

    closed spec fn view(&self) -> nat {
        frequency_list_len(self.values)
    }
}

impl View for WavelengthArray {
    type V = nat;

    closed spec fn view(&self) -> nat {
        wavelength_list_len(self.values)
    }
}

/// The shape check that every grid constructor makes.
fn checked_shape(x_count: usize, y_count: usize) -> (r: Result<GridShape, SpdcError>)
    ensures
        match r {
            Ok(s) => s == (GridShape { x_count, y_count }) && s.wf(),
            Err(e) => !(GridShape { x_count, y_count }).wf() && e.kind
                == crate::error::ErrorKind::Parse,
        },
{
    if x_count == 0 || y_count == 0 {
        Err(SpdcError::parse("a grid axis needs at least one step".to_string()))
    } else {
        Ok(GridShape { x_count, y_count })
    }
}

impl FrequencySpace {
    /// A grid with the engine's bounds `bounds` and the given step counts;
    /// fails when an axis has no step.
    pub fn new(bounds: spdcalc::FrequencySpace, x_count: usize, y_count: usize) -> (r: Result<
        FrequencySpace,
        SpdcError,
    >)
        ensures
            r is Ok <==> (x_count >= 1 && y_count >= 1),
            r is Ok ==> r->Ok_0@ == (GridShape { x_count, y_count }) && r->Ok_0.engine_bounds()
                == bounds,
            r is Err ==> r->Err_0.kind == crate::error::ErrorKind::Parse,
    {
        let shape = checked_shape(x_count, y_count)?;
        Ok(FrequencySpace { bounds, shape })
    }

    pub open spec fn wf(&self) -> bool {
        self@.wf()
    }

    pub closed spec fn engine_bounds(&self) -> spdcalc::FrequencySpace {
        self.bounds
    }

    /// The grid as the engine takes it: these bounds and these step counts.
    pub fn engine(&self) -> (r: spdcalc::FrequencySpace)
        ensures
            frequency_grid_counts(r) == (self@.x_count as nat, self@.y_count as nat),
    {
        frequency_space_with_counts(&self.bounds, self.shape.x_count, self.shape.y_count)
    }

    pub fn shape(&self) -> (r: GridShape)
        ensures
            r == self@,
    {
        self.shape
    }

    /// Convert a wavelength grid; the step counts stay those of each axis.
    pub fn from_wavelength_space(ws: &WavelengthSpace) -> (r: FrequencySpace)
        ensures
            r@ == ws@,
    {
        FrequencySpace { bounds: wavelength_to_frequency_space(&ws.bounds), shape: ws.shape }
    }

    /// Convert to a wavelength grid; the step counts stay those of each axis.
    pub fn to_wavelength_space(&self) -> (r: WavelengthSpace)
        ensures
            r@ == self@,
    {
        WavelengthSpace::from_frequency_space(self)
    }

    /// Convert a sum/difference grid; the step counts stay those of each axis.
    pub fn from_sum_diff_frequency_space(sdfs: &SumDiffFrequencySpace) -> (r: FrequencySpace)
        ensures
            r@ == sdfs@,
    {
        FrequencySpace { bounds: sum_diff_to_frequency_space(&sdfs.bounds), shape: sdfs.shape }
    }

    /// Convert to a sum/difference grid; the step counts stay those of each axis.
    pub fn to_sum_diff_frequency_space(&self) -> (r: SumDiffFrequencySpace)
        ensures
            r@ == self@,
    {
        SumDiffFrequencySpace::from_frequency_space(self)
    }

    /// Give both axes `steps` steps; the bounds stay as they are.
    pub fn set_resolution(&mut self, steps: usize)
        requires
            steps >= 1,
        ensures
            final(self)@ == (GridShape { x_count: steps, y_count: steps }),
            final(self).engine_bounds() == old(self).engine_bounds(),
    {
        self.shape = GridShape { x_count: steps, y_count: steps };
    }
}

impl WavelengthSpace {
    /// A grid with the engine's bounds `bounds` and the given step counts;
    /// fails when an axis has no step.
    pub fn new(bounds: spdcalc::WavelengthSpace, x_count: usize, y_count: usize) -> (r: Result<
        WavelengthSpace,
        SpdcError,
    >)
        ensures
            r is Ok <==> (x_count >= 1 && y_count >= 1),
            r is Ok ==> r->Ok_0@ == (GridShape { x_count, y_count }) && r->Ok_0.engine_bounds()
                == bounds,
            r is Err ==> r->Err_0.kind == crate::error::ErrorKind::Parse,
    {
        let shape = checked_shape(x_count, y_count)?;
        Ok(WavelengthSpace { bounds, shape })
    }

    pub open spec fn wf(&self) -> bool {
        self@.wf()
    }

    pub closed spec fn engine_bounds(&self) -> spdcalc::WavelengthSpace {
        self.bounds
    }

    /// The grid as the engine takes it: these bounds and these step counts.
    pub fn engine(&self) -> (r: spdcalc::WavelengthSpace)
        ensures
            wavelength_grid_counts(r) == (self@.x_count as nat, self@.y_count as nat),
    {
        wavelength_space_with_counts(&self.bounds, self.shape.x_count, self.shape.y_count)
    }

    pub fn shape(&self) -> (r: GridShape)
        ensures
            r == self@,
    {
        self.shape
    }

    /// Convert a frequency grid; the step counts stay those of each axis.
    pub fn from_frequency_space(fs: &FrequencySpace) -> (r: WavelengthSpace)
        ensures
            r@ == fs@,
    {
        WavelengthSpace { bounds: frequency_to_wavelength_space(&fs.bounds), shape: fs.shape }
    }

    /// Convert to a frequency grid; the step counts stay those of each axis.
    pub fn to_frequency_space(&self) -> (r: FrequencySpace)
        ensures
            r@ == self@,
    {
        FrequencySpace::from_wavelength_space(self)
    }

    /// Convert a sum/difference grid; the step counts stay those of each axis.
    pub fn from_sum_diff_frequency_space(sdfs: &SumDiffFrequencySpace) -> (r: WavelengthSpace)
        ensures
            r@ == sdfs@,
    {
        WavelengthSpace { bounds: sum_diff_to_wavelength_space(&sdfs.bounds), shape: sdfs.shape }
    }

    /// Convert to a sum/difference grid; the step counts stay those of each axis.
    pub fn to_sum_diff_frequency_space(&self) -> (r: SumDiffFrequencySpace)
        ensures
            r@ == self@,
    {
        SumDiffFrequencySpace::from_wavelength_space(self)
    }

    /// Give both axes `steps` steps; the bounds stay as they are.
    pub fn set_resolution(&mut self, steps: usize)
        requires
            steps >= 1,
        ensures
            final(self)@ == (GridShape { x_count: steps, y_count: steps }),
            final(self).engine_bounds() == old(self).engine_bounds(),
    {
        self.shape = GridShape { x_count: steps, y_count: steps };
    }
}

impl SumDiffFrequencySpace {
    /// A grid with the engine's bounds `bounds` and the given step counts;
    /// fails when an axis has no step.
    pub fn new(bounds: spdcalc::SumDiffFrequencySpace, x_count: usize, y_count: usize) -> (r: Result<
        SumDiffFrequencySpace,
        SpdcError,
    >)
        ensures
            r is Ok <==> (x_count >= 1 && y_count >= 1),
            r is Ok ==> r->Ok_0@ == (GridShape { x_count, y_count }) && r->Ok_0.engine_bounds()
                == bounds,
            r is Err ==> r->Err_0.kind == crate::error::ErrorKind::Parse,
    {
        let shape = checked_shape(x_count, y_count)?;
        Ok(SumDiffFrequencySpace { bounds, shape })
    }

    pub open spec fn wf(&self) -> bool {
        self@.wf()
    }

    pub closed spec fn engine_bounds(&self) -> spdcalc::SumDiffFrequencySpace {
        self.bounds
    }

    /// The grid as the engine takes it: these bounds and these step counts.
    pub fn engine(&self) -> (r: spdcalc::SumDiffFrequencySpace)
        ensures
            sum_diff_grid_counts(r) == (self@.x_count as nat, self@.y_count as nat),
    {
        sum_diff_space_with_counts(&self.bounds, self.shape.x_count, self.shape.y_count)
    }

    pub fn shape(&self) -> (r: GridShape)
        ensures
            r == self@,
    {
        self.shape
    }

    /// Convert a frequency grid; the step counts stay those of each axis.
    pub fn from_frequency_space(fs: &FrequencySpace) -> (r: SumDiffFrequencySpace)
        ensures
            r@ == fs@,
    {
        SumDiffFrequencySpace { bounds: frequency_to_sum_diff_space(&fs.bounds), shape: fs.shape }
    }

    /// Convert to a frequency grid; the step counts stay those of each axis.
    pub fn to_frequency_space(&self) -> (r: FrequencySpace)
        ensures
            r@ == self@,
    {
        FrequencySpace::from_sum_diff_frequency_space(self)
    }

    /// Convert a wavelength grid; the step counts stay those of each axis.
    pub fn from_wavelength_space(ws: &WavelengthSpace) -> (r: SumDiffFrequencySpace)
        ensures
            r@ == ws@,
    {
        SumDiffFrequencySpace { bounds: wavelength_to_sum_diff_space(&ws.bounds), shape: ws.shape }
    }

    /// Convert to a wavelength grid; the step counts stay those of each axis.
    pub fn to_wavelength_space(&self) -> (r: WavelengthSpace)
        ensures
            r@ == self@,
    {
        WavelengthSpace::from_sum_diff_frequency_space(self)
    }

    /// Give both axes `steps` steps; the bounds stay as they are.
    pub fn set_resolution(&mut self, steps: usize)
        requires
            steps >= 1,
        ensures
            final(self)@ == (GridShape { x_count: steps, y_count: steps }),
            final(self).engine_bounds() == old(self).engine_bounds(),
    {
        self.shape = GridShape { x_count: steps, y_count: steps };
    }
}

impl FrequencyArray {
    /// Take a list of frequencies from the engine.
    pub fn from_engine(values: spdcalc::SignalIdlerFrequencyArray) -> (r: FrequencyArray)
        ensures
            r@ == frequency_list_len(values),
    {
        FrequencyArray { values }
    }

    /// The list as the engine takes it.
    pub fn engine(&self) -> (r: spdcalc::SignalIdlerFrequencyArray)
        ensures
            frequency_list_len(r) == self@,
    {
        self.values.clone()
    }

    /// The number of values in the list.
    pub fn len(&self) -> (r: usize)
        ensures
            r == self@,
    {
        frequency_array_len(&self.values)
    }

    /// The values, as the engine prints them.
    pub fn __repr__(&self) -> String {
        frequency_array_text(&self.values)
    }

    /// Convert each value to its vacuum wavelength; the length is kept.
    pub fn to_wavelength_array(&self) -> (r: WavelengthArray)
        ensures
            r@ == self@,
    {
        WavelengthArray::from_engine(frequency_to_wavelength_array(&self.values))
    }
}

impl WavelengthArray {
    /// Take a list of wavelengths from the engine.
    pub fn from_engine(values: spdcalc::SignalIdlerWavelengthArray) -> (r: WavelengthArray)
        ensures
            r@ == wavelength_list_len(values),
    {
        WavelengthArray { values }
    }

    /// The list as the engine takes it.
    pub fn engine(&self) -> (r: spdcalc::SignalIdlerWavelengthArray)
        ensures
            wavelength_list_len(r) == self@,
    {
        self.values.clone()
    }

    /// The number of values in the list.
    pub fn len(&self) -> (r: usize)
        ensures
            r == self@,
    {
        wavelength_array_len(&self.values)
    }

    /// The values, as the engine prints them.
    pub fn __repr__(&self) -> String {
        wavelength_array_text(&self.values)
    }

    /// Convert each value to its angular frequency; the length is kept.
    pub fn to_frequency_array(&self) -> (r: FrequencyArray)
        ensures
            r@ == self@,
    {
        FrequencyArray::from_engine(wavelength_to_frequency_array(&self.values))
    }
}

/// A signal/idler domain in one of its five descriptions.
#[derive(Clone, Debug)]
pub enum SIRange {
    FrequencySpace(FrequencySpace),
    FrequencyArray(FrequencyArray),
    Wavelength(WavelengthSpace),
    WavelengthArray(WavelengthArray),
    SumDiffFrequency(SumDiffFrequencySpace),
}

impl SIRange {
    pub open spec fn kind_spec(&self) -> SpaceKind {
        match self {
            SIRange::FrequencySpace(_) => SpaceKind::FrequencySpace,
            SIRange::FrequencyArray(_) => SpaceKind::FrequencyArray,
            SIRange::Wavelength(_) => SpaceKind::WavelengthSpace,
            SIRange::WavelengthArray(_) => SpaceKind::WavelengthArray,
            SIRange::SumDiffFrequency(_) => SpaceKind::SumDiffFrequencySpace,
        }
    }

    /// The step counts of a grid; `None` for a list.
    pub open spec fn grid_shape(&self) -> Option<GridShape> {
        match self {
            SIRange::FrequencySpace(g) => Some(g@),
            SIRange::Wavelength(g) => Some(g@),
            SIRange::SumDiffFrequency(g) => Some(g@),
            _ => None,
        }
    }

    /// Every grid axis has at least one step.
    pub open spec fn wf(&self) -> bool {
        match self.grid_shape() {
            Some(s) => s.wf(),
            None => true,
        }
    }

    pub fn kind(&self) -> (r: SpaceKind)
        ensures
            r == self.kind_spec(),
    {
        match self {
            SIRange::FrequencySpace(_) => SpaceKind::FrequencySpace,
            SIRange::FrequencyArray(_) => SpaceKind::FrequencyArray,
            SIRange::Wavelength(_) => SpaceKind::WavelengthSpace,
            SIRange::WavelengthArray(_) => SpaceKind::WavelengthArray,
            SIRange::SumDiffFrequency(_) => SpaceKind::SumDiffFrequencySpace,
        }
    }

    /// The domain as a frequency grid, as the engine's grid operations need
    /// it. A list has no bounds or step counts and is refused, never resampled.
    pub fn to_frequency_space(&self) -> (r: Result<FrequencySpace, SpdcError>)
        ensures
            match self.grid_shape() {
                Some(s) => r is Ok && r->Ok_0@ == s,
                None => r is Err && r->Err_0.kind == crate::error::ErrorKind::Conversion,
            },
            self is FrequencyArray ==> r is Err && r->Err_0.message@
                == "Cannot convert FrequencyArray to FrequencySpace"@,
            self is WavelengthArray ==> r is Err && r->Err_0.message@
                == "Cannot convert WavelengthArray to FrequencySpace"@,
            match self {
                SIRange::FrequencySpace(fs) => r == Ok::<FrequencySpace, SpdcError>(*fs),
                _ => true,
            },
    {
        match self {
            SIRange::FrequencySpace(fs) => Ok(*fs),
            SIRange::FrequencyArray(_) => Err(
                SpdcError::conversion("Cannot convert FrequencyArray to FrequencySpace".to_owned()),
            ),
            SIRange::Wavelength(ws) => Ok(FrequencySpace::from_wavelength_space(ws)),
            SIRange::WavelengthArray(_) => Err(
                SpdcError::conversion(
                    "Cannot convert WavelengthArray to FrequencySpace".to_owned(),
                ),
            ),
            SIRange::SumDiffFrequency(sd) => Ok(FrequencySpace::from_sum_diff_frequency_space(sd)),
        }
    }

    /// Re-express the domain in the `target` description.
    ///
    /// Grids convert among themselves with their step counts kept; lists
    /// convert value by value between frequency and wavelength; a grid never
    /// becomes a list nor a list a grid. Asking for the description the domain
    /// already has returns it unchanged.
    pub fn convert(self, target: SpaceKind) -> (r: Result<SIRange, SpdcError>)
        ensures
            r is Ok <==> conversion_allowed(self.kind_spec(), target),
            r is Ok ==> r->Ok_0.kind_spec() == target && r->Ok_0.grid_shape() == self.grid_shape(),
            r is Err ==> r->Err_0.kind == crate::error::ErrorKind::Conversion,
            target == self.kind_spec() ==> r == Ok::<SIRange, SpdcError>(self),
    {
        match (self, target) {
            (SIRange::FrequencySpace(fs), SpaceKind::FrequencySpace) => Ok(
                SIRange::FrequencySpace(fs),
            ),
            (SIRange::FrequencySpace(fs), SpaceKind::WavelengthSpace) => Ok(
                SIRange::Wavelength(fs.to_wavelength_space()),
            ),
            (SIRange::FrequencySpace(fs), SpaceKind::SumDiffFrequencySpace) => Ok(
                SIRange::SumDiffFrequency(fs.to_sum_diff_frequency_space()),
            ),
            (SIRange::Wavelength(ws), SpaceKind::FrequencySpace) => Ok(
                SIRange::FrequencySpace(ws.to_frequency_space()),
            ),
            (SIRange::Wavelength(ws), SpaceKind::WavelengthSpace) => Ok(SIRange::Wavelength(ws)),
            (SIRange::Wavelength(ws), SpaceKind::SumDiffFrequencySpace) => Ok(
                SIRange::SumDiffFrequency(ws.to_sum_diff_frequency_space()),
            ),
            (SIRange::SumDiffFrequency(sd), SpaceKind::FrequencySpace) => Ok(
                SIRange::FrequencySpace(sd.to_frequency_space()),
            ),
            (SIRange::SumDiffFrequency(sd), SpaceKind::WavelengthSpace) => Ok(
                SIRange::Wavelength(sd.to_wavelength_space()),
            ),
            (SIRange::SumDiffFrequency(sd), SpaceKind::SumDiffFrequencySpace) => Ok(
                SIRange::SumDiffFrequency(sd),
            ),
            (SIRange::FrequencyArray(fa), SpaceKind::FrequencyArray) => Ok(
                SIRange::FrequencyArray(fa),
            ),
            (SIRange::FrequencyArray(fa), SpaceKind::WavelengthArray) => Ok(
                SIRange::WavelengthArray(fa.to_wavelength_array()),
            ),
            (SIRange::WavelengthArray(wa), SpaceKind::WavelengthArray) => Ok(
                SIRange::WavelengthArray(wa),
            ),
            (SIRange::WavelengthArray(wa), SpaceKind::FrequencyArray) => Ok(
                SIRange::FrequencyArray(wa.to_frequency_array()),
            ),
            (SIRange::FrequencyArray(_), _) | (SIRange::WavelengthArray(_), _) => Err(
                SpdcError::conversion(
                    "a list of values has no bounds or step counts to form a grid".to_string(),
                ),
            ),
            (_, _) => Err(
                SpdcError::conversion("a grid cannot be converted into a list of values".to_string()),
            ),
        }
    }
}

/// Relies on `spdcalc::FrequencySpace::new`: a grid with the bounds of
/// `space` and the given step counts.
#[verifier::external_body]
fn frequency_space_with_counts(space: &spdcalc::FrequencySpace, x: usize, y: usize) -> (r:
    spdcalc::FrequencySpace)
    ensures
        frequency_grid_counts(r) == (x as nat, y as nat),
{
    let s = space.as_steps();
    spdcalc::FrequencySpace::new((s.0.0, s.0.1, x), (s.1.0, s.1.1, y))
}

/// Relies on `spdcalc::WavelengthSpace::new`: a grid with the bounds of
/// `space` and the given step counts.
#[verifier::external_body]
fn wavelength_space_with_counts(space: &spdcalc::WavelengthSpace, x: usize, y: usize) -> (r:
    spdcalc::WavelengthSpace)
    ensures
        wavelength_grid_counts(r) == (x as nat, y as nat),
{
    let s = space.as_steps();
    spdcalc::WavelengthSpace::new((s.0.0, s.0.1, x), (s.1.0, s.1.1, y))
}

/// Relies on `spdcalc::SumDiffFrequencySpace::new`: a grid with the bounds of
/// `space` and the given step counts.
#[verifier::external_body]
fn sum_diff_space_with_counts(space: &spdcalc::SumDiffFrequencySpace, x: usize, y: usize) -> (r:
    spdcalc::SumDiffFrequencySpace)
    ensures
        sum_diff_grid_counts(r) == (x as nat, y as nat),
{
    let s = space.as_steps();
    spdcalc::SumDiffFrequencySpace::new((s.0.0, s.0.1, x), (s.1.0, s.1.1, y))
}

/// Relies on `spdcalc::FrequencySpace::from_wavelength_space`: bounds mapped
/// through the vacuum dispersion relation.
#[verifier::external_body]
fn wavelength_to_frequency_space(ws: &spdcalc::WavelengthSpace) -> spdcalc::FrequencySpace {
    spdcalc::FrequencySpace::from_wavelength_space(*ws)
}

/// Relies on `spdcalc::WavelengthSpace::from_frequency_space`: bounds mapped
/// through the vacuum dispersion relation.
#[verifier::external_body]
fn frequency_to_wavelength_space(fs: &spdcalc::FrequencySpace) -> spdcalc::WavelengthSpace {
    spdcalc::WavelengthSpace::from_frequency_space(*fs)
}

/// Relies on `spdcalc::SumDiffFrequencySpace::as_frequency_space`: the
/// rotated bounds mapped back to signal/idler bounds.
#[verifier::external_body]
fn sum_diff_to_frequency_space(sd: &spdcalc::SumDiffFrequencySpace) -> spdcalc::FrequencySpace {
    sd.as_frequency_space()
}

/// Relies on `spdcalc::SumDiffFrequencySpace::from_frequency_space`: the
/// signal/idler bounds mapped to half-sum/half-difference bounds.
#[verifier::external_body]
fn frequency_to_sum_diff_space(fs: &spdcalc::FrequencySpace) -> spdcalc::SumDiffFrequencySpace {
    spdcalc::SumDiffFrequencySpace::from_frequency_space(*fs)
}

/// Relies on `spdcalc::SumDiffFrequencySpace::as_wavelength_space`.
#[verifier::external_body]
fn sum_diff_to_wavelength_space(sd: &spdcalc::SumDiffFrequencySpace) -> spdcalc::WavelengthSpace {
    sd.as_wavelength_space()
}

/// Relies on `spdcalc::SumDiffFrequencySpace::from_wavelength_space`.
#[verifier::external_body]
fn wavelength_to_sum_diff_space(ws: &spdcalc::WavelengthSpace) -> spdcalc::SumDiffFrequencySpace {
    spdcalc::SumDiffFrequencySpace::from_wavelength_space(*ws)
}

/// Relies on the public list inside `spdcalc::SignalIdlerFrequencyArray`: its length.
#[verifier::external_body]
fn frequency_array_len(a: &spdcalc::SignalIdlerFrequencyArray) -> (r: usize)
    ensures
        r == frequency_list_len(*a),
{
    a.0.len()
}

/// Relies on the public list inside `spdcalc::SignalIdlerWavelengthArray`: its length.
#[verifier::external_body]
fn wavelength_array_len(a: &spdcalc::SignalIdlerWavelengthArray) -> (r: usize)
    ensures
        r == wavelength_list_len(*a),
{
    a.0.len()
}

/// Relies on `Debug` of `spdcalc::SignalIdlerFrequencyArray`.
#[verifier::external_body]
fn frequency_array_text(a: &spdcalc::SignalIdlerFrequencyArray) -> String {
    format!("{:?}", a)
}

/// Relies on `Debug` of `spdcalc::SignalIdlerWavelengthArray`.
#[verifier::external_body]
fn wavelength_array_text(a: &spdcalc::SignalIdlerWavelengthArray) -> String {
    format!("{:?}", a)
}

/// Relies on `spdcalc::utils::frequency_to_vacuum_wavelength`, applied to each value in order.
#[verifier::external_body]
fn frequency_to_wavelength_array(a: &spdcalc::SignalIdlerFrequencyArray) -> (r:
    spdcalc::SignalIdlerWavelengthArray)
    ensures
        wavelength_list_len(r) == frequency_list_len(*a),
{
    spdcalc::SignalIdlerWavelengthArray(
        a.0.iter().map(|f| spdcalc::utils::frequency_to_vacuum_wavelength(*f)).collect(),
    )
}

/// Relies on `spdcalc::utils::vacuum_wavelength_to_frequency`, applied to each value in order.
#[verifier::external_body]
fn wavelength_to_frequency_array(a: &spdcalc::SignalIdlerWavelengthArray) -> (r:
    spdcalc::SignalIdlerFrequencyArray)
    ensures
        frequency_list_len(r) == wavelength_list_len(*a),
{
    spdcalc::SignalIdlerFrequencyArray(
        a.0.iter().map(|w| spdcalc::utils::vacuum_wavelength_to_frequency(*w)).collect(),
    )
}

} // verus!
