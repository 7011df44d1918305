//! Codec between the apodization window of a poling configuration and its
//! exchange shape `{ kind: <string>, parameter: <absent | number | {fwhm_um} | list> }`.
//!
//! Both sides are generic over the scalar payload `P` (the host's float): the
//! codec only moves payloads, it never computes with them.
use crate::error::SpdcError;
use vstd::prelude::*;
use vstd::string::StrSliceExecFns;

verus! {

/// The closed set of window kinds.
#[derive(Clone, Copy, Debug, PartialEq, Eq, Structural)]
pub enum ApodizationKind {
    Off,
    Gaussian,
    Bartlett,
    Blackman,
    Connes,
    Cosine,
    Hamming,
    Welch,
    Interpolate,
}

/// An apodization window. The Gaussian width is in micrometres; the six
/// windowed kinds carry one dimensionless parameter; `Interpolate` carries the
/// evenly spaced profile values in order.
#[derive(Clone, Debug, PartialEq)]
pub enum Apodization<P> {
    Off,
    Gaussian { fwhm_um: P },
    Bartlett(P),
    Blackman(P),
    Connes(P),
    Cosine(P),
    Hamming(P),
    Welch(P),
    Interpolate(Vec<P>),
}

/// The parameter field of the exchange shape, as the host supplied it.
#[derive(Clone, Debug, PartialEq)]
pub enum ParamValue<P> {
    /// No parameter, or an explicit null.
    Absent,
    /// A single number.
    Number(P),
    /// A record; `fwhm_um` is `None` when the record has no such field.
    Record { fwhm_um: Option<P> },
    /// An ordered list of numbers.
    List(Vec<P>),
    /// Any other value.
    Other,
}

/// The exchange shape: a discriminator and a parameter.
#[derive(Clone, Debug, PartialEq)]
pub struct ApodizationRecord<P> {
    pub kind: String,
    pub parameter: ParamValue<P>,
}

/// The canonical (lower-case) name of each kind.
pub open spec fn kind_name(k: ApodizationKind) -> Seq<char> {
    match k {
        ApodizationKind::Off => "off"@,
        ApodizationKind::Gaussian => "gaussian"@,
        ApodizationKind::Bartlett => "bartlett"@,
        ApodizationKind::Blackman => "blackman"@,
        ApodizationKind::Connes => "connes"@,
        ApodizationKind::Cosine => "cosine"@,
        ApodizationKind::Hamming => "hamming"@,
        ApodizationKind::Welch => "welch"@,
        ApodizationKind::Interpolate => "interpolate"@,
    }
}

/// `c` equals the lower-case ASCII letter or symbol `lower`, ignoring ASCII case.
pub open spec fn char_matches(c: char, lower: char) -> bool {
    c == lower || ('A' <= c && c <= 'Z' && (c as u32) + 32 == lower as u32)
}

/// `s` spells `name` (a lower-case name), ignoring ASCII case.
pub open spec fn names_match(s: Seq<char>, name: Seq<char>) -> bool {
    s.len() == name.len() && forall|i: int| 0 <= i < s.len() ==> char_matches(s[i], name[i])
}

/// The kind that a discriminator names, looked up case-insensitively.
pub open spec fn kind_of_name(s: Seq<char>) -> Option<ApodizationKind> {
    if names_match(s, kind_name(ApodizationKind::Off)) {
        Some(ApodizationKind::Off)
    } else if names_match(s, kind_name(ApodizationKind::Gaussian)) {
        Some(ApodizationKind::Gaussian)
    } else if names_match(s, kind_name(ApodizationKind::Bartlett)) {
        Some(ApodizationKind::Bartlett)
    } else if names_match(s, kind_name(ApodizationKind::Blackman)) {
        Some(ApodizationKind::Blackman)
    } else if names_match(s, kind_name(ApodizationKind::Connes)) {
        Some(ApodizationKind::Connes)
    } else if names_match(s, kind_name(ApodizationKind::Cosine)) {
        Some(ApodizationKind::Cosine)
    } else if names_match(s, kind_name(ApodizationKind::Hamming)) {
        Some(ApodizationKind::Hamming)
    } else if names_match(s, kind_name(ApodizationKind::Welch)) {
        Some(ApodizationKind::Welch)
    } else if names_match(s, kind_name(ApodizationKind::Interpolate)) {
        Some(ApodizationKind::Interpolate)
    } else {
        None
    }
}

/// The window that a kind and a parameter describe, if the parameter has the
/// shape that the kind requires.
pub open spec fn decoded<P>(kind: Seq<char>, p: ParamValue<P>) -> Option<Apodization<P>> {
    match kind_of_name(kind) {
        None => None,
        Some(k) => match (k, p) {
            (ApodizationKind::Off, _) => Some(Apodization::Off),
            (ApodizationKind::Gaussian, ParamValue::Record { fwhm_um: Some(w) }) => Some(
                Apodization::Gaussian { fwhm_um: w },
            ),
            (ApodizationKind::Bartlett, ParamValue::Number(x)) => Some(Apodization::Bartlett(x)),
            (ApodizationKind::Blackman, ParamValue::Number(x)) => Some(Apodization::Blackman(x)),
            (ApodizationKind::Connes, ParamValue::Number(x)) => Some(Apodization::Connes(x)),
            (ApodizationKind::Cosine, ParamValue::Number(x)) => Some(Apodization::Cosine(x)),
            (ApodizationKind::Hamming, ParamValue::Number(x)) => Some(Apodization::Hamming(x)),
            (ApodizationKind::Welch, ParamValue::Number(x)) => Some(Apodization::Welch(x)),
            (ApodizationKind::Interpolate, ParamValue::List(v)) => Some(Apodization::Interpolate(v)),
            _ => None,
        },
    }
}

/// The kind of a window.
pub open spec fn kind_of<P>(a: Apodization<P>) -> ApodizationKind {
    match a {
        Apodization::Off => ApodizationKind::Off,
        Apodization::Gaussian { .. } => ApodizationKind::Gaussian,
        Apodization::Bartlett(_) => ApodizationKind::Bartlett,
        Apodization::Blackman(_) => ApodizationKind::Blackman,
        Apodization::Connes(_) => ApodizationKind::Connes,
        Apodization::Cosine(_) => ApodizationKind::Cosine,
        Apodization::Hamming(_) => ApodizationKind::Hamming,
        Apodization::Welch(_) => ApodizationKind::Welch,
        Apodization::Interpolate(_) => ApodizationKind::Interpolate,
    }
}

/// The parameter field that encoding a window emits; `Off` emits none.
pub open spec fn encoded_param<P>(a: Apodization<P>) -> ParamValue<P> {
    match a {
        Apodization::Off => ParamValue::Absent,
        Apodization::Gaussian { fwhm_um } => ParamValue::Record { fwhm_um: Some(fwhm_um) },
        Apodization::Bartlett(x) => ParamValue::Number(x),
        Apodization::Blackman(x) => ParamValue::Number(x),
        Apodization::Connes(x) => ParamValue::Number(x),
        Apodization::Cosine(x) => ParamValue::Number(x),
        Apodization::Hamming(x) => ParamValue::Number(x),
        Apodization::Welch(x) => ParamValue::Number(x),
        Apodization::Interpolate(v) => ParamValue::List(v),
    }
}

impl ApodizationKind {
    /// The canonical name of the kind.
    pub fn name(&self) -> (r: &'static str)
        ensures
            r@ == kind_name(*self),
    {
        match self {
            ApodizationKind::Off => "off",
            ApodizationKind::Gaussian => "gaussian",
            ApodizationKind::Bartlett => "bartlett",
            ApodizationKind::Blackman => "blackman",
            ApodizationKind::Connes => "connes",
            ApodizationKind::Cosine => "cosine",
            ApodizationKind::Hamming => "hamming",
            ApodizationKind::Welch => "welch",
            ApodizationKind::Interpolate => "interpolate",
        }
    }

    /// Look a discriminator up among the nine names, ignoring ASCII case.
    pub fn from_name(s: &str) -> (r: Option<ApodizationKind>)
        ensures
            r == kind_of_name(s@),
    {
        if name_matches(s, "off") {
            Some(ApodizationKind::Off)
        } else if name_matches(s, "gaussian") {
            Some(ApodizationKind::Gaussian)
        } else if name_matches(s, "bartlett") {
            Some(ApodizationKind::Bartlett)
        } else if name_matches(s, "blackman") {
            Some(ApodizationKind::Blackman)
        } else if name_matches(s, "connes") {
            Some(ApodizationKind::Connes)
        } else if name_matches(s, "cosine") {
            Some(ApodizationKind::Cosine)
        } else if name_matches(s, "hamming") {
            Some(ApodizationKind::Hamming)
        } else if name_matches(s, "welch") {
            Some(ApodizationKind::Welch)
        } else if name_matches(s, "interpolate") {
            Some(ApodizationKind::Interpolate)
        } else {
            None
        }
    }
}

/// Whether `s` spells the lower-case `name`, ignoring ASCII case.
pub fn name_matches(s: &str, name: &str) -> (r: bool)
    ensures
        r == names_match(s@, name@),
{
    let n = s.unicode_len();
    let m = name.unicode_len();
    if n != m {
        return false;
    }
    let mut i: usize = 0;
    while i < n
        invariant
            n == s@.len(),
            m == name@.len(),
            n == m,
            i <= n,
            forall|j: int| 0 <= j < i ==> char_matches(s@[j], name@[j]),
        decreases n - i,
    {
        let c = s.get_char(i);
        let l = name.get_char(i);
        let same = c == l || ('A' <= c && c <= 'Z' && (c as u32) + 32 == l as u32);
        if !same {
            return false;
        }
        i = i + 1;
    }
    true
}

impl<P> Apodization<P> {
    /// The kind of this window.
    pub fn kind(&self) -> (r: ApodizationKind)
        ensures
            r == kind_of(*self),
    {
        match self {
            Apodization::Off => ApodizationKind::Off,
            Apodization::Gaussian { .. } => ApodizationKind::Gaussian,
            Apodization::Bartlett(_) => ApodizationKind::Bartlett,
            Apodization::Blackman(_) => ApodizationKind::Blackman,
            Apodization::Connes(_) => ApodizationKind::Connes,
            Apodization::Cosine(_) => ApodizationKind::Cosine,
            Apodization::Hamming(_) => ApodizationKind::Hamming,
            Apodization::Welch(_) => ApodizationKind::Welch,
            Apodization::Interpolate(_) => ApodizationKind::Interpolate,
        }
    }
}

/// Decode the exchange shape into a window.
///
/// The discriminator is looked up case-insensitively; `off` needs no
/// parameter, `gaussian` a record with `fwhm_um`, `interpolate` a list, and
/// the six windowed kinds a single number. Anything else is a parse error.
pub fn decode<P>(record: ApodizationRecord<P>) -> (r: Result<Apodization<P>, SpdcError>)
    ensures
        match r {
            Ok(a) => decoded(record.kind@, record.parameter) == Some(a),
            Err(e) => decoded(record.kind@, record.parameter) is None && e.kind
                == crate::error::ErrorKind::Parse,
        },
{
    let ApodizationRecord { kind, parameter } = record;
    let k = match ApodizationKind::from_name(kind.as_str()) {
        Some(k) => k,
        None => {
            return Err(SpdcError::parse("unknown apodization kind".to_string()));
        },
    };
    match (k, parameter) {
        (ApodizationKind::Off, _) => Ok(Apodization::Off),
        (ApodizationKind::Gaussian, ParamValue::Record { fwhm_um: Some(w) }) => Ok(
            Apodization::Gaussian { fwhm_um: w },
        ),
        (ApodizationKind::Gaussian, _) => Err(
            SpdcError::parse(
                "gaussian apodization expects a record with 'fwhm_um' as parameter".to_string(),
            ),
        ),
        (ApodizationKind::Interpolate, ParamValue::List(v)) => Ok(Apodization::Interpolate(v)),
        (ApodizationKind::Interpolate, _) => Err(
            SpdcError::parse("interpolate apodization expects a list as parameter".to_string()),
        ),
        (ApodizationKind::Bartlett, ParamValue::Number(x)) => Ok(Apodization::Bartlett(x)),
        (ApodizationKind::Blackman, ParamValue::Number(x)) => Ok(Apodization::Blackman(x)),
        (ApodizationKind::Connes, ParamValue::Number(x)) => Ok(Apodization::Connes(x)),
        (ApodizationKind::Cosine, ParamValue::Number(x)) => Ok(Apodization::Cosine(x)),
        (ApodizationKind::Hamming, ParamValue::Number(x)) => Ok(Apodization::Hamming(x)),
        (ApodizationKind::Welch, ParamValue::Number(x)) => Ok(Apodization::Welch(x)),
        (_, _) => Err(
            SpdcError::parse("windowed apodization expects a number as parameter".to_string()),
        ),
    }
}

/// Encode a window into the exchange shape: its canonical kind name and its
/// parameter (none for `Off`).
pub fn encode<P>(a: Apodization<P>) -> (r: ApodizationRecord<P>)
    ensures
        r.kind@ == kind_name(kind_of(a)),
        r.parameter == encoded_param(a),
{
    let kind = a.kind().name().to_string();
    let parameter = match a {
        Apodization::Off => ParamValue::Absent,
        Apodization::Gaussian { fwhm_um } => ParamValue::Record { fwhm_um: Some(fwhm_um) },
        Apodization::Bartlett(x) => ParamValue::Number(x),
        Apodization::Blackman(x) => ParamValue::Number(x),
        Apodization::Connes(x) => ParamValue::Number(x),
        Apodization::Cosine(x) => ParamValue::Number(x),
        Apodization::Hamming(x) => ParamValue::Number(x),
        Apodization::Welch(x) => ParamValue::Number(x),
        Apodization::Interpolate(v) => ParamValue::List(v),
    };
    ApodizationRecord { kind, parameter }
}

/// Each canonical name is found again by the case-insensitive lookup, as the
/// kind it names.
pub proof fn lemma_kind_name_lookup(k: ApodizationKind)
    ensures
        kind_of_name(kind_name(k)) == Some(k),
{
    reveal_strlit("off");
    reveal_strlit("gaussian");
    reveal_strlit("bartlett");
    reveal_strlit("blackman");
    reveal_strlit("connes");
    reveal_strlit("cosine");
    reveal_strlit("hamming");
    reveal_strlit("welch");
    reveal_strlit("interpolate");
    let s = kind_name(k);
    assert(names_match(s, s));
    if k != ApodizationKind::Off {
        assert(!names_match(s, kind_name(ApodizationKind::Off))) by {
            if s.len() == 3 {
                assert(!char_matches(s[0], 'o'));
            }
        }
    }
    if k != ApodizationKind::Off && k != ApodizationKind::Gaussian {
        assert(!names_match(s, kind_name(ApodizationKind::Gaussian))) by {
            if s.len() == 8 {
                assert(!char_matches(s[0], 'g'));
            }
        }
    }
    if k != ApodizationKind::Off && k != ApodizationKind::Gaussian && k
        != ApodizationKind::Bartlett {
        assert(!names_match(s, kind_name(ApodizationKind::Bartlett))) by {
            if s.len() == 8 {
                assert(!char_matches(s[1], 'a'));
            }
        }
    }
    if k == ApodizationKind::Cosine {
        assert(!names_match(s, kind_name(ApodizationKind::Connes))) by {
            assert(!char_matches(s[2], 'n'));
        }
    }
}

/// Decoding what encoding a window emits gives that window back, for each of
/// the nine kinds.
pub proof fn lemma_codec_round_trip<P>(a: Apodization<P>)
    ensures
        decoded(kind_name(kind_of(a)), encoded_param(a)) == Some(a),
{
    lemma_kind_name_lookup(kind_of(a));
}

} // verus!
