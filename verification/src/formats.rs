//! The text formats of the EXIF description: GPS coordinates in degrees,
//! minutes and seconds such as `30°7′15″ N` or in decimal degrees such as
//! `30.1126`, focal lengths such as `35mm`, exposure times such as `1/250 s`
//! or `1/200s`, and the number text of apertures (`f/2.0`) and exposure
//! compensations (`+0.3 EV`).

use vstd::prelude::*;
use crate::text::{
    all_digits, chars_of, digits_value, find_first, first_index, first_word, first_word_bounds,
    lemma_first_index, lemma_split_head, parse_u32, parse_u32_range, split_on, strip_prefix_all,
    digits_only, push_chars, is_digit,
    strip_prefix_bound, strip_suffix_all, strip_suffix_bound, trim, trim_bounds,
};

verus! {

/// Why a value of the EXIF description could not be read.
#[derive(Debug, Clone, Copy, PartialEq, Eq, Structural)]
pub enum FormatError {
    /// A GPS coordinate with fewer than three parts that is no number of
    /// decimal degrees either.
    GpsFormat,
    /// The degrees of a GPS coordinate are no number.
    GpsDegrees,
    /// The minutes of a GPS coordinate are no number.
    GpsMinutes,
    /// The seconds of a GPS coordinate are no number.
    GpsSeconds,
    /// A focal length that is no number of millimetres.
    FocalLength,
    /// An exposure time that is not a single fraction.
    ExposureTimeFormat,
    /// The numerator of an exposure time is no number.
    ExposureTimeNumerator,
    /// The denominator of an exposure time is no number.
    ExposureTimeDenominator,
}

/// The characters that end the degrees, the minutes and the seconds of a
/// GPS coordinate.
pub open spec fn gps_marks() -> Seq<char> {
    seq!['°', '′', '″']
}

/// The text of the seconds of a GPS coordinate: the first word of the third
/// part, or `0` when that part is blank.
pub open spec fn seconds_text(part: Seq<char>) -> Seq<char> {
    match first_word(trim(part)) {
        Some(w) => w,
        None => seq!['0'],
    }
}

/// `10` to the power `k`.
pub open spec fn pow10(k: nat) -> nat
    decreases k,
{
    if k == 0 {
        1
    } else {
        10 * pow10((k - 1) as nat)
    }
}

/// The decimal point.
pub open spec fn decimal_point() -> Seq<char> {
    seq!['.']
}

/// A coordinate in decimal degrees such as `30.1126` or `-117.9431`: an
/// optional sign, whole degrees, and optionally a point followed by one to
/// nine digits. `Some` of the unsigned degrees as a rational (the digits
/// without the point over the power of ten of the fraction's length) and
/// whether the sign is a minus, when that numerator fits in 32 bits.
pub open spec fn decimal_degrees(s: Seq<char>) -> Option<(u32, u32, bool)> {
    let minus = s.len() > 0 && s[0] == '-';
    let body = if s.len() > 0 && (s[0] == '+' || s[0] == '-') {
        s.drop_first()
    } else {
        s
    };
    let k = first_index(body, decimal_point());
    let whole = body.take(k as int);
    let frac = if k < body.len() {
        body.skip(k + 1 as int)
    } else {
        Seq::empty()
    };
    if whole.len() > 0 && all_digits(whole) && all_digits(frac) && (k < body.len() ==> frac.len()
        > 0) && frac.len() <= 9 && digits_value(whole + frac) <= u32::MAX {
        Some((digits_value(whole + frac) as u32, pow10(frac.len()) as u32, minus))
    } else {
        None
    }
}

/// A GPS coordinate as degrees, minutes and seconds, each a rational: in
/// the form `30°7′15″ N`, whole degrees, minutes and seconds over 1; in
/// decimal degrees (`30.1126`), the degrees as read by `decimal_degrees`
/// and no minutes or seconds.
pub open spec fn gps_coordinate(s: Seq<char>) -> Result<(u32, u32, u32, u32, u32, u32), FormatError> {
    let parts = split_on(s, gps_marks());
    if parts.len() < 3 {
        match decimal_degrees(trim(s)) {
            Some((n, d, _)) => Ok((n, d, 0u32, 1u32, 0u32, 1u32)),
            None => Err(FormatError::GpsFormat),
        }
    } else {
        match parse_u32(trim(parts[0])) {
            None => Err(FormatError::GpsDegrees),
            Some(d) => match parse_u32(trim(parts[1])) {
                None => Err(FormatError::GpsMinutes),
                Some(m) => match parse_u32(seconds_text(parts[2])) {
                    None => Err(FormatError::GpsSeconds),
                    Some(sec) => Ok((d, 1, m, 1, sec, 1)),
                },
            },
        }
    }
}

/// The unit after a focal length.
pub open spec fn millimetres() -> Seq<char> {
    seq!['m', 'm']
}

/// A focal length in whole millimetres, as a rational with denominator 1.
pub open spec fn focal_length(s: Seq<char>) -> Result<(u32, u32), FormatError> {
    match parse_u32(trim(strip_suffix_all(trim(s), millimetres()))) {
        Some(n) => Ok((n, 1)),
        None => Err(FormatError::FocalLength),
    }
}

/// The unit after an exposure time, with and without its space.
pub open spec fn seconds_unit() -> Seq<char> {
    seq![' ', 's']
}

pub open spec fn seconds_unit_bare() -> Seq<char> {
    seq!['s']
}

/// The fraction bar of an exposure time.
pub open spec fn fraction_bar() -> Seq<char> {
    seq!['/']
}

/// An exposure time `numerator/denominator`, with an optional unit ` s` or
/// `s` (as in `1/250 s` and `1/200s`).
pub open spec fn exposure_time(s: Seq<char>) -> Result<(u32, u32), FormatError> {
    let clean = trim(strip_suffix_all(strip_suffix_all(trim(s), seconds_unit()), seconds_unit_bare()));
    let parts = split_on(clean, fraction_bar());
    if clean.contains('/') && parts.len() == 2 {
        match parse_u32(trim(parts[0])) {
            None => Err(FormatError::ExposureTimeNumerator),
            Some(n) => match parse_u32(trim(parts[1])) {
                None => Err(FormatError::ExposureTimeDenominator),
                Some(d) => Ok((n, d)),
            },
        }
    } else {
        Err(FormatError::ExposureTimeFormat)
    }
}

/// The prefix of an aperture.
pub open spec fn aperture_prefix() -> Seq<char> {
    seq!['f', '/']
}

/// The number text of an aperture such as `f/2.8`.
pub open spec fn f_number_digits(s: Seq<char>) -> Seq<char> {
    trim(strip_prefix_all(trim(s), aperture_prefix()))
}

/// The unit after an exposure compensation, with and without its space.
pub open spec fn ev_unit_spaced() -> Seq<char> {
    seq![' ', 'E', 'V']
}

pub open spec fn ev_unit() -> Seq<char> {
    seq!['E', 'V']
}

/// The number text of an exposure compensation such as `+0.3 EV`.
pub open spec fn exposure_compensation_digits(s: Seq<char>) -> Seq<char> {
    trim(strip_suffix_all(strip_suffix_all(trim(s), ev_unit_spaced()), ev_unit()))
}

/// `10` to the power `k`, for `k` up to nine.
fn pow10_u32(k: usize) -> (r: u32)
    requires
        k <= 9,
    ensures
        r == pow10(k as nat),
{
    proof {
        reveal_with_fuel(pow10, 10);
    }
    let mut r: u32 = 1;
    let mut i: usize = 0;
    while i < k
        invariant
            i <= k <= 9,
            r == pow10(i as nat),
            r <= 100_000_000 || i == 9,
        decreases k - i,
    {
        assert(pow10((i + 1) as nat) == 10 * pow10(i as nat));
        assert(i < 9);
        assert(r <= 100_000_000) by {
            if i <= 8 {
                assert(pow10(i as nat) <= 100_000_000) by {
                    reveal_with_fuel(pow10, 10);
                }
            }
        }
        r = r * 10;
        i += 1;
        assert(r <= 100_000_000 || i == 9) by {
            reveal_with_fuel(pow10, 10);
        }
    }
    r
}

/// A whole text read as a coordinate in decimal degrees, once it has fewer
/// than three parts.
fn decimal_coordinate(v: &Vec<char>) -> (r: Result<(u32, u32, u32, u32, u32, u32), FormatError>)
    ensures
        r == (match decimal_degrees(trim(v@)) {
            Some((n, d, _)) => Ok((n, d, 0u32, 1u32, 0u32, 1u32)),
            None => Err(FormatError::GpsFormat),
        }),
{
    assert(v@.subrange(0, v@.len() as int) =~= v@);
    let (a, b) = trim_bounds(v, 0, v.len());
    match parse_decimal_degrees(v, a, b) {
        Some((n, d, _)) => Ok((n, d, 0, 1, 0, 1)),
        None => Err(FormatError::GpsFormat),
    }
}

/// Reads `v[lo..hi]` as decimal degrees (see `decimal_degrees`).
pub fn parse_decimal_degrees(v: &Vec<char>, lo: usize, hi: usize) -> (r: Option<(u32, u32, bool)>)
    requires
        lo <= hi <= v.len(),
    ensures
        r == decimal_degrees(v@.subrange(lo as int, hi as int)),
{
    let ghost s = v@.subrange(lo as int, hi as int);
    let minus = lo < hi && v[lo] == '-';
    let start = if lo < hi && (v[lo] == '+' || v[lo] == '-') {
        lo + 1
    } else {
        lo
    };
    let ghost body = v@.subrange(start as int, hi as int);
    assert(body =~= (if s.len() > 0 && (s[0] == '+' || s[0] == '-') {
        s.drop_first()
    } else {
        s
    }));
    let dot = vec!['.'];
    assert(dot@ =~= decimal_point());
    let k = find_first(v, start, hi, &dot);
    let frac_lo = if k < hi {
        k + 1
    } else {
        hi
    };
    let ghost whole = body.take(k - start);
    let ghost frac = if k < hi {
        body.skip(k - start + 1)
    } else {
        Seq::<char>::empty()
    };
    assert(whole =~= v@.subrange(start as int, k as int));
    assert(frac =~= v@.subrange(frac_lo as int, hi as int));
    if k == start || (k < hi && frac_lo == hi) || hi - frac_lo > 9 {
        return None;
    }
    if !digits_only(v, start, k) || !digits_only(v, frac_lo, hi) {
        return None;
    }
    let mut digits: Vec<char> = Vec::new();
    push_chars(&mut digits, v, start, k);
    push_chars(&mut digits, v, frac_lo, hi);
    assert(digits@ =~= whole + frac);
    let ghost d = whole + frac;
    assert(all_digits(d)) by {
        assert forall|j: int| 0 <= j < d.len() implies is_digit(#[trigger] d[j]) by {
            if j < whole.len() {
                assert(d[j] == whole[j]);
            } else {
                assert(d[j] == frac[j - whole.len()]);
            }
        }
    }
    assert(d[0] == whole[0]);
    assert(is_digit(whole[0]));
    assert(digits@.subrange(0, digits@.len() as int) =~= d);
    match parse_u32_range(&digits, 0, digits.len()) {
        None => None,
        Some(n) => Some((n, pow10_u32(hi - frac_lo), minus)),
    }
}

/// Reads a GPS coordinate such as `30°7′15″ N`: the text is split at `°`,
/// `′` and `″`; the first two parts are the degrees and minutes, the first
/// word of the third the seconds (0 when it is blank). A text with fewer
/// than three parts is read as decimal degrees such as `30.1126`.
pub fn parse_gps_coordinate(coord_str: &str) -> (r: Result<(u32, u32, u32, u32, u32, u32), FormatError>)
    ensures
        r == gps_coordinate(coord_str@),
{
    let v = chars_of(coord_str);
    let n = v.len();
    let marks = vec!['°', '′', '″'];
    assert(marks@ =~= gps_marks());
    let ghost s = v@;
    assert(v@.subrange(0, n as int) =~= s);
    let i0 = find_first(&v, 0, n, &marks);
    proof {
        lemma_split_head(s, gps_marks());
    }
    if i0 == n {
        return decimal_coordinate(&v);
    }
    let ghost s1 = s.skip(i0 + 1);
    assert(v@.subrange(i0 + 1, n as int) =~= s1);
    let i1 = find_first(&v, i0 + 1, n, &marks);
    proof {
        lemma_split_head(s1, gps_marks());
        assert(split_on(s, gps_marks()) == seq![s.take(i0 as int)] + split_on(s1, gps_marks()));
    }
    if i1 == n {
        return decimal_coordinate(&v);
    }
    let ghost s2 = s1.skip(i1 - i0);
    assert(v@.subrange(i1 + 1, n as int) =~= s2);
    let i2 = find_first(&v, i1 + 1, n, &marks);
    proof {
        lemma_split_head(s2, gps_marks());
        assert(split_on(s1, gps_marks()) == seq![s1.take(i1 - i0 - 1)] + split_on(
            s2,
            gps_marks(),
        ));
        let parts = split_on(s, gps_marks());
        assert(parts.len() >= 3);
        assert(parts[0] =~= v@.subrange(0, i0 as int));
        assert(parts[1] =~= v@.subrange(i0 + 1, i1 as int));
        assert(parts[2] =~= v@.subrange(i1 + 1, i2 as int));
    }
    let (a, b) = trim_bounds(&v, 0, i0);
    let degrees = match parse_u32_range(&v, a, b) {
        Some(d) => d,
        None => {
            return Err(FormatError::GpsDegrees);
        },
    };
    let (a, b) = trim_bounds(&v, i0 + 1, i1);
    let minutes = match parse_u32_range(&v, a, b) {
        Some(m) => m,
        None => {
            return Err(FormatError::GpsMinutes);
        },
    };
    let (a, b) = trim_bounds(&v, i1 + 1, i2);
    let seconds = match first_word_bounds(&v, a, b) {
        Some((c, d)) => match parse_u32_range(&v, c, d) {
            Some(sec) => sec,
            None => {
                return Err(FormatError::GpsSeconds);
            },
        },
        None => {
            assert(digits_value(seq!['0']) == 0) by {
                assert(digits_value(Seq::<char>::empty()) == 0);
                assert(seq!['0'].drop_last() =~= Seq::<char>::empty());
                assert(seq!['0'].last() == '0');
                assert(('0' as u32) == 48);
            }
            assert(parse_u32(seq!['0']) == Some(0u32));
            0
        },
    };
    Ok((degrees, 1, minutes, 1, seconds, 1))
}

/// Reads a focal length such as `35mm`: trailing `mm` units are dropped
/// and the rest is a whole number of millimetres.
pub fn parse_focal_length(focal_str: &str) -> (r: Result<(u32, u32), FormatError>)
    ensures
        r == focal_length(focal_str@),
{
    let v = chars_of(focal_str);
    let n = v.len();
    let mm = vec!['m', 'm'];
    assert(mm@ =~= millimetres());
    assert(v@.subrange(0, n as int) =~= v@);
    let (a, b) = trim_bounds(&v, 0, n);
    let b = strip_suffix_bound(&v, a, b, &mm);
    let (c, d) = trim_bounds(&v, a, b);
    match parse_u32_range(&v, c, d) {
        Some(f) => Ok((f, 1)),
        None => Err(FormatError::FocalLength),
    }
}

/// Reads an exposure time such as `1/250 s` or `1/200s`: trailing ` s`,
/// then trailing `s` units are dropped, and the rest must be two whole
/// numbers around a single `/`.
pub fn parse_exposure_time(exp_str: &str) -> (r: Result<(u32, u32), FormatError>)
    ensures
        r == exposure_time(exp_str@),
{
    let v = chars_of(exp_str);
    let n = v.len();
    let unit = vec![' ', 's'];
    assert(unit@ =~= seconds_unit());
    let bare = vec!['s'];
    assert(bare@ =~= seconds_unit_bare());
    let bar = vec!['/'];
    assert(bar@ =~= fraction_bar());
    assert(v@.subrange(0, n as int) =~= v@);
    let (a, b) = trim_bounds(&v, 0, n);
    let b = strip_suffix_bound(&v, a, b, &unit);
    let b = strip_suffix_bound(&v, a, b, &bare);
    let (c, d) = trim_bounds(&v, a, b);
    let ghost clean = v@.subrange(c as int, d as int);
    let i0 = find_first(&v, c, d, &bar);
    proof {
        lemma_first_index(clean, fraction_bar());
        lemma_split_head(clean, fraction_bar());
        if clean.contains('/') {
            let j = choose|j: int| 0 <= j < clean.len() && clean[j] == '/';
            assert(fraction_bar().contains(clean[j]));
        }
        if i0 < d {
            assert(fraction_bar().contains(clean[i0 - c]));
            assert(fraction_bar()[0] == '/');
            assert(clean[i0 - c] == '/');
        }
    }
    if i0 == d {
        return Err(FormatError::ExposureTimeFormat);
    }
    let ghost rest = clean.skip(i0 - c + 1);
    assert(v@.subrange(i0 + 1, d as int) =~= rest);
    let i1 = find_first(&v, i0 + 1, d, &bar);
    proof {
        lemma_split_head(rest, fraction_bar());
        assert(split_on(clean, fraction_bar()) == seq![clean.take(i0 - c)] + split_on(
            rest,
            fraction_bar(),
        ));
    }
    if i1 != d {
        return Err(FormatError::ExposureTimeFormat);
    }
    proof {
        let parts = split_on(clean, fraction_bar());
        assert(parts.len() == 2);
        assert(parts[0] =~= v@.subrange(c as int, i0 as int));
        assert(rest.take(rest.len() as int) =~= rest);
        assert(parts[1] =~= v@.subrange(i0 + 1, d as int));
    }
    let (a, b) = trim_bounds(&v, c, i0);
    let num = match parse_u32_range(&v, a, b) {
        Some(x) => x,
        None => {
            return Err(FormatError::ExposureTimeNumerator);
        },
    };
    let (a, b) = trim_bounds(&v, i0 + 1, d);
    match parse_u32_range(&v, a, b) {
        Some(den) => Ok((num, den)),
        None => Err(FormatError::ExposureTimeDenominator),
    }
}

/// The number text of an aperture such as `f/2.8` (here `2.8`): leading
/// `f/` prefixes and surrounding whitespace removed.
pub fn f_number_text(f_str: &str) -> (r: &str)
    ensures
        r@ == f_number_digits(f_str@),
{
    let v = chars_of(f_str);
    let n = v.len();
    let prefix = vec!['f', '/'];
    assert(prefix@ =~= aperture_prefix());
    assert(v@.subrange(0, n as int) =~= v@);
    let (a, b) = trim_bounds(&v, 0, n);
    let a = strip_prefix_bound(&v, a, b, &prefix);
    let (c, d) = trim_bounds(&v, a, b);
    f_str.substring_char(c, d)
}

/// The number text of an exposure compensation such as `+0.3 EV` (here
/// `+0.3`): trailing ` EV`, then trailing `EV` units and surrounding
/// whitespace removed.
pub fn exposure_compensation_text(comp_str: &str) -> (r: &str)
    ensures
        r@ == exposure_compensation_digits(comp_str@),
{
    let v = chars_of(comp_str);
    let n = v.len();
    let spaced = vec![' ', 'E', 'V'];
    assert(spaced@ =~= ev_unit_spaced());
    let unit = vec!['E', 'V'];
    assert(unit@ =~= ev_unit());
    assert(v@.subrange(0, n as int) =~= v@);
    let (a, b) = trim_bounds(&v, 0, n);
    let b = strip_suffix_bound(&v, a, b, &spaced);
    let b = strip_suffix_bound(&v, a, b, &unit);
    let (c, d) = trim_bounds(&v, a, b);
    comp_str.substring_char(c, d)
}

} // verus!
