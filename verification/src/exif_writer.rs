//! The EXIF fields written for an EXIF description, and their TIFF
//! encoding.

use vstd::prelude::*;
use std::io::Cursor;
use exif::experimental::Writer;
use exif::{Context, Field, In, Tag, Value};
use crate::exif_data::ExifData;
use crate::formats::{
    decimal_degrees, exposure_time, focal_length, gps_coordinate, parse_decimal_degrees,
    parse_exposure_time, parse_focal_length, parse_gps_coordinate,
};
use crate::text::{chars_of, contains_char, trim, trim_bounds};

verus! {

/// The directory of the TIFF structure that a tag belongs to.
#[derive(Debug, Clone, Copy, PartialEq, Eq, Structural)]
pub enum TagContext {
    /// The primary image directory.
    Tiff,
    /// The EXIF sub-directory.
    Exif,
    /// The GPS sub-directory.
    Gps,
}

/// The tags that are written.
#[derive(Debug, Clone, Copy, PartialEq, Eq, Structural)]
pub enum ExifTag {
    Make,
    Model,
    LensModel,
    DateTimeOriginal,
    PhotographicSensitivity,
    FocalLength,
    FNumber,
    ExposureTime,
    ExposureBiasValue,
    GPSLatitudeRef,
    GPSLatitude,
    GPSLongitudeRef,
    GPSLongitude,
    ImageDescription,
}

impl ExifTag {
    /// The directory of the tag, as the EXIF specification places it.
    pub open spec fn spec_context(self) -> TagContext {
        match self {
            ExifTag::Make | ExifTag::Model | ExifTag::ImageDescription => TagContext::Tiff,
            ExifTag::GPSLatitudeRef | ExifTag::GPSLatitude | ExifTag::GPSLongitudeRef
            | ExifTag::GPSLongitude => TagContext::Gps,
            _ => TagContext::Exif,
        }
    }

    /// The number of the tag in its directory.
    pub open spec fn spec_number(self) -> u16 {
        match self {
            ExifTag::Make => 0x10f,
            ExifTag::Model => 0x110,
            ExifTag::ImageDescription => 0x10e,
            ExifTag::LensModel => 0xa434,
            ExifTag::DateTimeOriginal => 0x9003,
            ExifTag::PhotographicSensitivity => 0x8827,
            ExifTag::FocalLength => 0x920a,
            ExifTag::FNumber => 0x829d,
            ExifTag::ExposureTime => 0x829a,
            ExifTag::ExposureBiasValue => 0x9204,
            ExifTag::GPSLatitudeRef => 0x1,
            ExifTag::GPSLatitude => 0x2,
            ExifTag::GPSLongitudeRef => 0x3,
            ExifTag::GPSLongitude => 0x4,
        }
    }

    /// The directory of the tag.
    pub fn context(&self) -> (r: TagContext)
        ensures
            r == self.spec_context(),
    {
        match self {
            ExifTag::Make | ExifTag::Model | ExifTag::ImageDescription => TagContext::Tiff,
            ExifTag::GPSLatitudeRef | ExifTag::GPSLatitude | ExifTag::GPSLongitudeRef
            | ExifTag::GPSLongitude => TagContext::Gps,
            _ => TagContext::Exif,
        }
    }

    /// The number of the tag in its directory.
    pub fn number(&self) -> (r: u16)
        ensures
            r == self.spec_number(),
    {
        match self {
            ExifTag::Make => 0x10f,
            ExifTag::Model => 0x110,
            ExifTag::ImageDescription => 0x10e,
            ExifTag::LensModel => 0xa434,
            ExifTag::DateTimeOriginal => 0x9003,
            ExifTag::PhotographicSensitivity => 0x8827,
            ExifTag::FocalLength => 0x920a,
            ExifTag::FNumber => 0x829d,
            ExifTag::ExposureTime => 0x829a,
            ExifTag::ExposureBiasValue => 0x9204,
            ExifTag::GPSLatitudeRef => 0x1,
            ExifTag::GPSLatitude => 0x2,
            ExifTag::GPSLongitudeRef => 0x3,
            ExifTag::GPSLongitude => 0x4,
        }
    }
}

/// The value of a field.
#[derive(Debug, PartialEq, Eq)]
pub enum FieldValue {
    /// One ASCII string, as its bytes (without the terminating NUL).
    Ascii(Vec<u8>),
    /// One unsigned 16-bit number.
    Short(u16),
    /// Unsigned rationals, as numerator and denominator.
    Rational(Vec<(u32, u32)>),
    /// Signed rationals, as numerator and denominator.
    SRational(Vec<(i32, i32)>),
}

/// The value of a field as plain sequences.
pub enum ValueView {
    Ascii(Seq<u8>),
    Short(u16),
    Rational(Seq<(u32, u32)>),
    SRational(Seq<(i32, i32)>),
}

impl View for FieldValue {
    type V = ValueView;

    open spec fn view(&self) -> ValueView {
        match self {
            FieldValue::Ascii(b) => ValueView::Ascii(b@),
            FieldValue::Short(n) => ValueView::Short(*n),
            FieldValue::Rational(v) => ValueView::Rational(v@),
            FieldValue::SRational(v) => ValueView::SRational(v@),
        }
    }
}

/// The number of the image directory of the primary image (the one that
/// the fields describe; the next one would be a thumbnail's).
pub const PRIMARY_IMAGE: u16 = 0;

/// A field: its tag, given by directory and number, the number of the image
/// it belongs to, and its value.
#[derive(Debug, PartialEq, Eq)]
pub struct ExifField {
    pub context: TagContext,
    pub number: u16,
    pub ifd_num: u16,
    pub value: FieldValue,
}

/// A field as plain values.
pub struct FieldView {
    pub context: TagContext,
    pub number: u16,
    pub ifd_num: u16,
    pub value: ValueView,
}

impl View for ExifField {
    type V = FieldView;

    open spec fn view(&self) -> FieldView {
        FieldView {
            context: self.context,
            number: self.number,
            ifd_num: self.ifd_num,
            value: self.value@,
        }
    }
}

/// The fields of a list, as plain values.
pub open spec fn fields_view(fields: Seq<ExifField>) -> Seq<FieldView> {
    fields.map_values(|f: ExifField| f@)
}

/// Two fields with the same tag.
pub open spec fn same_tag(a: FieldView, b: FieldView) -> bool {
    a.context == b.context && a.number == b.number
}

/// No two of the fields have the same tag.
pub open spec fn distinct_tags(fs: Seq<FieldView>) -> bool {
    forall|i: int, j: int| 0 <= i < j < fs.len() ==> !same_tag(#[trigger] fs[i], #[trigger] fs[j])
}

/// The field of the primary image with tag `tag` and value `value`.
pub open spec fn field(tag: ExifTag, value: ValueView) -> FieldView {
    FieldView {
        context: tag.spec_context(),
        number: tag.spec_number(),
        ifd_num: PRIMARY_IMAGE,
        value,
    }
}

/// The ASCII field with tag `tag` holding the UTF-8 bytes of `s`.
pub open spec fn text_field(tag: ExifTag, s: Seq<char>) -> FieldView {
    field(tag, ValueView::Ascii(vstd::utf8::encode_utf8(s)))
}

/// `fs` when `cond` holds, nothing otherwise.
pub open spec fn when(cond: bool, fs: Seq<FieldView>) -> Seq<FieldView> {
    if cond {
        fs
    } else {
        Seq::empty()
    }
}

/// The text field for `s`, unless `s` is empty.
pub open spec fn text_if_set(tag: ExifTag, s: Seq<char>) -> Seq<FieldView> {
    when(s.len() > 0, seq![text_field(tag, s)])
}

/// The one-rational field for `r`, when `r` is given.
pub open spec fn rational_if(tag: ExifTag, set: bool, r: Option<(u32, u32)>) -> Seq<FieldView> {
    match r {
        Some(q) => when(set, seq![field(tag, ValueView::Rational(seq![q]))]),
        None => Seq::empty(),
    }
}

/// The byte of a hemisphere letter: for a coordinate in decimal degrees,
/// `negative` when it has a minus sign and `positive` otherwise; for any
/// other text, `positive` when it holds `letter` and `negative` otherwise.
pub open spec fn hemisphere_ref(s: Seq<char>, letter: char, positive: u8, negative: u8) -> u8 {
    match decimal_degrees(trim(s)) {
        Some((_, _, minus)) => if minus {
            negative
        } else {
            positive
        },
        None => if s.contains(letter) {
            positive
        } else {
            negative
        },
    }
}

/// The byte of the hemisphere letter of a latitude: `N` or `S`.
pub open spec fn latitude_ref(s: Seq<char>) -> u8 {
    hemisphere_ref(s, 'N', 0x4E, 0x53)
}

/// The byte of the hemisphere letter of a longitude: `E` or `W`.
pub open spec fn longitude_ref(s: Seq<char>) -> u8 {
    hemisphere_ref(s, 'E', 0x45, 0x57)
}

/// The two fields of a GPS coordinate (degrees, minutes and seconds, then
/// the hemisphere letter), when the text is set and can be read.
pub open spec fn gps_fields(tag: ExifTag, ref_tag: ExifTag, s: Seq<char>, letter: u8) -> Seq<
    FieldView,
> {
    match gps_coordinate(s) {
        Ok((d1, d2, m1, m2, s1, s2)) => when(
            s.len() > 0,
            seq![
                field(tag, ValueView::Rational(seq![(d1, d2), (m1, m2), (s1, s2)])),
                field(ref_tag, ValueView::Ascii(seq![letter])),
            ],
        ),
        Err(_) => Seq::empty(),
    }
}

/// The fields written for an EXIF description, in this order: make, model,
/// lens, date and time, ISO speed (truncated to 16 bits, when non-zero),
/// focal length, aperture, exposure time, exposure compensation, latitude
/// and its reference, longitude and its reference, and the location as the
/// image description. A text is left out when it is empty, and a number
/// when its text cannot be read. The aperture and the exposure compensation
/// are given as the rationals read from their number text.
pub open spec fn exif_fields_of(
    data: ExifData,
    f_number: Option<(u32, u32)>,
    exposure_bias: Option<(i32, i32)>,
) -> Seq<FieldView> {
    text_if_set(ExifTag::Make, data.make@)
        + text_if_set(ExifTag::Model, data.model@)
        + text_if_set(ExifTag::LensModel, data.lens@)
        + text_if_set(ExifTag::DateTimeOriginal, data.date_time_original@)
        + iso_if_set(data.iso_speed_ratings)
        + rational_if(ExifTag::FocalLength, data.focal_length@.len() > 0, read_ok(focal_length(data.focal_length@)))
        + rational_if(ExifTag::FNumber, data.f_number@.len() > 0, f_number)
        + rational_if(ExifTag::ExposureTime, data.exposure_time@.len() > 0, read_ok(exposure_time(data.exposure_time@)))
        + bias_if(data.exposure_compensation@.len() > 0, exposure_bias)
        + gps_fields(ExifTag::GPSLatitude, ExifTag::GPSLatitudeRef, data.gps_latitude@, latitude_ref(data.gps_latitude@))
        + gps_fields(ExifTag::GPSLongitude, ExifTag::GPSLongitudeRef, data.gps_longitude@, longitude_ref(data.gps_longitude@))
        + text_if_set(ExifTag::ImageDescription, data.location@)
}

impl ExifTag {
    /// The field of the primary image with this tag and `value`.
    pub fn field(self, value: FieldValue) -> (r: ExifField)
        ensures
            r@ == field(self, value@),
    {
        ExifField { context: self.context(), number: self.number(), ifd_num: PRIMARY_IMAGE, value }
    }
}

/// The ASCII field with tag `tag` holding the UTF-8 bytes of `s`.
fn text_field_of(tag: ExifTag, s: &String) -> (r: ExifField)
    ensures
        r@ == text_field(tag, s@),
{
    let bytes = vstd::slice::slice_to_vec(s.as_str().as_bytes());
    tag.field(FieldValue::Ascii(bytes))
}

/// The one-element list of `q`.
fn single<T>(q: T) -> (r: Vec<T>)
    ensures
        r@ == seq![q],
{
    let mut r: Vec<T> = Vec::new();
    r.push(q);
    assert(r@ =~= seq![q]);
    r
}

/// Appends `f` to `fields`.
fn push_field(fields: &mut Vec<ExifField>, f: ExifField)
    ensures
        fields_view(final(fields)@) == fields_view(old(fields)@) + seq![f@],
{
    let ghost before = fields@;
    fields.push(f);
    assert(fields_view(fields@) =~= fields_view(before) + seq![f@]);
}

/// The byte of the hemisphere letter for the coordinate text `s` (see
/// `hemisphere_ref`).
fn hemisphere_letter(s: &String, letter: char, positive: u8, negative: u8) -> (b: u8)
    ensures
        b == hemisphere_ref(s@, letter, positive, negative),
{
    let v = chars_of(s.as_str());
    assert(v@.subrange(0, v@.len() as int) =~= v@);
    let (a, b) = trim_bounds(&v, 0, v.len());
    match parse_decimal_degrees(&v, a, b) {
        Some((_, _, minus)) => if minus {
            negative
        } else {
            positive
        },
        None => if contains_char(&v, letter) {
            positive
        } else {
            negative
        },
    }
}

/// Appends the fields of a GPS coordinate, when its text is set and can be
/// read.
fn push_gps(
    fields: &mut Vec<ExifField>,
    tag: ExifTag,
    ref_tag: ExifTag,
    s: &String,
    letter: u8,
)
    ensures
        fields_view(final(fields)@) == fields_view(old(fields)@) + gps_fields(tag, ref_tag, s@, letter),
{
    if s.as_str().is_empty() {
        assert(fields_view(fields@) =~= fields_view(fields@) + gps_fields(tag, ref_tag, s@, letter));
        return;
    }
    match parse_gps_coordinate(s.as_str()) {
        Ok((d1, d2, m1, m2, s1, s2)) => {
            let ghost before = fields_view(fields@);
            let mut rationals: Vec<(u32, u32)> = Vec::new();
            rationals.push((d1, d2));
            rationals.push((m1, m2));
            rationals.push((s1, s2));
            assert(rationals@ =~= seq![(d1, d2), (m1, m2), (s1, s2)]);
            push_field(fields, tag.field(FieldValue::Rational(rationals)));
            push_field(fields, ref_tag.field(FieldValue::Ascii(single(letter))));
            assert(fields_view(fields@) =~= before + gps_fields(tag, ref_tag, s@, letter));
        },
        Err(_) => {
            assert(fields_view(fields@) =~= fields_view(fields@) + gps_fields(
                tag,
                ref_tag,
                s@,
                letter,
            ));
        },
    }
}

/// Appends the text field for `s`, unless `s` is empty.
fn push_text(fields: &mut Vec<ExifField>, tag: ExifTag, s: &String)
    ensures
        fields_view(final(fields)@) == fields_view(old(fields)@) + text_if_set(tag, s@),
{
    let ghost before = fields_view(fields@);
    if !s.as_str().is_empty() {
        push_field(fields, text_field_of(tag, s));
    }
    assert(fields_view(fields@) =~= before + text_if_set(tag, s@));
}

/// Appends the one-rational field for `r`, when `set` holds and `r` is
/// given.
fn push_rational(fields: &mut Vec<ExifField>, tag: ExifTag, set: bool, r: Option<(u32, u32)>)
    ensures
        fields_view(final(fields)@) == fields_view(old(fields)@) + rational_if(tag, set, r),
{
    let ghost before = fields_view(fields@);
    if set {
        if let Some(q) = r {
            push_field(fields, tag.field(FieldValue::Rational(single(q))));
        }
    }
    assert(fields_view(fields@) =~= before + rational_if(tag, set, r));
}

/// The exposure-compensation field for `r`, when `set` holds and `r` is
/// given.
pub open spec fn bias_if(set: bool, r: Option<(i32, i32)>) -> Seq<FieldView> {
    match r {
        Some(q) => when(set, seq![field(ExifTag::ExposureBiasValue, ValueView::SRational(seq![q]))]),
        None => Seq::empty(),
    }
}

/// The ISO-speed field, when the speed is not zero.
pub open spec fn iso_if_set(iso: u32) -> Seq<FieldView> {
    when(iso > 0, seq![field(ExifTag::PhotographicSensitivity, ValueView::Short(iso as u16))])
}

/// A value that was read, or `None`.
pub open spec fn read_ok(r: Result<(u32, u32), crate::formats::FormatError>) -> Option<(u32, u32)> {
    match r {
        Ok(q) => Some(q),
        Err(_) => None,
    }
}

/// The EXIF fields for `exif_data`, as `exif_fields_of` states them. The
/// aperture and the exposure compensation are passed in as the rationals
/// read from `f_number_text` and `exposure_compensation_text` of their
/// texts (`None` when that text is no number).
pub fn exif_fields(
    exif_data: &ExifData,
    f_number: Option<(u32, u32)>,
    exposure_bias: Option<(i32, i32)>,
) -> (r: Vec<ExifField>)
    ensures
        fields_view(r@) == exif_fields_of(*exif_data, f_number, exposure_bias),
{
    let d = exif_data;
    let mut fields: Vec<ExifField> = Vec::new();
    push_text(&mut fields, ExifTag::Make, &d.make);
    assert(fields_view(Seq::<ExifField>::empty()) + text_if_set(ExifTag::Make, d.make@)
        =~= text_if_set(ExifTag::Make, d.make@));
    push_text(&mut fields, ExifTag::Model, &d.model);
    push_text(&mut fields, ExifTag::LensModel, &d.lens);
    push_text(&mut fields, ExifTag::DateTimeOriginal, &d.date_time_original);
    let ghost before = fields_view(fields@);
    if d.iso_speed_ratings > 0 {
        let iso = d.iso_speed_ratings as u16;
        push_field(&mut fields, ExifTag::PhotographicSensitivity.field(FieldValue::Short(iso)));
    }
    assert(fields_view(fields@) =~= before + iso_if_set(d.iso_speed_ratings));
    let focal = match parse_focal_length(d.focal_length.as_str()) {
        Ok(q) => Some(q),
        Err(_) => None,
    };
    push_rational(&mut fields, ExifTag::FocalLength, !d.focal_length.as_str().is_empty(), focal);
    push_rational(&mut fields, ExifTag::FNumber, !d.f_number.as_str().is_empty(), f_number);
    let exposure = match parse_exposure_time(d.exposure_time.as_str()) {
        Ok(q) => Some(q),
        Err(_) => None,
    };
    push_rational(
        &mut fields,
        ExifTag::ExposureTime,
        !d.exposure_time.as_str().is_empty(),
        exposure,
    );
    let ghost before = fields_view(fields@);
    if !d.exposure_compensation.as_str().is_empty() {
        if let Some(q) = exposure_bias {
            push_field(&mut fields, ExifTag::ExposureBiasValue.field(FieldValue::SRational(single(q))));
        }
    }
    assert(fields_view(fields@) =~= before + bias_if(
        d.exposure_compensation@.len() > 0,
        exposure_bias,
    ));
    let north = hemisphere_letter(&d.gps_latitude, 'N', 0x4E, 0x53);
    push_gps(&mut fields, ExifTag::GPSLatitude, ExifTag::GPSLatitudeRef, &d.gps_latitude, north);
    let east = hemisphere_letter(&d.gps_longitude, 'E', 0x45, 0x57);
    push_gps(&mut fields, ExifTag::GPSLongitude, ExifTag::GPSLongitudeRef, &d.gps_longitude, east);
    push_text(&mut fields, ExifTag::ImageDescription, &d.location);
    fields
}

/// Why the EXIF fields could not be written.
#[derive(Debug, Clone, Copy, PartialEq, Eq, Structural)]
pub enum WriteError {
    /// The TIFF encoder refused the fields (for one, when there are none).
    Encoding,
}

#[verifier::external_type_specification]
#[verifier::external_body]
pub struct ExExifError(exif::Error);

#[verifier::external_type_specification]
#[verifier::external_body]
pub struct ExExifField(exif::Field);

/// The `exif` crate's form of a field (its `exif::Field`), as
/// `to_exif_field` builds it.
pub uninterp spec fn exif_field_for(f: FieldView) -> exif::Field;

/// The `exif` crate's forms of a list of fields.
pub open spec fn exif_fields_for(fs: Seq<FieldView>) -> Seq<exif::Field> {
    fs.map_values(|f: FieldView| exif_field_for(f))
}

/// Builds the `exif::Field` of a field: in the image directory numbered
/// `ifd_num`, with the tag made of the directory and the number, and a value of the
/// same type and contents (one ASCII string, one SHORT, or RATIONAL and
/// SRATIONAL lists with the same numerators and denominators). Its
/// contract: the result is the one named `exif_field_for` of the field, a
/// function of the field alone since the body only converts.
#[verifier::external_body]
fn to_exif_field(f: &ExifField) -> (r: exif::Field)
    ensures
        r == exif_field_for(f@),
{
    let context = match f.context {
        TagContext::Tiff => Context::Tiff,
        TagContext::Exif => Context::Exif,
        TagContext::Gps => Context::Gps,
    };
    let value = match &f.value {
        FieldValue::Ascii(b) => Value::Ascii(vec![b.clone()]),
        FieldValue::Short(n) => Value::Short(vec![*n]),
        FieldValue::Rational(v) => Value::Rational(v.iter().map(|&p| p.into()).collect()),
        FieldValue::SRational(v) => Value::SRational(v.iter().map(|&p| p.into()).collect()),
    };
    Field { tag: Tag(context, f.number), ifd_num: In(f.ifd_num), value }
}

/// Each field belongs to the primary image and has one of the tags that
/// `exif_fields_of` writes (none of which the writer ignores or
/// synthesizes itself).
pub open spec fn writable(fs: Seq<FieldView>) -> bool {
    forall|i: int|
        0 <= i < fs.len() ==> #[trigger] write_rank(fs[i].number) < 14 && fs[i].ifd_num
            == PRIMARY_IMAGE
}

/// The bytes that the encoding of a value takes.
pub open spec fn value_size(v: ValueView) -> nat {
    match v {
        ValueView::Ascii(b) => b.len() + 1,
        ValueView::Short(_) => 2,
        ValueView::Rational(q) => 8 * q.len(),
        ValueView::SRational(q) => 8 * q.len(),
    }
}

/// A bound on the bytes of the fields' directory entries and values: 16
/// (the 12 bytes of an entry, and padding) plus the value's size, for each.
pub open spec fn encoded_size(fs: Seq<FieldView>) -> nat
    decreases fs.len(),
{
    if fs.len() == 0 {
        0
    } else {
        encoded_size(fs.drop_last()) + 16 + value_size(fs.last().value)
    }
}

/// The TIFF structure (big endian) that `exif::experimental::Writer` produces when the `exif`
/// forms of the fields are pushed into it in order and written, or `None`
/// when it refuses them.
pub uninterp spec fn tiff_encoding(fields: Seq<FieldView>) -> Option<Seq<u8>>;

/// Encodes fields with `exif::experimental::Writer`: `converted`, which
/// must be the `exif` forms of `fields` in order, are pushed into a new
/// writer and written big endian into an in-memory cursor. Its contract:
/// the result is the one named `tiff_encoding` of the fields, a function of
/// them alone since the writer only computes; with no field the writer
/// fails, as it then has no image directory to write; and it succeeds on
/// fields of the primary image with tags that it neither ignores nor
/// synthesizes, when all offsets stay within 32 bits (a total under
/// `0xFFFF_0000` bytes), since a write into memory cannot fail and the
/// writer refuses only empty directories, unknown value types and offsets
/// or counts past 32 bits. The writer's
/// documentation asks that no field be pushed twice, so no two fields may
/// have the same tag.
#[verifier::external_body]
#[allow(unused_variables)]
fn encode_tiff(fields: &Vec<ExifField>, converted: &Vec<exif::Field>) -> (r: Result<Vec<u8>, exif::Error>)
    requires
        converted@ == exif_fields_for(fields_view(fields@)),
        distinct_tags(fields_view(fields@)),
    ensures
        r is Ok <==> tiff_encoding(fields_view(fields@)) is Some,
        r matches Ok(b) ==> tiff_encoding(fields_view(fields@)) == Some(b@),
        fields@.len() == 0 ==> r is Err,
        fields@.len() > 0 && writable(fields_view(fields@)) && encoded_size(fields_view(fields@))
            <= 0xFFFF_0000 ==> r is Ok,
{
    let mut writer = Writer::new();
    for f in converted {
        writer.push_field(f);
    }
    let mut buf = Cursor::new(Vec::new());
    writer.write(&mut buf, false)?;
    Ok(buf.into_inner())
}

/// The `exif` crate's forms of the fields, in order.
fn to_exif_fields(fields: &Vec<ExifField>) -> (r: Vec<exif::Field>)
    ensures
        r@ == exif_fields_for(fields_view(fields@)),
{
    let mut out: Vec<exif::Field> = Vec::new();
    let mut i: usize = 0;
    while i < fields.len()
        invariant
            i <= fields.len(),
            out@ == exif_fields_for(fields_view(fields@.take(i as int))),
        decreases fields.len() - i,
    {
        out.push(to_exif_field(&fields[i]));
        i = i + 1;
        assert(out@ =~= exif_fields_for(fields_view(fields@.take(i as int))));
    }
    assert(fields@.take(i as int) =~= fields@);
    out
}

/// The EXIF block written for `exif_data`: the TIFF encoding of the fields
/// that `exif_fields` gives (see there for `f_number` and `exposure_bias`).
pub fn exif_payload(
    exif_data: &ExifData,
    f_number: Option<(u32, u32)>,
    exposure_bias: Option<(i32, i32)>,
) -> (r: Result<Vec<u8>, WriteError>)
    ensures
        r is Ok <==> tiff_encoding(exif_fields_of(*exif_data, f_number, exposure_bias)) is Some,
        r matches Ok(b) ==> tiff_encoding(exif_fields_of(*exif_data, f_number, exposure_bias))
            == Some(b@),
        r matches Err(e) ==> e == WriteError::Encoding,
        exif_fields_of(*exif_data, f_number, exposure_bias).len() == 0 ==> r is Err,
        exif_fields_of(*exif_data, f_number, exposure_bias).len() > 0 && encoded_size(
            exif_fields_of(*exif_data, f_number, exposure_bias),
        ) <= 0xFFFF_0000 ==> r is Ok,
{
    let fields = exif_fields(exif_data, f_number, exposure_bias);
    proof {
        lemma_no_tag_written_twice(*exif_data, f_number, exposure_bias);
    }
    let converted = to_exif_fields(&fields);
    match encode_tiff(&fields, &converted) {
        Ok(bytes) => Ok(bytes),
        Err(_) => Err(WriteError::Encoding),
    }
}

/// The place of a tag number in the order in which `exif_fields_of` lists
/// the tags (the numbers of the written tags differ from each other; 14 for
/// a number that it never writes).
pub open spec fn write_rank(number: u16) -> int {
    if number == 0x10f {
        0
    } else if number == 0x110 {
        1
    } else if number == 0xa434 {
        2
    } else if number == 0x9003 {
        3
    } else if number == 0x8827 {
        4
    } else if number == 0x920a {
        5
    } else if number == 0x829d {
        6
    } else if number == 0x829a {
        7
    } else if number == 0x9204 {
        8
    } else if number == 0x2 {
        9
    } else if number == 0x1 {
        10
    } else if number == 0x4 {
        11
    } else if number == 0x3 {
        12
    } else if number == 0x10e {
        13
    } else {
        14
    }
}

/// The fields' tags come in strictly increasing write order, all within
/// `lo..hi`, and the fields belong to the primary image.
#[verifier::opaque]
pub open spec fn ranked(fs: Seq<FieldView>, lo: int, hi: int) -> bool {
    &&& forall|i: int|
        0 <= i < fs.len() ==> lo <= #[trigger] write_rank(fs[i].number) < hi && fs[i].ifd_num
            == PRIMARY_IMAGE
    &&& forall|i: int, j: int|
        0 <= i < j < fs.len() ==> #[trigger] write_rank(fs[i].number) < #[trigger] write_rank(
            fs[j].number,
        )
}

/// Two lists in increasing order, the first below the second, make one.
proof fn lemma_ranked_concat(a: Seq<FieldView>, b: Seq<FieldView>, lo: int, mid: int, hi: int)
    requires
        lo <= mid <= hi,
        ranked(a, lo, mid),
        ranked(b, mid, hi),
    ensures
        ranked(a + b, lo, hi),
{
    reveal(ranked);
    let c = a + b;
    assert forall|i: int| 0 <= i < c.len() implies lo <= #[trigger] write_rank(c[i].number) < hi
        && c[i].ifd_num == PRIMARY_IMAGE by {
        if i < a.len() {
            assert(c[i] == a[i]);
        } else {
            assert(c[i] == b[i - a.len()]);
        }
    }
    assert forall|i: int, j: int| 0 <= i < j < c.len() implies #[trigger] write_rank(c[i].number)
        < #[trigger] write_rank(c[j].number) by {
        if j < a.len() {
            assert(c[i] == a[i]);
            assert(c[j] == a[j]);
        } else if i < a.len() {
            assert(c[i] == a[i]);
            assert(c[j] == b[j - a.len()]);
        } else {
            assert(c[i] == b[i - a.len()]);
            assert(c[j] == b[j - a.len()]);
        }
    }
}

/// The text field of a tag, when written, sits at the tag's place.
proof fn lemma_text_ranked(t: ExifTag, s: Seq<char>)
    ensures
        ranked(text_if_set(t, s), write_rank(t.spec_number()), write_rank(t.spec_number()) + 1),
{
    reveal(ranked);
}

/// The one-rational field of a tag, when written, sits at the tag's place.
proof fn lemma_rational_ranked(t: ExifTag, set: bool, r: Option<(u32, u32)>)
    ensures
        ranked(rational_if(t, set, r), write_rank(t.spec_number()), write_rank(t.spec_number()) + 1),
{
    reveal(ranked);
}

/// The ISO-speed field, the exposure-compensation field and the two pairs
/// of GPS fields, when written, sit at their tags' places.
proof fn lemma_other_fields_ranked(
    iso: u32,
    set: bool,
    bias: Option<(i32, i32)>,
    lat: Seq<char>,
    lat_ref: u8,
    lon: Seq<char>,
    lon_ref: u8,
)
    ensures
        ranked(iso_if_set(iso), 4, 5),
        ranked(bias_if(set, bias), 8, 9),
        ranked(gps_fields(ExifTag::GPSLatitude, ExifTag::GPSLatitudeRef, lat, lat_ref), 9, 11),
        ranked(gps_fields(ExifTag::GPSLongitude, ExifTag::GPSLongitudeRef, lon, lon_ref), 11, 13),
{
    reveal(ranked);
}

/// No tag is written twice: the fields that `exif_fields_of` lists have
/// pairwise different tags, as the TIFF encoder asks of the fields pushed
/// into it; and each is a field of the primary image with one of the
/// written tags.
pub proof fn lemma_no_tag_written_twice(
    data: ExifData,
    f_number: Option<(u32, u32)>,
    exposure_bias: Option<(i32, i32)>,
)
    ensures
        distinct_tags(exif_fields_of(data, f_number, exposure_bias)),
        writable(exif_fields_of(data, f_number, exposure_bias)),
{
    let a0 = text_if_set(ExifTag::Make, data.make@);
    let a1 = text_if_set(ExifTag::Model, data.model@);
    let a2 = text_if_set(ExifTag::LensModel, data.lens@);
    let a3 = text_if_set(ExifTag::DateTimeOriginal, data.date_time_original@);
    let a4 = iso_if_set(data.iso_speed_ratings);
    let a5 = rational_if(
        ExifTag::FocalLength,
        data.focal_length@.len() > 0,
        read_ok(focal_length(data.focal_length@)),
    );
    let a6 = rational_if(ExifTag::FNumber, data.f_number@.len() > 0, f_number);
    let a7 = rational_if(
        ExifTag::ExposureTime,
        data.exposure_time@.len() > 0,
        read_ok(exposure_time(data.exposure_time@)),
    );
    let a8 = bias_if(data.exposure_compensation@.len() > 0, exposure_bias);
    let a9 = gps_fields(
        ExifTag::GPSLatitude,
        ExifTag::GPSLatitudeRef,
        data.gps_latitude@,
        latitude_ref(data.gps_latitude@),
    );
    let a10 = gps_fields(
        ExifTag::GPSLongitude,
        ExifTag::GPSLongitudeRef,
        data.gps_longitude@,
        longitude_ref(data.gps_longitude@),
    );
    let a11 = text_if_set(ExifTag::ImageDescription, data.location@);
    lemma_text_ranked(ExifTag::Make, data.make@);
    lemma_text_ranked(ExifTag::Model, data.model@);
    lemma_text_ranked(ExifTag::LensModel, data.lens@);
    lemma_text_ranked(ExifTag::DateTimeOriginal, data.date_time_original@);
    lemma_rational_ranked(
        ExifTag::FocalLength,
        data.focal_length@.len() > 0,
        read_ok(focal_length(data.focal_length@)),
    );
    lemma_rational_ranked(ExifTag::FNumber, data.f_number@.len() > 0, f_number);
    lemma_rational_ranked(
        ExifTag::ExposureTime,
        data.exposure_time@.len() > 0,
        read_ok(exposure_time(data.exposure_time@)),
    );
    lemma_other_fields_ranked(
        data.iso_speed_ratings,
        data.exposure_compensation@.len() > 0,
        exposure_bias,
        data.gps_latitude@,
        latitude_ref(data.gps_latitude@),
        data.gps_longitude@,
        longitude_ref(data.gps_longitude@),
    );
    lemma_text_ranked(ExifTag::ImageDescription, data.location@);
    let b1 = a0 + a1;
    lemma_ranked_concat(a0, a1, 0, 1, 2);
    let b2 = b1 + a2;
    lemma_ranked_concat(b1, a2, 0, 2, 3);
    let b3 = b2 + a3;
    lemma_ranked_concat(b2, a3, 0, 3, 4);
    let b4 = b3 + a4;
    lemma_ranked_concat(b3, a4, 0, 4, 5);
    let b5 = b4 + a5;
    lemma_ranked_concat(b4, a5, 0, 5, 6);
    let b6 = b5 + a6;
    lemma_ranked_concat(b5, a6, 0, 6, 7);
    let b7 = b6 + a7;
    lemma_ranked_concat(b6, a7, 0, 7, 8);
    let b8 = b7 + a8;
    lemma_ranked_concat(b7, a8, 0, 8, 9);
    let b9 = b8 + a9;
    lemma_ranked_concat(b8, a9, 0, 9, 11);
    let b10 = b9 + a10;
    lemma_ranked_concat(b9, a10, 0, 11, 13);
    let all = b10 + a11;
    lemma_ranked_concat(b10, a11, 0, 13, 14);
    assert(all == exif_fields_of(data, f_number, exposure_bias));
    reveal(ranked);
    assert forall|i: int, j: int| 0 <= i < j < all.len() implies !same_tag(
        #[trigger] all[i],
        #[trigger] all[j],
    ) by {
        assert(write_rank(all[i].number) < write_rank(all[j].number));
    }
    assert forall|i: int| 0 <= i < all.len() implies #[trigger] write_rank(all[i].number) < 14
        && all[i].ifd_num == PRIMARY_IMAGE by {}
}

/// The `k`-th part of `exif_fields_of`: the fields of one text or number
/// of the description (both fields of a GPS coordinate together).
pub open spec fn part(
    data: ExifData,
    f_number: Option<(u32, u32)>,
    exposure_bias: Option<(i32, i32)>,
    k: int,
) -> Seq<FieldView> {
    if k == 0 {
        text_if_set(ExifTag::Make, data.make@)
    } else if k == 1 {
        text_if_set(ExifTag::Model, data.model@)
    } else if k == 2 {
        text_if_set(ExifTag::LensModel, data.lens@)
    } else if k == 3 {
        text_if_set(ExifTag::DateTimeOriginal, data.date_time_original@)
    } else if k == 4 {
        iso_if_set(data.iso_speed_ratings)
    } else if k == 5 {
        rational_if(
            ExifTag::FocalLength,
            data.focal_length@.len() > 0,
            read_ok(focal_length(data.focal_length@)),
        )
    } else if k == 6 {
        rational_if(ExifTag::FNumber, data.f_number@.len() > 0, f_number)
    } else if k == 7 {
        rational_if(
            ExifTag::ExposureTime,
            data.exposure_time@.len() > 0,
            read_ok(exposure_time(data.exposure_time@)),
        )
    } else if k == 8 {
        bias_if(data.exposure_compensation@.len() > 0, exposure_bias)
    } else if k == 9 {
        gps_fields(
            ExifTag::GPSLatitude,
            ExifTag::GPSLatitudeRef,
            data.gps_latitude@,
            latitude_ref(data.gps_latitude@),
        )
    } else if k == 10 {
        gps_fields(
            ExifTag::GPSLongitude,
            ExifTag::GPSLongitudeRef,
            data.gps_longitude@,
            longitude_ref(data.gps_longitude@),
        )
    } else {
        text_if_set(ExifTag::ImageDescription, data.location@)
    }
}

/// The lowest write rank of the tags of part `k`.
pub open spec fn part_lo(k: int) -> int {
    if k <= 9 {
        k
    } else if k == 10 {
        11
    } else {
        13
    }
}

/// One past the highest write rank of the tags of part `k`.
pub open spec fn part_hi(k: int) -> int {
    if k <= 8 {
        k + 1
    } else if k == 9 {
        11
    } else if k == 10 {
        13
    } else {
        14
    }
}

/// A field is in a concatenation exactly when it is in one of its halves.
proof fn lemma_contains_concat(a: Seq<FieldView>, b: Seq<FieldView>, x: FieldView)
    ensures
        (a + b).contains(x) <==> a.contains(x) || b.contains(x),
{
    let c = a + b;
    if c.contains(x) {
        let i = choose|i: int| 0 <= i < c.len() && c[i] == x;
        if i < a.len() {
            assert(a[i] == x);
        } else {
            assert(b[i - a.len()] == x);
        }
    }
    if a.contains(x) {
        let i = choose|i: int| 0 <= i < a.len() && a[i] == x;
        assert(c[i] == x);
    }
    if b.contains(x) {
        let i = choose|i: int| 0 <= i < b.len() && b[i] == x;
        assert(c[i + a.len()] == x);
    }
}

/// A list whose tags rank within `lo..hi` holds no field of a tag outside.
proof fn lemma_not_in_ranked(fs: Seq<FieldView>, lo: int, hi: int, x: FieldView)
    requires
        ranked(fs, lo, hi),
        !(lo <= write_rank(x.number) < hi),
    ensures
        !fs.contains(x),
{
    reveal(ranked);
    if fs.contains(x) {
        let i = choose|i: int| 0 <= i < fs.len() && fs[i] == x;
        assert(lo <= write_rank(fs[i].number) < hi);
    }
}

/// Each part of the fields ranks its tags within its range.
proof fn lemma_part_ranked(
    data: ExifData,
    f_number: Option<(u32, u32)>,
    exposure_bias: Option<(i32, i32)>,
    k: int,
)
    requires
        0 <= k < 12,
    ensures
        ranked(part(data, f_number, exposure_bias, k), part_lo(k), part_hi(k)),
{
    lemma_other_fields_ranked(
        data.iso_speed_ratings,
        data.exposure_compensation@.len() > 0,
        exposure_bias,
        data.gps_latitude@,
        latitude_ref(data.gps_latitude@),
        data.gps_longitude@,
        longitude_ref(data.gps_longitude@),
    );
    if k == 0 {
        lemma_text_ranked(ExifTag::Make, data.make@);
    } else if k == 1 {
        lemma_text_ranked(ExifTag::Model, data.model@);
    } else if k == 2 {
        lemma_text_ranked(ExifTag::LensModel, data.lens@);
    } else if k == 3 {
        lemma_text_ranked(ExifTag::DateTimeOriginal, data.date_time_original@);
    } else if k == 5 {
        lemma_rational_ranked(
            ExifTag::FocalLength,
            data.focal_length@.len() > 0,
            read_ok(focal_length(data.focal_length@)),
        );
    } else if k == 6 {
        lemma_rational_ranked(ExifTag::FNumber, data.f_number@.len() > 0, f_number);
    } else if k == 7 {
        lemma_rational_ranked(
            ExifTag::ExposureTime,
            data.exposure_time@.len() > 0,
            read_ok(exposure_time(data.exposure_time@)),
        );
    } else if k == 11 {
        lemma_text_ranked(ExifTag::ImageDescription, data.location@);
    }
}

/// The first `j` parts, in order.
pub open spec fn parts_before(
    data: ExifData,
    f_number: Option<(u32, u32)>,
    exposure_bias: Option<(i32, i32)>,
    j: nat,
) -> Seq<FieldView>
    decreases j,
{
    if j == 0 {
        Seq::empty()
    } else {
        parts_before(data, f_number, exposure_bias, (j - 1) as nat) + part(
            data,
            f_number,
            exposure_bias,
            j - 1,
        )
    }
}

/// The fields written are the twelve parts in order.
proof fn lemma_fields_are_parts(
    data: ExifData,
    f_number: Option<(u32, u32)>,
    exposure_bias: Option<(i32, i32)>,
)
    ensures
        exif_fields_of(data, f_number, exposure_bias) == parts_before(
            data,
            f_number,
            exposure_bias,
            12,
        ),
{
    reveal_with_fuel(parts_before, 13);
    assert(Seq::<FieldView>::empty() + part(data, f_number, exposure_bias, 0) =~= part(
        data,
        f_number,
        exposure_bias,
        0,
    ));
}

/// Among the first `j` parts, a field of part `k`'s tags can only be in
/// part `k`.
proof fn lemma_in_parts_before(
    data: ExifData,
    f_number: Option<(u32, u32)>,
    exposure_bias: Option<(i32, i32)>,
    j: nat,
    k: int,
    x: FieldView,
)
    requires
        j <= 12,
        0 <= k < 12,
        part_lo(k) <= write_rank(x.number) < part_hi(k),
    ensures
        parts_before(data, f_number, exposure_bias, j).contains(x) <==> (k < j && part(
            data,
            f_number,
            exposure_bias,
            k,
        ).contains(x)),
    decreases j,
{
    if j > 0 {
        let i = j - 1;
        lemma_in_parts_before(data, f_number, exposure_bias, (j - 1) as nat, k, x);
        lemma_contains_concat(
            parts_before(data, f_number, exposure_bias, (j - 1) as nat),
            part(data, f_number, exposure_bias, i),
            x,
        );
        if i != k {
            lemma_part_ranked(data, f_number, exposure_bias, i);
            lemma_not_in_ranked(
                part(data, f_number, exposure_bias, i),
                part_lo(i),
                part_hi(i),
                x,
            );
        }
    }
}

/// A field whose tag belongs to part `k` is written exactly when that part
/// holds it: no other part writes its tag.
proof fn lemma_written_by_part(
    data: ExifData,
    f_number: Option<(u32, u32)>,
    exposure_bias: Option<(i32, i32)>,
    k: int,
    x: FieldView,
)
    requires
        0 <= k < 12,
        part_lo(k) <= write_rank(x.number) < part_hi(k),
    ensures
        exif_fields_of(data, f_number, exposure_bias).contains(x) <==> part(
            data,
            f_number,
            exposure_bias,
            k,
        ).contains(x),
{
    lemma_fields_are_parts(data, f_number, exposure_bias);
    lemma_in_parts_before(data, f_number, exposure_bias, 12, k, x);
}

/// A list of at most one field holds exactly that field, when present.
proof fn lemma_when_one(cond: bool, y: FieldView, x: FieldView)
    ensures
        self::when(cond, seq![y]).contains(x) <==> cond && x == y,
{
    if cond {
        assert(seq![y][0] == y);
    }
}

/// A list of at most two fields holds exactly those fields, when present.
proof fn lemma_when_two(cond: bool, y: FieldView, z: FieldView, x: FieldView)
    ensures
        self::when(cond, seq![y, z]).contains(x) <==> cond && (x == y || x == z),
{
    if cond {
        assert(seq![y, z][0] == y);
        assert(seq![y, z][1] == z);
    }
}

/// Each text of the description is written under its own tag exactly when
/// it is not empty, as its UTF-8 bytes; no other text or number of the
/// description decides it. (Make, model, lens, date and time, and the
/// location as the image description.)
pub proof fn lemma_texts_written(
    data: ExifData,
    f_number: Option<(u32, u32)>,
    exposure_bias: Option<(i32, i32)>,
    x: FieldView,
)
    ensures
        x.number == 0x10f ==> (exif_fields_of(data, f_number, exposure_bias).contains(x) <==> (
        data.make@.len() > 0 && x == text_field(ExifTag::Make, data.make@))),
        x.number == 0x110 ==> (exif_fields_of(data, f_number, exposure_bias).contains(x) <==> (
        data.model@.len() > 0 && x == text_field(ExifTag::Model, data.model@))),
        x.number == 0xa434 ==> (exif_fields_of(data, f_number, exposure_bias).contains(x) <==> (
        data.lens@.len() > 0 && x == text_field(ExifTag::LensModel, data.lens@))),
        x.number == 0x9003 ==> (exif_fields_of(data, f_number, exposure_bias).contains(x) <==> (
        data.date_time_original@.len() > 0 && x == text_field(
            ExifTag::DateTimeOriginal,
            data.date_time_original@,
        ))),
        x.number == 0x10e ==> (exif_fields_of(data, f_number, exposure_bias).contains(x) <==> (
        data.location@.len() > 0 && x == text_field(ExifTag::ImageDescription, data.location@))),
{
    if x.number == 0x10f {
        lemma_written_by_part(data, f_number, exposure_bias, 0, x);
        lemma_when_one(data.make@.len() > 0, text_field(ExifTag::Make, data.make@), x);
    } else if x.number == 0x110 {
        lemma_written_by_part(data, f_number, exposure_bias, 1, x);
        lemma_when_one(data.model@.len() > 0, text_field(ExifTag::Model, data.model@), x);
    } else if x.number == 0xa434 {
        lemma_written_by_part(data, f_number, exposure_bias, 2, x);
        lemma_when_one(data.lens@.len() > 0, text_field(ExifTag::LensModel, data.lens@), x);
    } else if x.number == 0x9003 {
        lemma_written_by_part(data, f_number, exposure_bias, 3, x);
        lemma_when_one(
            data.date_time_original@.len() > 0,
            text_field(ExifTag::DateTimeOriginal, data.date_time_original@),
            x,
        );
    } else if x.number == 0x10e {
        lemma_written_by_part(data, f_number, exposure_bias, 11, x);
        lemma_when_one(
            data.location@.len() > 0,
            text_field(ExifTag::ImageDescription, data.location@),
            x,
        );
    }
}

/// Each number of the description is written under its own tag exactly when
/// its text is set (for the ISO speed, when it is not zero) and a value was
/// read from it, as that value; no other text or number of the description
/// decides it. The aperture and the exposure compensation are the rationals
/// handed in, read from their texts; the ISO speed is kept to 16 bits.
pub proof fn lemma_numbers_written(
    data: ExifData,
    f_number: Option<(u32, u32)>,
    exposure_bias: Option<(i32, i32)>,
    x: FieldView,
)
    ensures
        x.number == 0x8827 ==> (exif_fields_of(data, f_number, exposure_bias).contains(x) <==> (
        data.iso_speed_ratings > 0 && x == field(
            ExifTag::PhotographicSensitivity,
            ValueView::Short(data.iso_speed_ratings as u16),
        ))),
        x.number == 0x920a ==> (exif_fields_of(data, f_number, exposure_bias).contains(x) <==> (
        data.focal_length@.len() > 0 && focal_length(data.focal_length@) is Ok && x == field(
            ExifTag::FocalLength,
            ValueView::Rational(seq![focal_length(data.focal_length@)->Ok_0]),
        ))),
        x.number == 0x829d ==> (exif_fields_of(data, f_number, exposure_bias).contains(x) <==> (
        data.f_number@.len() > 0 && f_number is Some && x == field(
            ExifTag::FNumber,
            ValueView::Rational(seq![f_number->0]),
        ))),
        x.number == 0x829a ==> (exif_fields_of(data, f_number, exposure_bias).contains(x) <==> (
        data.exposure_time@.len() > 0 && exposure_time(data.exposure_time@) is Ok && x == field(
            ExifTag::ExposureTime,
            ValueView::Rational(seq![exposure_time(data.exposure_time@)->Ok_0]),
        ))),
        x.number == 0x9204 ==> (exif_fields_of(data, f_number, exposure_bias).contains(x) <==> (
        data.exposure_compensation@.len() > 0 && exposure_bias is Some && x == field(
            ExifTag::ExposureBiasValue,
            ValueView::SRational(seq![exposure_bias->0]),
        ))),
{
    if x.number == 0x8827 {
        lemma_written_by_part(data, f_number, exposure_bias, 4, x);
        lemma_when_one(
            data.iso_speed_ratings > 0,
            field(ExifTag::PhotographicSensitivity, ValueView::Short(data.iso_speed_ratings as u16)),
            x,
        );
    } else if x.number == 0x920a {
        lemma_written_by_part(data, f_number, exposure_bias, 5, x);
        if let Ok(q) = focal_length(data.focal_length@) {
            lemma_when_one(
                data.focal_length@.len() > 0,
                field(ExifTag::FocalLength, ValueView::Rational(seq![q])),
                x,
            );
        }
    } else if x.number == 0x829d {
        lemma_written_by_part(data, f_number, exposure_bias, 6, x);
        if let Some(q) = f_number {
            lemma_when_one(
                data.f_number@.len() > 0,
                field(ExifTag::FNumber, ValueView::Rational(seq![q])),
                x,
            );
        }
    } else if x.number == 0x829a {
        lemma_written_by_part(data, f_number, exposure_bias, 7, x);
        if let Ok(q) = exposure_time(data.exposure_time@) {
            lemma_when_one(
                data.exposure_time@.len() > 0,
                field(ExifTag::ExposureTime, ValueView::Rational(seq![q])),
                x,
            );
        }
    } else if x.number == 0x9204 {
        lemma_written_by_part(data, f_number, exposure_bias, 8, x);
        if let Some(q) = exposure_bias {
            lemma_when_one(
                data.exposure_compensation@.len() > 0,
                field(ExifTag::ExposureBiasValue, ValueView::SRational(seq![q])),
                x,
            );
        }
    }
}

/// A GPS coordinate is written exactly when its text is set and can be
/// read: its degrees, minutes and seconds under the coordinate's tag, and
/// its hemisphere letter under the reference tag; no other text or number
/// of the description decides it.
pub proof fn lemma_gps_written(
    data: ExifData,
    f_number: Option<(u32, u32)>,
    exposure_bias: Option<(i32, i32)>,
    x: FieldView,
)
    ensures
        x.number == 0x2 ==> (exif_fields_of(data, f_number, exposure_bias).contains(x) <==> (
        data.gps_latitude@.len() > 0 && (gps_coordinate(data.gps_latitude@) matches Ok(
            (d1, d2, m1, m2, s1, s2),
        ) && x == field(
            ExifTag::GPSLatitude,
            ValueView::Rational(seq![(d1, d2), (m1, m2), (s1, s2)]),
        )))),
        x.number == 0x1 ==> (exif_fields_of(data, f_number, exposure_bias).contains(x) <==> (
        data.gps_latitude@.len() > 0 && gps_coordinate(data.gps_latitude@) is Ok && x == field(
            ExifTag::GPSLatitudeRef,
            ValueView::Ascii(seq![latitude_ref(data.gps_latitude@)]),
        ))),
        x.number == 0x4 ==> (exif_fields_of(data, f_number, exposure_bias).contains(x) <==> (
        data.gps_longitude@.len() > 0 && (gps_coordinate(data.gps_longitude@) matches Ok(
            (d1, d2, m1, m2, s1, s2),
        ) && x == field(
            ExifTag::GPSLongitude,
            ValueView::Rational(seq![(d1, d2), (m1, m2), (s1, s2)]),
        )))),
        x.number == 0x3 ==> (exif_fields_of(data, f_number, exposure_bias).contains(x) <==> (
        data.gps_longitude@.len() > 0 && gps_coordinate(data.gps_longitude@) is Ok && x == field(
            ExifTag::GPSLongitudeRef,
            ValueView::Ascii(seq![longitude_ref(data.gps_longitude@)]),
        ))),
{
    if x.number == 0x2 || x.number == 0x1 {
        lemma_written_by_part(data, f_number, exposure_bias, 9, x);
        if let Ok((d1, d2, m1, m2, s1, s2)) = gps_coordinate(data.gps_latitude@) {
            lemma_when_two(
                data.gps_latitude@.len() > 0,
                field(ExifTag::GPSLatitude, ValueView::Rational(seq![(d1, d2), (m1, m2), (s1, s2)])),
                field(ExifTag::GPSLatitudeRef, ValueView::Ascii(seq![latitude_ref(data.gps_latitude@)])),
                x,
            );
        }
    } else if x.number == 0x4 || x.number == 0x3 {
        lemma_written_by_part(data, f_number, exposure_bias, 10, x);
        if let Ok((d1, d2, m1, m2, s1, s2)) = gps_coordinate(data.gps_longitude@) {
            lemma_when_two(
                data.gps_longitude@.len() > 0,
                field(ExifTag::GPSLongitude, ValueView::Rational(seq![(d1, d2), (m1, m2), (s1, s2)])),
                field(
                    ExifTag::GPSLongitudeRef,
                    ValueView::Ascii(seq![longitude_ref(data.gps_longitude@)]),
                ),
                x,
            );
        }
    }
}

} // verus!
