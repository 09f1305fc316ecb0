//! The report of the EXIF fields that an image already holds.

use vstd::prelude::*;
use vstd::utf8::{decode_utf8, valid_utf8};
use exif::Value::{
    Ascii, Byte, Double, Float, Long, Rational, SByte, SLong, SRational, SShort, Short, Undefined,
    Unknown,
};

verus! {

/// The value of a field as the report needs it: the bytes of `BYTE` and
/// `UNDEFINED` values, the strings of `ASCII` values, and for each other
/// type only the type.
#[derive(Debug, PartialEq, Eq)]
pub enum RawValue {
    Byte(Vec<u8>),
    Ascii(Vec<Vec<u8>>),
    Short,
    Long,
    Rational,
    SByte,
    Undefined(Vec<u8>),
    SShort,
    SLong,
    SRational,
    Float,
    Double,
    Unknown,
}

/// A field of an image's EXIF data as the report needs it: the tag's name,
/// the raw value, and the decoder's rendering of the value without and with
/// its unit.
#[derive(Debug, PartialEq, Eq)]
pub struct FieldRecord {
    pub tag: String,
    pub value: RawValue,
    pub display: String,
    pub display_with_unit: String,
}

/// A raw value as plain sequences.
pub enum RawView {
    Byte(Seq<u8>),
    Ascii(Seq<Seq<u8>>),
    Short,
    Long,
    Rational,
    SByte,
    Undefined(Seq<u8>),
    SShort,
    SLong,
    SRational,
    Float,
    Double,
    Unknown,
}

/// A field record as plain sequences.
pub struct RecordView {
    pub tag: Seq<char>,
    pub value: RawView,
    pub display: Seq<char>,
    pub display_with_unit: Seq<char>,
}

impl View for RawValue {
    type V = RawView;

    open spec fn view(&self) -> RawView {
        match self {
            RawValue::Byte(b) => RawView::Byte(b@),
            RawValue::Ascii(list) => RawView::Ascii(list@.map_values(|b: Vec<u8>| b@)),
            RawValue::Short => RawView::Short,
            RawValue::Long => RawView::Long,
            RawValue::Rational => RawView::Rational,
            RawValue::SByte => RawView::SByte,
            RawValue::Undefined(b) => RawView::Undefined(b@),
            RawValue::SShort => RawView::SShort,
            RawValue::SLong => RawView::SLong,
            RawValue::SRational => RawView::SRational,
            RawValue::Float => RawView::Float,
            RawValue::Double => RawView::Double,
            RawValue::Unknown => RawView::Unknown,
        }
    }
}

impl View for FieldRecord {
    type V = RecordView;

    open spec fn view(&self) -> RecordView {
        RecordView {
            tag: self.tag@,
            value: self.value@,
            display: self.display@,
            display_with_unit: self.display_with_unit@,
        }
    }
}

/// Field records as plain values.
pub open spec fn records_view(records: Seq<FieldRecord>) -> Seq<RecordView> {
    records.map_values(|r: FieldRecord| r@)
}

/// The strings among `list` that are valid UTF-8, decoded, in order.
pub open spec fn utf8_texts(list: Seq<Seq<u8>>) -> Seq<Seq<char>>
    decreases list.len(),
{
    if list.len() == 0 {
        Seq::empty()
    } else if valid_utf8(list.last()) {
        utf8_texts(list.drop_last()).push(decode_utf8(list.last()))
    } else {
        utf8_texts(list.drop_last())
    }
}

/// The texts `parts` with `sep` between each two of them.
pub open spec fn join(parts: Seq<Seq<char>>, sep: Seq<char>) -> Seq<char>
    decreases parts.len(),
{
    if parts.len() == 0 {
        Seq::empty()
    } else if parts.len() == 1 {
        parts[0]
    } else {
        join(parts.drop_last(), sep) + sep + parts.last()
    }
}

/// How a field's value is shown: the bytes of `BYTE` and `UNDEFINED`
/// values alike, as their UTF-8 text (or, when they are no UTF-8, as the
/// decoder renders them), ASCII strings as their UTF-8 texts joined by `, `
/// (strings that are no UTF-8 left out), and values of the other types as
/// the decoder renders them with their unit.
pub open spec fn bytes_text(b: Seq<u8>, display: Seq<char>) -> Seq<char> {
    if valid_utf8(b) {
        decode_utf8(b)
    } else {
        display
    }
}

pub open spec fn value_text(r: RecordView) -> Seq<char> {
    match r.value {
        RawView::Byte(b) => bytes_text(b, r.display),
        RawView::Undefined(b) => bytes_text(b, r.display),
        RawView::Ascii(list) => join(utf8_texts(list), ", "@),
        _ => r.display_with_unit,
    }
}

/// The report line of a field: two spaces, the tag, `: ` and the value.
pub open spec fn field_line(r: RecordView) -> Seq<char> {
    "  "@ + r.tag + ": "@ + value_text(r) + "\n"@
}

/// The report lines of all fields, in order.
pub open spec fn field_lines(records: Seq<RecordView>) -> Seq<char>
    decreases records.len(),
{
    if records.len() == 0 {
        Seq::empty()
    } else {
        field_lines(records.drop_last()) + field_line(records.last())
    }
}

/// The opening of the report: its title, then the image path and a blank
/// line.
pub open spec fn header_text(path: Seq<char>) -> Seq<char> {
    "=== 原始 EXIF 信息 ===\n"@ + "图片路径: "@ + path + "\n\n"@
}

/// The closing of the report: a blank line, a rule of 50 `=` and another
/// blank line.
pub open spec fn footer_text() -> Seq<char> {
    "\n==================================================\n\n"@
}

/// The body of the report for what the EXIF decoder read: a line for each
/// field, a note when there is none, or the decoder's error; then the
/// closing.
pub open spec fn body_text(read: Result<Seq<RecordView>, Seq<char>>) -> Seq<char> {
    match read {
        Ok(records) => if records.len() == 0 {
            "  (未找到 EXIF 信息)\n"@ + footer_text()
        } else {
            field_lines(records) + footer_text()
        },
        Err(e) => "  无法读取 EXIF 信息: "@ + e + "\n"@ + footer_text(),
    }
}

#[verifier::external_type_specification]
#[verifier::external_body]
pub struct ExExif(exif::Exif);

/// The fields of a decoded EXIF block (`exif::Exif::fields`), in the order
/// of the file, each as the report needs it: the tag's `Display` name, the
/// raw value (`RawValue` of the same type, with the bytes of `BYTE` and
/// `UNDEFINED` values and the strings of `ASCII` values) and the
/// `display_value()` rendering without and with its unit.
pub uninterp spec fn exif_records(exif: exif::Exif) -> Seq<RecordView>;

/// What the EXIF decoder of the `exif` crate reads from the bytes of an
/// image file: `Ok` of the fields (as `exif_records` gives them), or `Err`
/// of the decoder's error message.
pub uninterp spec fn exif_read(image: Seq<u8>) -> Result<Seq<RecordView>, Seq<char>>;

/// Decodes the EXIF block of an image file's bytes with
/// `exif::Reader::read_from_container` (on an in-memory cursor); an error
/// becomes its `Display` text. Its contract names this outcome `exif_read`
/// of the bytes: the decoder is deterministic, so it is a function of them
/// alone.
#[verifier::external_body]
fn read_exif_container(image: &[u8]) -> (r: Result<exif::Exif, String>)
    ensures
        match r {
            Ok(exif) => exif_read(image@) == Ok::<Seq<RecordView>, Seq<char>>(exif_records(exif)),
            Err(e) => exif_read(image@) == Err::<Seq<RecordView>, Seq<char>>(e@),
        },
{
    let mut cursor = std::io::Cursor::new(image);
    exif::Reader::new().read_from_container(&mut cursor).map_err(|e| e.to_string())
}

/// The number of fields of a decoded EXIF block: the length of the
/// `ExactSizeIterator` that `exif::Exif::fields` returns.
#[verifier::external_body]
fn field_count(exif: &exif::Exif) -> (n: usize)
    ensures
        n == exif_records(*exif).len(),
{
    exif.fields().len()
}

/// The raw value of the field at `i`: each value type of the `exif` crate
/// becomes the `RawValue` variant of the same name, moving the bytes of
/// `Byte` and `Undefined` and the strings of `Ascii`.
#[verifier::external_body]
fn field_value(exif: &exif::Exif, i: usize) -> (r: RawValue)
    requires
        i < exif_records(*exif).len(),
    ensures
        r@ == exif_records(*exif)[i as int].value,
{
    match &exif.fields().nth(i).unwrap().value {
        Byte(b) => RawValue::Byte(b.clone()),
        Ascii(list) => RawValue::Ascii(list.clone()),
        Undefined(b, _) => RawValue::Undefined(b.clone()),
        Short(_) => RawValue::Short,
        Long(_) => RawValue::Long,
        Rational(_) => RawValue::Rational,
        SByte(_) => RawValue::SByte,
        SShort(_) => RawValue::SShort,
        SLong(_) => RawValue::SLong,
        SRational(_) => RawValue::SRational,
        Float(_) => RawValue::Float,
        Double(_) => RawValue::Double,
        Unknown(..) => RawValue::Unknown,
    }
}

/// The texts of the field at `i`: the tag's `Display` name, then the
/// `display_value()` rendering of the value without and with its unit.
#[verifier::external_body]
fn field_texts(exif: &exif::Exif, i: usize) -> (r: (String, String, String))
    requires
        i < exif_records(*exif).len(),
    ensures
        r.0@ == exif_records(*exif)[i as int].tag,
        r.1@ == exif_records(*exif)[i as int].display,
        r.2@ == exif_records(*exif)[i as int].display_with_unit,
{
    let f = exif.fields().nth(i).unwrap();
    let with_unit = f.display_value().with_unit(exif).to_string();
    (f.tag.to_string(), f.display_value().to_string(), with_unit)
}

/// The records of the fields of a decoded EXIF block, in order.
fn records_of(exif: &exif::Exif) -> (r: Vec<FieldRecord>)
    ensures
        records_view(r@) == exif_records(*exif),
{
    let n = field_count(exif);
    let mut out: Vec<FieldRecord> = Vec::new();
    let mut i: usize = 0;
    while i < n
        invariant
            i <= n,
            n == exif_records(*exif).len(),
            out@.len() == i,
            records_view(out@) == exif_records(*exif).take(i as int),
        decreases n - i,
    {
        let value = field_value(exif, i);
        let (tag, display, display_with_unit) = field_texts(exif, i);
        let record = FieldRecord { tag, value, display, display_with_unit };
        assert(record@ == exif_records(*exif)[i as int]);
        let ghost before = out@;
        out.push(record);
        proof {
            assert forall|k: int| 0 <= k <= i implies #[trigger] records_view(out@)[k]
                == exif_records(*exif).take(i + 1)[k] by {
                if k < i {
                    assert(out@[k] == before[k]);
                    assert(records_view(before)[k] == exif_records(*exif).take(i as int)[k]);
                } else {
                    assert(out@[k] == record);
                }
            }
        }
        i = i + 1;
        assert(records_view(out@) =~= exif_records(*exif).take(i as int));
    }
    assert(exif_records(*exif).take(n as int) =~= exif_records(*exif));
    out
}

/// Decodes bytes as UTF-8 with `String::from_utf8`, which by its
/// documentation succeeds exactly on valid UTF-8 and then holds the
/// characters that the bytes encode.
#[verifier::external_body]
fn utf8_string(bytes: &Vec<u8>) -> (r: Option<String>)
    ensures
        r is Some <==> valid_utf8(bytes@),
        r matches Some(s) ==> s@ == decode_utf8(bytes@),
{
    String::from_utf8(bytes.clone()).ok()
}

/// The texts of an `ASCII` field's strings that are UTF-8, joined by `, `.
fn ascii_text(list: &Vec<Vec<u8>>) -> (r: String)
    ensures
        r@ == join(utf8_texts(list@.map_values(|b: Vec<u8>| b@)), ", "@),
{
    let ghost all = list@.map_values(|b: Vec<u8>| b@);
    let mut out = String::new();
    let mut count: usize = 0;
    let mut i: usize = 0;
    while i < list.len()
        invariant
            i <= list.len(),
            all == list@.map_values(|b: Vec<u8>| b@),
            count == utf8_texts(all.take(i as int)).len(),
            count <= i,
            out@ == join(utf8_texts(all.take(i as int)), ", "@),
        decreases list.len() - i,
    {
        let ghost parts = utf8_texts(all.take(i as int));
        assert(all.take(i + 1).drop_last() =~= all.take(i as int));
        assert(all.take(i + 1).last() == list@[i as int]@);
        match utf8_string(&list[i]) {
            Some(text) => {
                if count > 0 {
                    out.append(", ");
                }
                out.append(text.as_str());
                count += 1;
                proof {
                    assert(parts.push(text@).drop_last() =~= parts);
                    if parts.len() == 0 {
                        assert(out@ =~= text@);
                    }
                }
            },
            None => {},
        }
        i += 1;
    }
    assert(all.take(list.len() as int) =~= all);
    out
}

/// How a field's value is shown in the report.
fn value_text_of(r: &FieldRecord) -> (s: String)
    ensures
        s@ == value_text(r@),
{
    match &r.value {
        RawValue::Byte(b) | RawValue::Undefined(b) => match utf8_string(b) {
            Some(text) => text,
            None => r.display.clone(),
        },
        RawValue::Ascii(list) => ascii_text(list),
        _ => r.display_with_unit.clone(),
    }
}

/// The opening of the report for the image at `image_path`.
pub fn report_header(image_path: &str) -> (r: String)
    ensures
        r@ == header_text(image_path@),
{
    let mut out = String::new();
    out.append("=== 原始 EXIF 信息 ===\n");
    out.append("图片路径: ");
    out.append(image_path);
    out.append("\n\n");
    assert(out@ =~= header_text(image_path@));
    out
}

/// The body of the report for what the EXIF decoder read (`Ok` of the
/// fields, or `Err` of the decoder's message), with the closing.
pub fn report_body(read: &Result<Vec<FieldRecord>, String>) -> (r: String)
    ensures
        r@ == body_text(
            match read {
                Ok(records) => Ok(records_view(records@)),
                Err(e) => Err(e@),
            },
        ),
{
    let mut out = String::new();
    match read {
        Ok(records) => {
            if records.len() == 0 {
                out.append("  (未找到 EXIF 信息)\n");
            } else {
                let ghost all = records_view(records@);
                let mut i: usize = 0;
                while i < records.len()
                    invariant
                        i <= records.len(),
                        all == records_view(records@),
                        out@ == field_lines(all.take(i as int)),
                    decreases records.len() - i,
                {
                    assert(all.take(i + 1).drop_last() =~= all.take(i as int));
                    let r = &records[i];
                    out.append("  ");
                    out.append(r.tag.as_str());
                    out.append(": ");
                    let text = value_text_of(r);
                    out.append(text.as_str());
                    out.append("\n");
                    i += 1;
                    assert(out@ =~= field_lines(all.take(i as int)));
                }
                assert(all.take(records.len() as int) =~= all);
            }
        },
        Err(e) => {
            out.append("  无法读取 EXIF 信息: ");
            out.append(e.as_str());
            out.append("\n");
        },
    }
    out.append("\n==================================================\n\n");
    out
}

/// The body of the report for the bytes of an image file: what the EXIF
/// decoder reads from them, shown by `report_body`.
pub fn exif_report_body(image: &[u8]) -> (r: String)
    ensures
        r@ == body_text(exif_read(image@)),
{
    let read = match read_exif_container(image) {
        Ok(exif) => Ok(records_of(&exif)),
        Err(e) => Err(e),
    };
    report_body(&read)
}

/// How the report shows a field's value, by type: a value of any type but
/// `BYTE`, `UNDEFINED` and `ASCII` as the decoder renders it with its unit;
/// `BYTE` and `UNDEFINED` bytes alike, as their UTF-8 text when they are
/// valid UTF-8 and otherwise as the decoder renders them without a unit;
/// and `ASCII` strings as the UTF-8 ones among them, joined by `, `.
pub proof fn lemma_values_shown(r: RecordView)
    ensures
        !(r.value is Byte) && !(r.value is Undefined) && !(r.value is Ascii) ==> value_text(r)
            == r.display_with_unit,
        r.value matches RawView::Byte(b) ==> value_text(r) == value_text(
            RecordView { value: RawView::Undefined(b), ..r },
        ),
        r.value matches RawView::Byte(b) ==> (valid_utf8(b) ==> value_text(r) == decode_utf8(b)) && (
        !valid_utf8(b) ==> value_text(r) == r.display),
        r.value matches RawView::Ascii(list) ==> value_text(r) == join(utf8_texts(list), ", "@),
        field_line(r) == "  "@ + r.tag + ": "@ + value_text(r) + "\n"@,
{
}

} // verus!
