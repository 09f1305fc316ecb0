use wexif::exif_data::ExifData;
use wexif::exif_writer::{exif_fields, exif_payload, ExifField, ExifTag, FieldValue, TagContext, WriteError};

fn blank() -> ExifData {
    ExifData {
        gps_longitude: String::new(),
        model: String::new(),
        date_time_original: String::new(),
        orientation: String::new(),
        lens: String::new(),
        focal_length: String::new(),
        iso_speed_ratings: 0,
        gps_latitude: String::new(),
        exposure_compensation: String::new(),
        location: String::new(),
        make: String::new(),
        exposure_time: String::new(),
        f_number: String::new(),
        white_balance: String::new(),
    }
}

fn readme_example() -> ExifData {
    ExifData {
        gps_longitude: "117.9431".to_string(),
        model: "ILCE-7M4".to_string(),
        date_time_original: "2024:12:10 09:28:45".to_string(),
        orientation: "1".to_string(),
        lens: "FE 50mm F1.8".to_string(),
        focal_length: "50mm".to_string(),
        iso_speed_ratings: 100,
        gps_latitude: "30.1126".to_string(),
        exposure_compensation: "+0.3EV".to_string(),
        location: "中国安徽省黄山市黟县宏村镇徽派古村落".to_string(),
        make: "SONY".to_string(),
        exposure_time: "1/200s".to_string(),
        f_number: "f/2.8".to_string(),
        white_balance: "Auto".to_string(),
    }
}

fn ascii(context: TagContext, number: u16, s: &str) -> ExifField {
    ExifField { context, number, ifd_num: 0, value: FieldValue::Ascii(s.as_bytes().to_vec()) }
}

fn rational(context: TagContext, number: u16, q: &[(u32, u32)]) -> ExifField {
    ExifField { context, number, ifd_num: 0, value: FieldValue::Rational(q.to_vec()) }
}

#[test]
fn fields_of_the_readme_example() {
    let d = readme_example();
    let fields = exif_fields(&d, Some((28, 10)), Some((3, 10)));
    let expected = vec![
        ascii(TagContext::Tiff, 0x10f, "SONY"),
        ascii(TagContext::Tiff, 0x110, "ILCE-7M4"),
        ascii(TagContext::Exif, 0xa434, "FE 50mm F1.8"),
        ascii(TagContext::Exif, 0x9003, "2024:12:10 09:28:45"),
        ExifField { context: TagContext::Exif, number: 0x8827, ifd_num: 0, value: FieldValue::Short(100) },
        rational(TagContext::Exif, 0x920a, &[(50, 1)]),
        rational(TagContext::Exif, 0x829d, &[(28, 10)]),
        rational(TagContext::Exif, 0x829a, &[(1, 200)]),
        ExifField { context: TagContext::Exif, number: 0x9204, ifd_num: 0, value: FieldValue::SRational(vec![(3, 10)]) },
        rational(TagContext::Gps, 0x2, &[(301126, 10000), (0, 1), (0, 1)]),
        ascii(TagContext::Gps, 0x1, "N"),
        rational(TagContext::Gps, 0x4, &[(1179431, 10000), (0, 1), (0, 1)]),
        ascii(TagContext::Gps, 0x3, "E"),
        ascii(TagContext::Tiff, 0x10e, "中国安徽省黄山市黟县宏村镇徽派古村落"),
    ];
    assert_eq!(fields, expected);
}

#[test]
fn gps_fields_and_references() {
    let mut d = blank();
    d.gps_latitude = "30°7′15″ N".to_string();
    d.gps_longitude = "117°58′22″ W".to_string();
    d.exposure_time = "1/250 s".to_string();
    let fields = exif_fields(&d, None, None);
    let expected = vec![
        rational(TagContext::Exif, 0x829a, &[(1, 250)]),
        rational(TagContext::Gps, 0x2, &[(30, 1), (7, 1), (15, 1)]),
        ascii(TagContext::Gps, 0x1, "N"),
        rational(TagContext::Gps, 0x4, &[(117, 1), (58, 1), (22, 1)]),
        ascii(TagContext::Gps, 0x3, "W"),
    ];
    assert_eq!(fields, expected);

    d.gps_latitude = "30°7′15″".to_string();
    d.gps_longitude = "117°58′22″ E".to_string();
    let fields = exif_fields(&d, None, None);
    assert_eq!(fields[2], ascii(TagContext::Gps, 0x1, "S"));
    assert_eq!(fields[4], ascii(TagContext::Gps, 0x3, "E"));
}

#[test]
fn numbers_left_out_or_truncated() {
    let mut d = blank();
    d.iso_speed_ratings = 65537;
    d.focal_length = "wide".to_string();
    d.f_number = "f/2.8".to_string();
    let fields = exif_fields(&d, None, Some((3, 10)));
    assert_eq!(
        fields,
        vec![ExifField { context: TagContext::Exif, number: 0x8827, ifd_num: 0, value: FieldValue::Short(1) }]
    );
    // A rational handed in for an empty text is not written.
    let fields = exif_fields(&blank(), Some((28, 10)), Some((3, 10)));
    assert!(fields.is_empty());
}

#[test]
fn tag_directories_and_numbers() {
    assert_eq!(ExifTag::Make.context(), TagContext::Tiff);
    assert_eq!(ExifTag::GPSLongitude.context(), TagContext::Gps);
    assert_eq!(ExifTag::FNumber.context(), TagContext::Exif);
    assert_eq!(ExifTag::ExposureBiasValue.number(), 0x9204);
    assert_eq!(ExifTag::PhotographicSensitivity.number(), 0x8827);
}

#[test]
fn nothing_to_write_is_an_error() {
    assert_eq!(exif_payload(&blank(), None, None), Err(WriteError::Encoding));
}

#[test]
fn payload_is_a_big_endian_tiff() {
    let mut d = blank();
    d.make = "SONY".to_string();
    let payload = exif_payload(&d, None, None).unwrap();
    assert_eq!(&payload[..8], &[0x4d, 0x4d, 0x00, 0x2a, 0x00, 0x00, 0x00, 0x08]);
    assert!(payload.windows(4).any(|w| w == b"SONY"));
    let payload2 = exif_payload(&readme_example(), Some((28, 10)), Some((3, 10))).unwrap();
    assert!(payload2.len() > payload.len());
}

#[test]
fn every_tag_written_once() {
    let mut d = readme_example();
    d.gps_latitude = "30°7′15″ N".to_string();
    d.gps_longitude = "117°58′22″ E".to_string();
    d.exposure_time = "1/200 s".to_string();
    let fields = exif_fields(&d, Some((28, 10)), Some((3, 10)));
    assert_eq!(fields.len(), 14);
    for i in 0..fields.len() {
        for j in (i + 1)..fields.len() {
            assert!(
                (fields[i].context, fields[i].number) != (fields[j].context, fields[j].number),
                "fields {} and {} share a tag",
                i,
                j
            );
        }
    }
}

#[test]
fn hemispheres_of_decimal_degrees() {
    let mut d = blank();
    d.gps_latitude = "-33.8688".to_string();
    d.gps_longitude = "-70.6693".to_string();
    let fields = exif_fields(&d, None, None);
    assert_eq!(fields[0], rational(TagContext::Gps, 0x2, &[(338688, 10000), (0, 1), (0, 1)]));
    assert_eq!(fields[1], ascii(TagContext::Gps, 0x1, "S"));
    assert_eq!(fields[3], ascii(TagContext::Gps, 0x3, "W"));
}
