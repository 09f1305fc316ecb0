use wexif::exif_data::ExifData;
use wexif::exif_reader::{exif_report_body, report_body, report_header, FieldRecord, RawValue};
use wexif::exif_writer::exif_payload;
use wexif::jpeg::inject_exif_to_jpeg;

fn footer() -> String {
    format!("\n{}\n\n", "=".repeat(50))
}

fn record(tag: &str, value: RawValue, display: &str, with_unit: &str) -> FieldRecord {
    FieldRecord {
        tag: tag.to_string(),
        value,
        display: display.to_string(),
        display_with_unit: with_unit.to_string(),
    }
}

#[test]
fn header_names_the_image() {
    assert_eq!(report_header("photo.jpg"), "=== 原始 EXIF 信息 ===\n图片路径: photo.jpg\n\n");
}

#[test]
fn empty_and_failed_reads() {
    assert_eq!(report_body(&Ok(vec![])), format!("  (未找到 EXIF 信息)\n{}", footer()));
    assert_eq!(
        report_body(&Err("Unknown image format".to_string())),
        format!("  无法读取 EXIF 信息: Unknown image format\n{}", footer())
    );
}

#[test]
fn values_shown_by_kind() {
    let records = vec![
        record("UserComment", RawValue::Undefined(b"hello".to_vec()), "0x68656c6c6f", "0x68656c6c6f"),
        record("MakerNote", RawValue::Undefined(vec![0xFF, 0xFE]), "0xfffe", "0xfffe"),
        record("GPSVersionID", RawValue::Byte(b"ab".to_vec()), "2.2", "2.2"),
        record("XPTitle", RawValue::Byte(vec![0xFF]), "0xff", "0xff"),
        record(
            "Artist",
            RawValue::Ascii(vec![b"a".to_vec(), vec![0xC3], b"b".to_vec()]),
            "\"a\", \"b\"",
            "\"a\", \"b\"",
        ),
        record("Make", RawValue::Ascii(vec![]), "", ""),
        record("FocalLength", RawValue::Rational, "50", "50 mm"),
        record("ISOSpeed", RawValue::Short, "100", "100 ISO"),
        record("Odd", RawValue::Unknown, "unknown", "unknown"),
    ];
    let expected = format!(
        "  UserComment: hello\n  MakerNote: 0xfffe\n  GPSVersionID: ab\n  XPTitle: 0xff\n  Artist: a, b\n  Make: \n  FocalLength: 50 mm\n  ISOSpeed: 100 ISO\n  Odd: unknown\n{}",
        footer()
    );
    assert_eq!(report_body(&Ok(records)), expected);
}

#[test]
fn written_fields_read_back() {
    let data = ExifData {
        gps_longitude: String::new(),
        model: "ILCE-7M4".to_string(),
        date_time_original: String::new(),
        orientation: String::new(),
        lens: String::new(),
        focal_length: "50mm".to_string(),
        iso_speed_ratings: 0,
        gps_latitude: String::new(),
        exposure_compensation: String::new(),
        location: String::new(),
        make: "SONY".to_string(),
        exposure_time: String::new(),
        f_number: String::new(),
        white_balance: String::new(),
    };
    let payload = exif_payload(&data, None, None).unwrap();
    let jpeg = inject_exif_to_jpeg(&[0xFF, 0xD8, 0xFF, 0xD9], &payload).unwrap();
    let body = exif_report_body(&jpeg);
    assert!(body.contains("  Make: SONY\n"), "{}", body);
    assert!(body.contains("  Model: ILCE-7M4\n"), "{}", body);
    assert!(body.contains("  FocalLength: 50 mm\n"), "{}", body);
    assert!(body.ends_with(&footer()));
}

#[test]
fn unreadable_image() {
    let body = exif_report_body(b"not an image");
    assert!(body.starts_with("  无法读取 EXIF 信息: "), "{}", body);
    assert!(body.ends_with(&footer()));
}

#[test]
fn readme_example_read_back() {
    let data = ExifData {
        gps_longitude: "117.9431".to_string(),
        model: "ILCE-7M4".to_string(),
        date_time_original: "2024:12:10 09:28:45".to_string(),
        orientation: "1".to_string(),
        lens: "FE 50mm F1.8".to_string(),
        focal_length: "50mm".to_string(),
        iso_speed_ratings: 100,
        gps_latitude: "30.1126".to_string(),
        exposure_compensation: "+0.3EV".to_string(),
        location: "中国安徽省黄山市黟县宏村镇徽派古村落".to_string(),
        make: "SONY".to_string(),
        exposure_time: "1/200s".to_string(),
        f_number: "f/2.8".to_string(),
        white_balance: "Auto".to_string(),
    };
    let payload = exif_payload(&data, Some((28, 10)), Some((3, 10))).unwrap();
    let jpeg = inject_exif_to_jpeg(&[0xFF, 0xD8, 0xFF, 0xD9], &payload).unwrap();
    let body = exif_report_body(&jpeg);
    for tag in [
        "  GPSLatitude: ",
        "  GPSLatitudeRef: N",
        "  GPSLongitude: ",
        "  GPSLongitudeRef: E",
        "  ExposureTime: ",
        "  FNumber: ",
        "  FocalLength: 50 mm",
        "  ExposureBiasValue: ",
        "  ImageDescription: 中国安徽省黄山市黟县宏村镇徽派古村落",
    ] {
        assert!(body.contains(tag), "{} missing from\n{}", tag, body);
    }
}
