use wexif::formats::{
    exposure_compensation_text, f_number_text, parse_exposure_time, parse_focal_length,
    parse_gps_coordinate, FormatError,
};

#[test]
fn gps_coordinate_with_hemisphere() {
    assert_eq!(parse_gps_coordinate("30°7′15″ N"), Ok((30, 1, 7, 1, 15, 1)));
    assert_eq!(parse_gps_coordinate("117°58′22″ E"), Ok((117, 1, 58, 1, 22, 1)));
}

#[test]
fn gps_coordinate_spaces_and_blank_seconds() {
    assert_eq!(parse_gps_coordinate(" 30 ° 7 ′ 15.5 ″"), Err(FormatError::GpsSeconds));
    assert_eq!(parse_gps_coordinate("30°7′"), Ok((30, 1, 7, 1, 0, 1)));
    assert_eq!(parse_gps_coordinate("30°7′   ″"), Ok((30, 1, 7, 1, 0, 1)));
    assert_eq!(parse_gps_coordinate("30°7′ 15 N″"), Ok((30, 1, 7, 1, 15, 1)));
    assert_eq!(parse_gps_coordinate("+30°07′15″"), Ok((30, 1, 7, 1, 15, 1)));
}

#[test]
fn gps_coordinate_in_decimal_degrees() {
    assert_eq!(parse_gps_coordinate("30.1126"), Ok((301126, 10000, 0, 1, 0, 1)));
    assert_eq!(parse_gps_coordinate(" 117.9431 "), Ok((1179431, 10000, 0, 1, 0, 1)));
    assert_eq!(parse_gps_coordinate("-33.8688"), Ok((338688, 10000, 0, 1, 0, 1)));
    assert_eq!(parse_gps_coordinate("+45"), Ok((45, 1, 0, 1, 0, 1)));
    assert_eq!(parse_gps_coordinate("1.123456789"), Ok((1123456789, 1000000000, 0, 1, 0, 1)));
    assert_eq!(parse_gps_coordinate("429.4967295"), Ok((4294967295, 10000000, 0, 1, 0, 1)));
}

#[test]
fn gps_coordinate_errors() {
    assert_eq!(parse_gps_coordinate("30.1126.5"), Err(FormatError::GpsFormat));
    assert_eq!(parse_gps_coordinate("30."), Err(FormatError::GpsFormat));
    assert_eq!(parse_gps_coordinate(".5"), Err(FormatError::GpsFormat));
    assert_eq!(parse_gps_coordinate("N30.1"), Err(FormatError::GpsFormat));
    assert_eq!(parse_gps_coordinate("1.1234567890"), Err(FormatError::GpsFormat));
    assert_eq!(parse_gps_coordinate("429.4967296"), Err(FormatError::GpsFormat));
    assert_eq!(parse_gps_coordinate("30°7"), Err(FormatError::GpsFormat));
    assert_eq!(parse_gps_coordinate("x°7′15″"), Err(FormatError::GpsDegrees));
    assert_eq!(parse_gps_coordinate("30°-7′15″"), Err(FormatError::GpsMinutes));
    assert_eq!(parse_gps_coordinate("30°7′x″"), Err(FormatError::GpsSeconds));
    assert_eq!(parse_gps_coordinate("4294967296°7′1″"), Err(FormatError::GpsDegrees));
    assert_eq!(parse_gps_coordinate("4294967295°0′1″"), Ok((4294967295, 1, 0, 1, 1, 1)));
}

#[test]
fn focal_length_values() {
    assert_eq!(parse_focal_length("35mm"), Ok((35, 1)));
    assert_eq!(parse_focal_length("50mm"), Ok((50, 1)));
    assert_eq!(parse_focal_length(" 85 mm "), Ok((85, 1)));
    assert_eq!(parse_focal_length("24mmmm"), Ok((24, 1)));
    assert_eq!(parse_focal_length("24"), Ok((24, 1)));
    assert_eq!(parse_focal_length("2.8mm"), Err(FormatError::FocalLength));
    assert_eq!(parse_focal_length(""), Err(FormatError::FocalLength));
    assert_eq!(parse_focal_length("mm"), Err(FormatError::FocalLength));
}

#[test]
fn exposure_time_values() {
    assert_eq!(parse_exposure_time("1/250 s"), Ok((1, 250)));
    assert_eq!(parse_exposure_time("1 / 60"), Ok((1, 60)));
    assert_eq!(parse_exposure_time("2/1 s s"), Ok((2, 1)));
    assert_eq!(parse_exposure_time("1/200s"), Ok((1, 200)));
    assert_eq!(parse_exposure_time(" 1/8000s "), Ok((1, 8000)));
}

#[test]
fn exposure_time_errors() {
    assert_eq!(parse_exposure_time("1/200x"), Err(FormatError::ExposureTimeDenominator));
    assert_eq!(parse_exposure_time("0.5 s"), Err(FormatError::ExposureTimeFormat));
    assert_eq!(parse_exposure_time("1/2/3"), Err(FormatError::ExposureTimeFormat));
    assert_eq!(parse_exposure_time("a/2"), Err(FormatError::ExposureTimeNumerator));
    assert_eq!(parse_exposure_time(""), Err(FormatError::ExposureTimeFormat));
}

#[test]
fn number_texts() {
    assert_eq!(f_number_text("f/2.8"), "2.8");
    assert_eq!(f_number_text(" f/ 2.0 "), "2.0");
    assert_eq!(f_number_text("f/f/4"), "4");
    assert_eq!(f_number_text("2.8"), "2.8");
    assert_eq!(exposure_compensation_text("+0.3 EV"), "+0.3");
    assert_eq!(exposure_compensation_text("+0.3EV"), "+0.3");
    assert_eq!(exposure_compensation_text("-1 EV EV"), "-1");
    assert_eq!(exposure_compensation_text("0"), "0");
}
