use wexif::cli::{plan_cli, written_notice, CliArgs, CliPlan};
use wexif::exif_data::ExifData;

fn options(input: Option<&str>, output: Option<&str>, write: bool) -> CliArgs {
    CliArgs {
        mcp: false,
        input: input.map(|s| s.to_string()),
        output: output.map(|s| s.to_string()),
        exif_json: "exif.json".to_string(),
        write,
        enable_ai: false,
    }
}

#[test]
fn serving_takes_precedence() {
    let mut o = options(Some("photo.jpg"), None, true);
    o.mcp = true;
    assert!(matches!(plan_cli(&o), CliPlan::Serve));
}

#[test]
fn input_is_needed() {
    assert!(matches!(plan_cli(&options(None, Some("out.jpg"), true)), CliPlan::MissingInput));
}

#[test]
fn show_only_without_write() {
    match plan_cli(&options(Some("vacation.jpg"), Some("out.jpg"), false)) {
        CliPlan::Show { input } => assert_eq!(input, "vacation.jpg"),
        other => panic!("unexpected plan {:?}", other),
    }
}

#[test]
fn rewrite_over_input_or_to_output() {
    match plan_cli(&options(Some("vacation.jpg"), None, true)) {
        CliPlan::Rewrite { input, output, exif_json, enable_ai } => {
            assert_eq!(input, "vacation.jpg");
            assert_eq!(output, "vacation.jpg");
            assert_eq!(exif_json, "exif.json");
            assert!(!enable_ai);
        }
        other => panic!("unexpected plan {:?}", other),
    }
    let mut o = options(Some("original.jpg"), Some("modified.jpg"), true);
    o.enable_ai = true;
    o.exif_json = "custom_exif.json".to_string();
    match plan_cli(&o) {
        CliPlan::Rewrite { input, output, exif_json, enable_ai } => {
            assert_eq!(input, "original.jpg");
            assert_eq!(output, "modified.jpg");
            assert_eq!(exif_json, "custom_exif.json");
            assert!(enable_ai);
        }
        other => panic!("unexpected plan {:?}", other),
    }
}

#[test]
fn loaded_summary_and_notice() {
    let d = ExifData {
        gps_longitude: "117.9431".to_string(),
        model: "ILCE-7M4".to_string(),
        date_time_original: "2024:12:10 09:28:45".to_string(),
        orientation: "1".to_string(),
        lens: "FE 50mm F1.8".to_string(),
        focal_length: "50mm".to_string(),
        iso_speed_ratings: 100,
        gps_latitude: "30.1126".to_string(),
        exposure_compensation: "+0.3EV".to_string(),
        location: "宏村".to_string(),
        make: "SONY".to_string(),
        exposure_time: "1/200s".to_string(),
        f_number: "f/2.8".to_string(),
        white_balance: "Auto".to_string(),
    };
    assert_eq!(
        d.summary(),
        "\n已加载 EXIF 数据:\n  相机: SONY ILCE-7M4\n  镜头: FE 50mm F1.8\n  拍摄时间: 2024:12:10 09:28:45\n  位置: 宏村\n"
    );
    assert_eq!(written_notice("out.jpg"), "\n✓ EXIF 数据已成功写入: out.jpg");
}
