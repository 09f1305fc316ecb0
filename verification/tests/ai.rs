use wexif::ai_generator::{ai_command_args, ai_outcome};

#[test]
fn command_arguments() {
    let args = ai_command_args("photo.jpg", "exif.json");
    assert_eq!(args.len(), 6);
    assert_eq!(args[0], "--image-url");
    assert_eq!(args[1], "photo.jpg");
    assert_eq!(args[2], "--prompt");
    assert!(args[3].starts_with("解析图片,生成exif数据返回"));
    assert!(args[3].contains("{\"GPSLongitude\":\"\",\"Model\":\"\""));
    assert!(args[3].ends_with("\"WhiteBalance\":\"\"}`"));
    assert_eq!(args[4], "--output");
    assert_eq!(args[5], "exif.json");
}

#[test]
fn outcomes() {
    assert_eq!(
        ai_outcome(true, "", "exif.json"),
        Ok("AI 生成 EXIF 数据成功，已保存到: exif.json".to_string())
    );
    assert_eq!(
        ai_outcome(false, "bad key", "exif.json"),
        Err("doubao-seed-skill 执行失败: bad key".to_string())
    );
}
