//! The request to the `doubao-seed-skill` command that has an AI model
//! describe a photo as an EXIF description, and what its outcome means.

use vstd::prelude::*;

verus! {

/// The instruction given to the model: describe the image as EXIF data,
/// location included, in the JSON form of the EXIF description.
pub open spec fn prompt() -> Seq<char> {
    "解析图片,生成exif数据返回,包含位置信息，要求以json格式返回：`{\"GPSLongitude\":\"\",\"Model\":\"\",\"DateTimeOriginal\":\"\",\"Orientation\":\"\",\"Lens\":\"\",\"FocalLength\":\"\",\"ISOSpeedRatings\":0,\"GPSLatitude\":\"\",\"ExposureCompensation\":\"\",\"Location\":\"\",\"Make\":\"\",\"ExposureTime\":\"\",\"FNumber\":\"\",\"WhiteBalance\":\"\"}`"@
}

/// The arguments of the command: the image, the prompt and the JSON file to
/// write.
pub open spec fn command_args(image_path: Seq<char>, output_json: Seq<char>) -> Seq<Seq<char>> {
    seq!["--image-url"@, image_path, "--prompt"@, prompt(), "--output"@, output_json]
}

/// The arguments with which `doubao-seed-skill` is run for the image at
/// `image_path`, writing its EXIF description to `output_json`.
pub fn ai_command_args(image_path: &str, output_json: &str) -> (r: Vec<String>)
    ensures
        r@.map_values(|a: String| a@) == command_args(image_path@, output_json@),
{
    let mut args: Vec<String> = Vec::new();
    args.push("--image-url".to_owned());
    args.push(image_path.to_owned());
    args.push("--prompt".to_owned());
    args.push(
        "解析图片,生成exif数据返回,包含位置信息，要求以json格式返回：`{\"GPSLongitude\":\"\",\"Model\":\"\",\"DateTimeOriginal\":\"\",\"Orientation\":\"\",\"Lens\":\"\",\"FocalLength\":\"\",\"ISOSpeedRatings\":0,\"GPSLatitude\":\"\",\"ExposureCompensation\":\"\",\"Location\":\"\",\"Make\":\"\",\"ExposureTime\":\"\",\"FNumber\":\"\",\"WhiteBalance\":\"\"}`".to_owned(),
    );
    args.push("--output".to_owned());
    args.push(output_json.to_owned());
    assert(args@.map_values(|a: String| a@) =~= command_args(image_path@, output_json@));
    args
}

/// What the command's exit means: on success the notice that the EXIF
/// description was saved to `output_json`, otherwise the failure with the
/// command's error output.
pub open spec fn outcome_text(success: bool, stderr: Seq<char>, output_json: Seq<char>) -> Result<
    Seq<char>,
    Seq<char>,
> {
    if success {
        Ok("AI 生成 EXIF 数据成功，已保存到: "@ + output_json)
    } else {
        Err("doubao-seed-skill 执行失败: "@ + stderr)
    }
}

/// The notice (`Ok`) or the error (`Err`) for a finished run of the command
/// that wrote to `output_json`, given whether it exited successfully and
/// its error output.
pub fn ai_outcome(success: bool, stderr: &str, output_json: &str) -> (r: Result<String, String>)
    ensures
        match r {
            Ok(s) => outcome_text(success, stderr@, output_json@) == Ok::<Seq<char>, Seq<char>>(s@),
            Err(e) => outcome_text(success, stderr@, output_json@) == Err::<Seq<char>, Seq<char>>(e@),
        },
{
    if success {
        let mut s = String::new();
        s.append("AI 生成 EXIF 数据成功，已保存到: ");
        s.append(output_json);
        Ok(s)
    } else {
        let mut e = String::new();
        e.append("doubao-seed-skill 执行失败: ");
        e.append(stderr);
        Err(e)
    }
}

/// The text that opens a key of a JSON object: the key in quotes and a
/// colon.
pub open spec fn json_key(k: Seq<char>) -> Seq<char> {
    "\""@ + k + "\":"@
}

/// `t` occurs in `p`.
pub open spec fn mentions(p: Seq<char>, t: Seq<char>) -> bool {
    exists|i: int| 0 <= i <= p.len() - t.len() && #[trigger] p.subrange(i, i + t.len()) == t
}

/// The command hands over the image and the JSON file to write as given,
/// and its prompt asks for a JSON object that names every key of the
/// `exif.json` form, so that what the model writes can be loaded as an EXIF
/// description.
pub proof fn lemma_command_asks_for_every_key(image_path: Seq<char>, output_json: Seq<char>)
    ensures
        command_args(image_path, output_json).len() == 6,
        command_args(image_path, output_json)[0] == "--image-url"@,
        command_args(image_path, output_json)[1] == image_path,
        command_args(image_path, output_json)[2] == "--prompt"@,
        command_args(image_path, output_json)[4] == "--output"@,
        command_args(image_path, output_json)[5] == output_json,
        mentions(command_args(image_path, output_json)[3], json_key("GPSLongitude"@)),
        mentions(command_args(image_path, output_json)[3], json_key("Model"@)),
        mentions(command_args(image_path, output_json)[3], json_key("DateTimeOriginal"@)),
        mentions(command_args(image_path, output_json)[3], json_key("Orientation"@)),
        mentions(command_args(image_path, output_json)[3], json_key("Lens"@)),
        mentions(command_args(image_path, output_json)[3], json_key("FocalLength"@)),
        mentions(command_args(image_path, output_json)[3], json_key("ISOSpeedRatings"@)),
        mentions(command_args(image_path, output_json)[3], json_key("GPSLatitude"@)),
        mentions(command_args(image_path, output_json)[3], json_key("ExposureCompensation"@)),
        mentions(command_args(image_path, output_json)[3], json_key("Location"@)),
        mentions(command_args(image_path, output_json)[3], json_key("Make"@)),
        mentions(command_args(image_path, output_json)[3], json_key("ExposureTime"@)),
        mentions(command_args(image_path, output_json)[3], json_key("FNumber"@)),
        mentions(command_args(image_path, output_json)[3], json_key("WhiteBalance"@)),
{
    let p = command_args(image_path, output_json)[3];
    reveal_strlit("解析图片,生成exif数据返回,包含位置信息，要求以json格式返回：`{\"GPSLongitude\":\"\",\"Model\":\"\",\"DateTimeOriginal\":\"\",\"Orientation\":\"\",\"Lens\":\"\",\"FocalLength\":\"\",\"ISOSpeedRatings\":0,\"GPSLatitude\":\"\",\"ExposureCompensation\":\"\",\"Location\":\"\",\"Make\":\"\",\"ExposureTime\":\"\",\"FNumber\":\"\",\"WhiteBalance\":\"\"}`");
    reveal_strlit("\"");
    reveal_strlit("\":");
    reveal_strlit("GPSLongitude");
    assert(p.subrange(37, 37 + json_key("GPSLongitude"@).len() as int) =~= json_key("GPSLongitude"@));
    reveal_strlit("Model");
    assert(p.subrange(55, 55 + json_key("Model"@).len() as int) =~= json_key("Model"@));
    reveal_strlit("DateTimeOriginal");
    assert(p.subrange(66, 66 + json_key("DateTimeOriginal"@).len() as int) =~= json_key("DateTimeOriginal"@));
    reveal_strlit("Orientation");
    assert(p.subrange(88, 88 + json_key("Orientation"@).len() as int) =~= json_key("Orientation"@));
    reveal_strlit("Lens");
    assert(p.subrange(105, 105 + json_key("Lens"@).len() as int) =~= json_key("Lens"@));
    reveal_strlit("FocalLength");
    assert(p.subrange(115, 115 + json_key("FocalLength"@).len() as int) =~= json_key("FocalLength"@));
    reveal_strlit("ISOSpeedRatings");
    assert(p.subrange(132, 132 + json_key("ISOSpeedRatings"@).len() as int) =~= json_key("ISOSpeedRatings"@));
    reveal_strlit("GPSLatitude");
    assert(p.subrange(152, 152 + json_key("GPSLatitude"@).len() as int) =~= json_key("GPSLatitude"@));
    reveal_strlit("ExposureCompensation");
    assert(p.subrange(169, 169 + json_key("ExposureCompensation"@).len() as int) =~= json_key("ExposureCompensation"@));
    reveal_strlit("Location");
    assert(p.subrange(195, 195 + json_key("Location"@).len() as int) =~= json_key("Location"@));
    reveal_strlit("Make");
    assert(p.subrange(209, 209 + json_key("Make"@).len() as int) =~= json_key("Make"@));
    reveal_strlit("ExposureTime");
    assert(p.subrange(219, 219 + json_key("ExposureTime"@).len() as int) =~= json_key("ExposureTime"@));
    reveal_strlit("FNumber");
    assert(p.subrange(237, 237 + json_key("FNumber"@).len() as int) =~= json_key("FNumber"@));
    reveal_strlit("WhiteBalance");
    assert(p.subrange(250, 250 + json_key("WhiteBalance"@).len() as int) =~= json_key("WhiteBalance"@));
}

} // verus!
