//! The EXIF description of a photo, as the `exif.json` file holds it.

use vstd::prelude::*;

verus! {

/// The EXIF description of a photo. Each text field may be empty, which
/// means that the field is not written; the keys of the JSON form are
/// `GPSLongitude`, `Model`, `DateTimeOriginal`, `Orientation`, `Lens`,
/// `FocalLength`, `ISOSpeedRatings`, `GPSLatitude`, `ExposureCompensation`,
/// `Location`, `Make`, `ExposureTime`, `FNumber` and `WhiteBalance`.
#[derive(Debug)]
pub struct ExifData {
    pub gps_longitude: String,
    pub model: String,
    pub date_time_original: String,
    pub orientation: String,
    pub lens: String,
    pub focal_length: String,
    pub iso_speed_ratings: u32,
    pub gps_latitude: String,
    pub exposure_compensation: String,
    pub location: String,
    pub make: String,
    pub exposure_time: String,
    pub f_number: String,
    pub white_balance: String,
}

/// The lines that show a loaded description: a blank line and a title,
/// then the camera (make and model), the lens, the time taken and the
/// location, each on a line of its own.
pub open spec fn summary_text(d: ExifData) -> Seq<char> {
    "\n已加载 EXIF 数据:\n"@ + "  相机: "@ + d.make@ + " "@ + d.model@ + "\n"@ + "  镜头: "@
        + d.lens@ + "\n"@ + "  拍摄时间: "@ + d.date_time_original@ + "\n"@ + "  位置: "@
        + d.location@ + "\n"@
}

impl ExifData {
    /// The lines that show this description once it is loaded.
    pub fn summary(&self) -> (r: String)
        ensures
            r@ == summary_text(*self),
    {
        let mut out = String::new();
        out.append("\n已加载 EXIF 数据:\n");
        out.append("  相机: ");
        out.append(self.make.as_str());
        out.append(" ");
        out.append(self.model.as_str());
        out.append("\n");
        out.append("  镜头: ");
        out.append(self.lens.as_str());
        out.append("\n");
        out.append("  拍摄时间: ");
        out.append(self.date_time_original.as_str());
        out.append("\n");
        out.append("  位置: ");
        out.append(self.location.as_str());
        out.append("\n");
        assert(out@ =~= summary_text(*self));
        out
    }
}

} // verus!
