use wexif::jpeg::{inject_exif_to_jpeg, scan_app_segments, JpegError};

fn header(payload_len: usize) -> Vec<u8> {
    let size = ((payload_len + 8) % 65536) as u16;
    vec![0xFF, 0xD8, 0xFF, 0xE1, (size >> 8) as u8, (size & 0xFF) as u8, b'E', b'x', b'i', b'f', 0, 0]
}

#[test]
fn splice_into_plain_jpeg() {
    let jpeg = vec![0xFF, 0xD8, 0xFF, 0xDB, 0x00, 0x02, 0xFF, 0xD9];
    let payload = vec![1, 2, 3];
    let out = inject_exif_to_jpeg(&jpeg, &payload).unwrap();
    let mut expected = header(3);
    expected.extend_from_slice(&payload);
    expected.extend_from_slice(&jpeg[2..]);
    assert_eq!(out, expected);
    assert_eq!(&out[..6], &[0xFF, 0xD8, 0xFF, 0xE1, 0x00, 0x0B]);
}

#[test]
fn splice_drops_existing_app_segments() {
    // APP0 (JFIF-like, 4 data bytes) and APP1, then a quantization table.
    let jpeg = vec![
        0xFF, 0xD8, 0xFF, 0xE0, 0x00, 0x06, 1, 2, 3, 4, 0xFF, 0xE1, 0x00, 0x03, 9, 0xFF, 0xDB,
        0x00, 0x02,
    ];
    assert_eq!(scan_app_segments(&jpeg), Some(15));
    let out = inject_exif_to_jpeg(&jpeg, &[7, 7]).unwrap();
    let mut expected = header(2);
    expected.extend_from_slice(&[7, 7]);
    expected.extend_from_slice(&[0xFF, 0xDB, 0x00, 0x02]);
    assert_eq!(out, expected);
}

#[test]
fn rewriting_replaces_the_block() {
    let jpeg = vec![0xFF, 0xD8, 0xFF, 0xE0, 0x00, 0x04, 5, 6, 0xFF, 0xC0, 0xFF, 0xD9];
    let first = inject_exif_to_jpeg(&jpeg, &[1, 2, 3, 4]).unwrap();
    let again = inject_exif_to_jpeg(&first, &[9]).unwrap();
    assert_eq!(again, inject_exif_to_jpeg(&jpeg, &[9]).unwrap());
    let same = inject_exif_to_jpeg(&first, &[1, 2, 3, 4]).unwrap();
    assert_eq!(same, first);
}

#[test]
fn not_a_jpeg() {
    assert_eq!(inject_exif_to_jpeg(&[0x89, b'P', b'N', b'G'], &[1]), Err(JpegError::NotJpeg));
    assert_eq!(inject_exif_to_jpeg(&[0xFF], &[1]), Err(JpegError::NotJpeg));
    assert_eq!(inject_exif_to_jpeg(&[], &[1]), Err(JpegError::NotJpeg));
}

#[test]
fn scan_edges() {
    // Only the SOI marker: the image data starts at its end.
    assert_eq!(scan_app_segments(&[0xFF, 0xD8]), Some(2));
    // One trailing byte after SOI.
    assert_eq!(scan_app_segments(&[0xFF, 0xD8, 0xFF]), Some(2));
    // A length field cut off.
    assert_eq!(scan_app_segments(&[0xFF, 0xD8, 0xFF, 0xE2, 0x00]), None);
    // A segment longer than the data.
    assert_eq!(scan_app_segments(&[0xFF, 0xD8, 0xFF, 0xE2, 0x00, 0x09, 1]), None);
    // A segment that ends exactly at the end of the data.
    assert_eq!(scan_app_segments(&[0xFF, 0xD8, 0xFF, 0xE2, 0x00, 0x03, 1]), Some(7));
    assert_eq!(inject_exif_to_jpeg(&[0xFF, 0xD8, 0xFF, 0xE2, 0x00, 0x03, 1], &[]).unwrap(), header(0));
}

#[test]
fn length_field_wraps_at_sixteen_bits() {
    let jpeg = vec![0xFF, 0xD8, 0xFF, 0xD9];
    let payload = vec![0u8; 65530];
    let out = inject_exif_to_jpeg(&jpeg, &payload).unwrap();
    assert_eq!(&out[4..6], &[0x00, 0x02]);
    assert_eq!(out.len(), 12 + 65530 + 2);
}
