//! Splicing an EXIF block into a JPEG stream: a new APP1 segment right after
//! the SOI marker, replacing the APP0..APP15 segments that follow it.

use vstd::prelude::*;

verus! {

/// The data begins with the JPEG start-of-image marker `FF D8`.
pub open spec fn is_jpeg(j: Seq<u8>) -> bool {
    j.len() >= 2 && j[0] == 0xFF && j[1] == 0xD8
}

/// At `pos` there is an application segment marker `FF E0` .. `FF EF`.
pub open spec fn app_marker_at(j: Seq<u8>, pos: int) -> bool {
    &&& 0 <= pos
    &&& pos + 1 < j.len()
    &&& j[pos] == 0xFF
    &&& 0xE0 <= j[pos + 1] <= 0xEF
}

/// The position of the segment that follows the APP segment starting at
/// `pos`: its marker, its two length bytes (big endian, counting
/// themselves) and its data.
pub open spec fn next_segment(j: Seq<u8>, pos: int) -> int {
    pos + 2 + (j[pos + 2] as int) * 256 + (j[pos + 3] as int)
}

/// Skipping the APP segments that start at `pos`: `Some` of the position of
/// the first byte that does not begin an APP segment, or `None` when the
/// segment lengths run past the end of the data (a length field cut off,
/// or a segment longer than the rest of the data).
pub open spec fn skip_app_segments(j: Seq<u8>, pos: int) -> Option<int>
    decreases j.len() - pos,
{
    if app_marker_at(j, pos) {
        if pos + 3 >= j.len() {
            None
        } else if next_segment(j, pos) > j.len() {
            None
        } else {
            skip_app_segments(j, next_segment(j, pos))
        }
    } else if pos > j.len() || pos < 0 {
        None
    } else {
        Some(pos)
    }
}

/// Where the image data after the leading APP segments begins, for the
/// streams whose segments can be skipped.
pub open spec fn image_data_start(j: Seq<u8>) -> int {
    skip_app_segments(j, 2)->0
}

/// A stream that the splicing accepts: either it is no JPEG stream (and is
/// refused), or its leading APP segments can be skipped.
pub open spec fn spliceable(j: Seq<u8>) -> bool {
    is_jpeg(j) ==> skip_app_segments(j, 2) is Some
}

/// The identifier that opens an EXIF APP1 segment.
pub open spec fn exif_identifier() -> Seq<u8> {
    seq![0x45u8, 0x78, 0x69, 0x66, 0x00, 0x00]
}

/// The APP1 length field for a payload of `n` bytes: `n + 8` (the length
/// bytes, the identifier and the payload) kept to 16 bits.
pub open spec fn app1_length(n: nat) -> nat {
    (n + 8) % 65536
}

/// SOI, the APP1 marker, its length field and the EXIF identifier.
pub open spec fn app1_header(n: nat) -> Seq<u8> {
    seq![
        0xFFu8,
        0xD8u8,
        0xFFu8,
        0xE1u8,
        (app1_length(n) / 256) as u8,
        (app1_length(n) % 256) as u8,
    ] + exif_identifier()
}

/// The spliced stream: the new header, the EXIF payload, then the original
/// stream from the first byte after its leading APP segments.
pub open spec fn spliced(j: Seq<u8>, payload: Seq<u8>) -> Seq<u8> {
    app1_header(payload.len()) + payload + j.skip(image_data_start(j))
}

/// Why a stream cannot take an EXIF block.
#[derive(Debug, Clone, Copy, PartialEq, Eq, Structural)]
pub enum JpegError {
    /// The data does not begin with the JPEG start-of-image marker.
    NotJpeg,
}

/// Where the image data after the APP segments that follow the SOI marker
/// begins, or `None` when the segment lengths run past the end of the data.
pub fn scan_app_segments(jpeg: &[u8]) -> (r: Option<usize>)
    ensures
        r matches Some(k) ==> skip_app_segments(jpeg@, 2) == Some(k as int) && 2 <= k <= jpeg@.len(),
        r is None <==> skip_app_segments(jpeg@, 2) is None,
{
    let len = jpeg.len();
    if len < 2 {
        return None;
    }
    let mut pos: usize = 2;
    loop
        invariant
            2 <= pos <= len,
            len == jpeg@.len(),
            skip_app_segments(jpeg@, 2) == skip_app_segments(jpeg@, pos as int),
        decreases len - pos,
    {
        if !(pos < len - 1 && jpeg[pos] == 0xFF && 0xE0 <= jpeg[pos + 1] && jpeg[pos + 1] <= 0xEF) {
            return Some(pos);
        }
        if len - pos <= 3 {
            return None;
        }
        let seg_len = (jpeg[pos + 2] as usize) * 256 + (jpeg[pos + 3] as usize);
        if seg_len + 2 > len - pos {
            return None;
        }
        pos = pos + 2 + seg_len;
    }
}

/// Appends `src[from..]` to `out`.
fn push_tail(out: &mut Vec<u8>, src: &[u8], from: usize)
    requires
        from <= src@.len(),
    ensures
        final(out)@ == old(out)@ + src@.skip(from as int),
{
    let ghost start = out@;
    let mut i = from;
    while i < src.len()
        invariant
            from <= i <= src@.len(),
            out@ == start + src@.subrange(from as int, i as int),
        decreases src@.len() - i,
    {
        out.push(src[i]);
        i += 1;
        assert(out@ =~= start + src@.subrange(from as int, i as int));
    }
    assert(src@.subrange(from as int, i as int) =~= src@.skip(from as int));
}

/// The JPEG stream `jpeg` with `exif_data` as its EXIF block: a new APP1
/// segment directly after the SOI marker, followed by the image data that
/// came after the original stream's leading APP segments (which are
/// dropped). Data that does not begin with the SOI marker is refused.
pub fn inject_exif_to_jpeg(jpeg: &[u8], exif_data: &[u8]) -> (r: Result<Vec<u8>, JpegError>)
    requires
        spliceable(jpeg@),
    ensures
        r is Err <==> !is_jpeg(jpeg@),
        r matches Err(e) ==> e == JpegError::NotJpeg,
        r matches Ok(out) ==> out@ == spliced(jpeg@, exif_data@),
{
    if jpeg.len() < 2 || jpeg[0] != 0xFF || jpeg[1] != 0xD8 {
        return Err(JpegError::NotJpeg);
    }
    let start = match scan_app_segments(jpeg) {
        Some(k) => k,
        None => {
            return Err(JpegError::NotJpeg);
        },
    };
    let size = ((exif_data.len() % 65536) + 8) % 65536;
    let mut out: Vec<u8> = Vec::new();
    out.push(0xFF);
    out.push(0xD8);
    out.push(0xFF);
    out.push(0xE1);
    out.push((size / 256) as u8);
    out.push((size % 256) as u8);
    out.push(0x45);
    out.push(0x78);
    out.push(0x69);
    out.push(0x66);
    out.push(0x00);
    out.push(0x00);
    assert(size == app1_length(exif_data@.len()));
    assert(out@ =~= app1_header(exif_data@.len()));
    push_tail(&mut out, exif_data, 0);
    assert(exif_data@.skip(0) =~= exif_data@);
    push_tail(&mut out, jpeg, start);
    Ok(out)
}

/// Skipping APP segments stops at a position that does not begin an APP
/// segment, so skipping again from there stays put.
pub proof fn lemma_skip_stops(j: Seq<u8>, pos: int)
    requires
        skip_app_segments(j, pos) is Some,
    ensures
        ({
            let k = skip_app_segments(j, pos)->0;
            &&& 0 <= k <= j.len()
            &&& !app_marker_at(j, k)
            &&& skip_app_segments(j, k) == Some(k)
        }),
    decreases j.len() - pos,
{
    if app_marker_at(j, pos) {
        lemma_skip_stops(j, next_segment(j, pos));
    }
}

/// Writing an EXIF block into a stream that already went through the
/// splicing replaces the block written before, rather than adding a second
/// one: the new APP1 segment is skipped like any other APP segment, so the
/// image data is found where it was. The stream that the first splicing
/// gives is again a JPEG stream that the splicing accepts.
pub proof fn lemma_rewrite_replaces_exif(j: Seq<u8>, p: Seq<u8>, q: Seq<u8>)
    requires
        is_jpeg(j),
        spliceable(j),
        p.len() + 8 <= 65535,
    ensures
        is_jpeg(spliced(j, p)),
        spliceable(spliced(j, p)),
        image_data_start(spliced(j, p)) == 12 + p.len(),
        spliced(spliced(j, p), q) == spliced(j, q),
{
    let k = image_data_start(j);
    lemma_skip_stops(j, 2);
    let s = spliced(j, p);
    let h = app1_header(p.len());
    let n: int = 12 + p.len() as int;
    assert(h.len() == 12);
    assert(s.len() == n + (j.len() - k));
    assert(s[0] == 0xFF && s[1] == 0xD8 && s[2] == 0xFF && s[3] == 0xE1);
    assert(app1_length(p.len()) == p.len() + 8);
    assert(s[4] == (app1_length(p.len()) / 256) as u8);
    assert(s[5] == (app1_length(p.len()) % 256) as u8);
    assert((s[4] as int) * 256 + (s[5] as int) == p.len() + 8) by (nonlinear_arith)
        requires
            s[4] == ((p.len() + 8) / 256) as u8,
            s[5] == ((p.len() + 8) % 256) as u8,
            p.len() + 8 <= 65535,
    ;
    assert(app_marker_at(s, 2));
    assert(next_segment(s, 2) == n);
    assert(s.skip(n) =~= j.skip(k));
    if n + 1 < s.len() {
        assert(s.skip(n)[0] == j.skip(k)[0]);
        assert(s.skip(n)[1] == j.skip(k)[1]);
        assert(s[n] == j[k]);
        assert(s[n + 1] == j[k + 1]);
    }
    assert(!app_marker_at(s, n));
    assert(skip_app_segments(s, n) == Some(n));
    assert(skip_app_segments(s, 2) == Some(n));
    assert(spliced(s, q) =~= spliced(j, q));
}

} // verus!
