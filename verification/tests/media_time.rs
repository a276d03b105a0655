use filecopyer::media_time::{
    detect_date_by_source, detect_exif_date, detect_media_metadata_date, detect_video_metadata_date,
    find_qt_creation_time, is_media_file, is_qt_container, is_quicktime_compatible_video,
    parse_exif_datetime, parse_qt_fullbox_creation_time, parse_quicktime_creation_time,
    qt_seconds_to_naive_datetime,
};
use filecopyer::types::{MediaDateTime, TimeSource};

fn dt(year: i32, month: u32, day: u32, hour: u32, minute: u32, second: u32) -> MediaDateTime {
    MediaDateTime { year, month, day, hour, minute, second }
}

fn qt_box(kind: &[u8; 4], payload: &[u8]) -> Vec<u8> {
    let mut v = ((payload.len() + 8) as u32).to_be_bytes().to_vec();
    v.extend_from_slice(kind);
    v.extend_from_slice(payload);
    v
}

fn mvhd_v0(kind: &[u8; 4], secs: u32) -> Vec<u8> {
    let mut p = vec![0u8, 0, 0, 0];
    p.extend_from_slice(&secs.to_be_bytes());
    p.extend_from_slice(&[0u8; 92]);
    qt_box(kind, &p)
}

fn mvhd_v1(secs: u64) -> Vec<u8> {
    let mut p = vec![1u8, 0, 0, 0];
    p.extend_from_slice(&secs.to_be_bytes());
    p.extend_from_slice(&[0u8; 100]);
    qt_box(b"mvhd", &p)
}

fn ftyp() -> Vec<u8> {
    qt_box(b"ftyp", b"isom\0\0\0\0isomavc1")
}

/// A little-endian TIFF with the file date-time in IFD0 and, when given,
/// the original date-time in an Exif IFD.
fn tiff_with_dates(date_time: &[u8; 19], original: Option<&[u8; 19]>) -> Vec<u8> {
    let mut v = b"II*\0".to_vec();
    v.extend_from_slice(&8u32.to_le_bytes());
    let entries: u16 = if original.is_some() { 2 } else { 1 };
    let ifd0_end = 8 + 2 + 12 * entries as u32 + 4;
    v.extend_from_slice(&entries.to_le_bytes());
    // DateTime, ASCII, 20 bytes, stored after IFD0
    v.extend_from_slice(&0x0132u16.to_le_bytes());
    v.extend_from_slice(&2u16.to_le_bytes());
    v.extend_from_slice(&20u32.to_le_bytes());
    v.extend_from_slice(&ifd0_end.to_le_bytes());
    let exif_ifd = ifd0_end + 20;
    if original.is_some() {
        v.extend_from_slice(&0x8769u16.to_le_bytes());
        v.extend_from_slice(&4u16.to_le_bytes());
        v.extend_from_slice(&1u32.to_le_bytes());
        v.extend_from_slice(&exif_ifd.to_le_bytes());
    }
    v.extend_from_slice(&0u32.to_le_bytes());
    v.extend_from_slice(date_time);
    v.push(0);
    if let Some(orig) = original {
        v.extend_from_slice(&1u16.to_le_bytes());
        v.extend_from_slice(&0x9003u16.to_le_bytes());
        v.extend_from_slice(&2u16.to_le_bytes());
        v.extend_from_slice(&20u32.to_le_bytes());
        v.extend_from_slice(&(exif_ifd + 18).to_le_bytes());
        v.extend_from_slice(&0u32.to_le_bytes());
        v.extend_from_slice(orig);
        v.push(0);
    }
    v
}

#[test]
fn media_extensions_any_case() {
    for name in ["a.jpg", "B.JPEG", "c.Png", "d.heic", "e.HEIF", "f.gif", "g.tif", "h.TIFF", "i.bmp",
        "j.webp", "k.raw", "l.CR2", "m.cr3", "n.nef", "o.nrw", "p.arw", "q.dng", "r.MP4", "s.mov",
        "t.m4v", "u.avi", "v.mkv", "w.MTS", "x.3gp", "archive.tar.jpg"] {
        assert!(is_media_file(name), "{name}");
    }
}

#[test]
fn non_media_names() {
    for name in ["notes.txt", "jpg", ".jpg", "photo.jpg.bak", "photo.", "..", "", "movie.mp4x", "a.jp g"] {
        assert!(!is_media_file(name), "{name}");
    }
}

#[test]
fn quicktime_names() {
    for name in ["a.mp4", "b.MOV", "c.m4v", "d.3GP"] {
        assert!(is_quicktime_compatible_video(name), "{name}");
    }
    for name in ["a.avi", "b.mkv", "c.jpg", "mp4", ".mov"] {
        assert!(!is_quicktime_compatible_video(name), "{name}");
    }
}

#[test]
fn exif_datetime_text_parses() {
    assert_eq!(parse_exif_datetime("2021:03:04 05:06:07"), Some(dt(2021, 3, 4, 5, 6, 7)));
    assert_eq!(parse_exif_datetime("  2021:03:04 05:06:07 \0garbage"), Some(dt(2021, 3, 4, 5, 6, 7)));
    assert_eq!(parse_exif_datetime("\u{3000}1999:12:31 23:59:58\0"), Some(dt(1999, 12, 31, 23, 59, 58)));
}

#[test]
fn exif_datetime_text_rejects() {
    assert_eq!(parse_exif_datetime("2021-03-04 05:06:07"), None);
    assert_eq!(parse_exif_datetime("2021:02:30 05:06:07"), None);
    assert_eq!(parse_exif_datetime("    :  :     :  :  "), None);
    assert_eq!(parse_exif_datetime(""), None);
    assert_eq!(parse_exif_datetime("\02021:03:04 05:06:07"), None);
}

#[test]
fn exif_date_from_tiff_date_time() {
    let data = tiff_with_dates(b"2019:07:08 09:10:11", None);
    assert_eq!(detect_exif_date(&data), Some(dt(2019, 7, 8, 9, 10, 11)));
}

#[test]
fn exif_original_date_wins() {
    let data = tiff_with_dates(b"2019:07:08 09:10:11", Some(b"2018:01:02 03:04:05"));
    assert_eq!(detect_exif_date(&data), Some(dt(2018, 1, 2, 3, 4, 5)));
}

#[test]
fn exif_falls_back_when_original_unparseable() {
    let data = tiff_with_dates(b"2019:07:08 09:10:11", Some(b"    :  :     :  :  "));
    assert_eq!(detect_exif_date(&data), Some(dt(2019, 7, 8, 9, 10, 11)));
}

#[test]
fn exif_absent_in_other_data() {
    assert_eq!(detect_exif_date(b"plain text, no image"), None);
    assert_eq!(detect_exif_date(&[]), None);
}

#[test]
fn qt_seconds_conversion() {
    assert_eq!(qt_seconds_to_naive_datetime(0), Some(dt(1904, 1, 1, 0, 0, 0)));
    assert_eq!(qt_seconds_to_naive_datetime(3_600_000_000), Some(dt(2018, 1, 28, 16, 0, 0)));
    assert_eq!(qt_seconds_to_naive_datetime(5_000_000_000), Some(dt(2062, 6, 10, 8, 53, 20)));
    assert_eq!(qt_seconds_to_naive_datetime(i64::MAX as u64 + 1), None);
    assert_eq!(qt_seconds_to_naive_datetime(i64::MAX as u64), None);
    assert_eq!(qt_seconds_to_naive_datetime(u64::MAX), None);
}

#[test]
fn qt_container_kinds() {
    for k in [b"moov", b"trak", b"mdia", b"minf", b"stbl", b"edts", b"udta", b"meta"] {
        assert!(is_qt_container(*k));
    }
    for k in [b"mvhd", b"mdat", b"ftyp", b"MOOV"] {
        assert!(!is_qt_container(*k));
    }
}

#[test]
fn qt_fullbox_versions() {
    let b = mvhd_v0(b"mvhd", 3_600_000_000);
    assert_eq!(parse_qt_fullbox_creation_time(&b, 8, b.len() as u64), Some(dt(2018, 1, 28, 16, 0, 0)));
    let b = mvhd_v1(5_000_000_000);
    assert_eq!(parse_qt_fullbox_creation_time(&b, 8, b.len() as u64), Some(dt(2062, 6, 10, 8, 53, 20)));
    // too short payloads
    assert_eq!(parse_qt_fullbox_creation_time(&b, 8, 15), None);
    assert_eq!(parse_qt_fullbox_creation_time(&b, 8, 27), None);
    assert_eq!(parse_qt_fullbox_creation_time(&b, 20, 8), None);
}

#[test]
fn qt_movie_header_found_in_moov() {
    let mut file = ftyp();
    file.extend(qt_box(b"mdat", &[7u8; 40]));
    file.extend(qt_box(b"moov", &mvhd_v0(b"mvhd", 3_786_825_600)));
    assert_eq!(parse_quicktime_creation_time(&file), Some(dt(2023, 12, 31, 0, 0, 0)));
    assert_eq!(detect_video_metadata_date("clip.MP4", &file), Some(dt(2023, 12, 31, 0, 0, 0)));
    assert_eq!(detect_video_metadata_date("clip.avi", &file), None);
    assert_eq!(detect_media_metadata_date("clip.mov", &file), Some(dt(2023, 12, 31, 0, 0, 0)));
}

#[test]
fn qt_media_header_in_nested_track() {
    let mdia = qt_box(b"mdia", &mvhd_v0(b"mdhd", 3_600_000_000));
    let trak = qt_box(b"trak", &mdia);
    let file = [ftyp(), qt_box(b"moov", &trak)].concat();
    assert_eq!(parse_quicktime_creation_time(&file), Some(dt(2018, 1, 28, 16, 0, 0)));
}

#[test]
fn qt_zero_time_header_is_skipped_for_later_one() {
    // A header whose time cannot be converted does not end the search.
    let bad = mvhd_v1(u64::MAX);
    let good = mvhd_v0(b"mdhd", 0);
    let file = qt_box(b"moov", &[bad, good].concat());
    assert_eq!(parse_quicktime_creation_time(&file), Some(dt(1904, 1, 1, 0, 0, 0)));
}

#[test]
fn qt_meta_box_skips_version_bytes() {
    let mut payload = vec![0u8, 0, 0, 0];
    payload.extend(mvhd_v0(b"mvhd", 3_600_000_000));
    let file = qt_box(b"moov", &qt_box(b"meta", &payload));
    assert_eq!(parse_quicktime_creation_time(&file), Some(dt(2018, 1, 28, 16, 0, 0)));
}

#[test]
fn qt_extended_and_open_ended_sizes() {
    // size 1: a 64-bit size follows the type
    let inner = mvhd_v0(b"mvhd", 3_600_000_000);
    let mut ext = 1u32.to_be_bytes().to_vec();
    ext.extend_from_slice(b"moov");
    ext.extend_from_slice(&((inner.len() + 16) as u64).to_be_bytes());
    ext.extend(&inner);
    assert_eq!(parse_quicktime_creation_time(&ext), Some(dt(2018, 1, 28, 16, 0, 0)));
    // size 0: the box runs to the end
    let mut open = 0u32.to_be_bytes().to_vec();
    open.extend_from_slice(b"moov");
    open.extend(&inner);
    assert_eq!(parse_quicktime_creation_time(&open), Some(dt(2018, 1, 28, 16, 0, 0)));
}

#[test]
fn qt_malformed_boxes_end_the_search() {
    // a box that claims more than there is
    let mut file = qt_box(b"free", &[0u8; 4]);
    file[3] = 200;
    file.extend(qt_box(b"moov", &mvhd_v0(b"mvhd", 10)));
    assert_eq!(parse_quicktime_creation_time(&file), None);
    // a size smaller than the header
    let mut small = 4u32.to_be_bytes().to_vec();
    small.extend_from_slice(b"moov");
    assert_eq!(parse_quicktime_creation_time(&small), None);
    // too little data for a header
    assert_eq!(parse_quicktime_creation_time(&[0, 0, 0]), None);
    assert_eq!(parse_quicktime_creation_time(&[]), None);
}

#[test]
fn qt_depth_limit() {
    let mut b = mvhd_v0(b"mvhd", 3_600_000_000);
    for _ in 0..9 {
        b = qt_box(b"moov", &b);
    }
    // nine containers: the header sits at depth 9, beyond the limit
    assert_eq!(parse_quicktime_creation_time(&b), None);
    let mut c = mvhd_v0(b"mvhd", 3_600_000_000);
    for _ in 0..8 {
        c = qt_box(b"moov", &c);
    }
    assert_eq!(parse_quicktime_creation_time(&c), Some(dt(2018, 1, 28, 16, 0, 0)));
    assert_eq!(find_qt_creation_time(&c, 0, c.len() as u64, 9), None);
}

#[test]
fn date_source_choice() {
    let m = Some(dt(2020, 1, 1, 0, 0, 0));
    let c = Some(dt(2021, 1, 1, 0, 0, 0));
    let o = Some(dt(2022, 1, 1, 0, 0, 0));
    assert_eq!(detect_date_by_source(TimeSource::Auto, m, c, o), m);
    assert_eq!(detect_date_by_source(TimeSource::Auto, None, c, o), c);
    assert_eq!(detect_date_by_source(TimeSource::Auto, None, None, o), o);
    assert_eq!(detect_date_by_source(TimeSource::Auto, None, None, None), None);
    assert_eq!(detect_date_by_source(TimeSource::Exif, None, c, o), None);
    assert_eq!(detect_date_by_source(TimeSource::Exif, m, c, o), m);
    assert_eq!(detect_date_by_source(TimeSource::Created, m, c, o), c);
    assert_eq!(detect_date_by_source(TimeSource::Created, m, None, o), None);
    assert_eq!(detect_date_by_source(TimeSource::Modified, m, c, o), o);
}

#[test]
fn qt_latest_supported_second() {
    assert_eq!(qt_seconds_to_naive_datetime(255_485_145_599), Some(dt(9999, 12, 31, 23, 59, 59)));
    assert_eq!(qt_seconds_to_naive_datetime(255_485_145_600), Some(dt(10000, 1, 1, 0, 0, 0)));
}

#[test]
fn qt_seconds_end_at_the_last_representable_second() {
    assert_eq!(qt_seconds_to_naive_datetime(8_212_349_721_599), Some(dt(262142, 12, 31, 23, 59, 59)));
    assert_eq!(qt_seconds_to_naive_datetime(8_212_349_721_600), None);
    assert_eq!(qt_seconds_to_naive_datetime(u64::MAX), None);
}
