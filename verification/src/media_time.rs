//! Recognising media files and reading their capture date out of EXIF
//! attributes or a QuickTime/MP4 movie header.
use vstd::prelude::*;
use chrono::{Datelike, Timelike};

use crate::text::{chars_of, string_of, trim, trimmed};
use crate::types::{days_before_year, MediaDateTime, TimeSource};

verus! {

// ---------------------------------------------------------------------
// File names
// ---------------------------------------------------------------------

/// The index of the last `'.'` in `name`, or -1 where there is none.
pub open spec fn last_dot(name: Seq<char>) -> int
    decreases name.len(),
{
    if name.len() == 0 {
        -1
    } else if name.last() == '.' {
        name.len() - 1
    } else {
        last_dot(name.drop_last())
    }
}

/// Whether the file name has no extension in the sense of
/// `Path::extension`: it is `..`, has no dot, or its only dot leads.
pub open spec fn has_no_extension(name: Seq<char>) -> bool {
    name =~= seq!['.', '.'] || last_dot(name) <= 0
}

/// The extension of a file name, as `Path::extension` gives it: the text
/// after the last dot, unless the name is `..` or that dot is its first
/// character.
pub open spec fn extension(name: Seq<char>) -> Option<Seq<char>> {
    if has_no_extension(name) {
        None
    } else {
        Some(name.skip(last_dot(name) + 1))
    }
}

/// The stem of a file name, as `Path::file_stem` gives it: the name
/// without its extension and the dot before it.
pub open spec fn file_stem(name: Seq<char>) -> Seq<char> {
    if has_no_extension(name) {
        name
    } else {
        name.take(last_dot(name))
    }
}

/// ASCII letters mapped to lower case, other characters kept, as
/// `str::to_ascii_lowercase` does.
pub open spec fn ascii_lower(c: char) -> char {
    if 'A' <= c && c <= 'Z' {
        ((c as u8) + 32) as u8 as char
    } else {
        c
    }
}

/// `s` with every ASCII letter in lower case.
pub open spec fn ascii_lowercase(s: Seq<char>) -> Seq<char> {
    s.map_values(|c: char| ascii_lower(c))
}

fn lower_char(c: char) -> (r: char)
    ensures
        r == ascii_lower(c),
{
    if 'A' <= c && c <= 'Z' {
        ((c as u8) + 32) as char
    } else {
        c
    }
}

/// The characters of `s` in ASCII lower case.
pub fn to_ascii_lowercase(s: &[char]) -> (r: Vec<char>)
    ensures
        r@ == ascii_lowercase(s@),
{
    let mut r: Vec<char> = Vec::new();
    let mut i: usize = 0;
    while i < s.len()
        invariant
            i <= s@.len(),
            r@ == ascii_lowercase(s@.take(i as int)),
        decreases s@.len() - i,
    {
        let c = lower_char(s[i]);
        r.push(c);
        i += 1;
        assert(r@ =~= ascii_lowercase(s@.take(i as int)));
    }
    assert(s@.take(i as int) =~= s@);
    r
}

/// Whether two character sequences are equal.
pub fn same_chars(a: &[char], b: &[char]) -> (r: bool)
    ensures
        r == (a@ == b@),
{
    if a.len() != b.len() {
        return false;
    }
    let mut i: usize = 0;
    while i < a.len()
        invariant
            a@.len() == b@.len(),
            i <= a@.len(),
            forall|j: int| 0 <= j < i ==> a@[j] == b@[j],
        decreases a@.len() - i,
    {
        if a[i] != b[i] {
            return false;
        }
        i += 1;
    }
    assert(a@ =~= b@);
    true
}

fn is_text(a: &[char], lit: &str) -> (r: bool)
    ensures
        r == (a@ == lit@),
{
    let b = chars_of(lit);
    same_chars(a, &b)
}

/// The position of the last dot, or `None`.
fn find_last_dot(name: &[char]) -> (r: Option<usize>)
    ensures
        match r {
            Some(k) => k as int == last_dot(name@),
            None => last_dot(name@) == -1,
        },
{
    let mut i: usize = name.len();
    assert(name@.take(i as int) =~= name@);
    while i > 0
        invariant
            i <= name@.len(),
            last_dot(name@) == last_dot(name@.take(i as int)),
        decreases i,
    {
        assert(name@.take(i as int).drop_last() =~= name@.take(i - 1));
        if name[i - 1] == '.' {
            return Some(i - 1);
        }
        i -= 1;
    }
    None
}

proof fn lemma_last_dot_range(name: Seq<char>)
    ensures
        -1 <= last_dot(name) < name.len(),
        last_dot(name) >= 0 ==> name[last_dot(name)] == '.',
    decreases name.len(),
{
    if name.len() > 0 && name.last() != '.' {
        lemma_last_dot_range(name.drop_last());
    }
}

/// The stem and the extension of a file name, as `Path::file_stem` and
/// `Path::extension` split it.
pub fn split_file_name(name: &[char]) -> (r: (Vec<char>, Option<Vec<char>>))
    ensures
        r.0@ == file_stem(name@),
        match r.1 {
            Some(e) => extension(name@) == Some(e@),
            None => extension(name@) is None,
        },
{
    proof {
        lemma_last_dot_range(name@);
    }
    let dots = name.len() == 2 && name[0] == '.' && name[1] == '.';
    proof {
        if name@ =~= seq!['.', '.'] {
            assert(dots);
        }
        if dots {
            assert(name@ =~= seq!['.', '.']);
        }
    }
    let k = find_last_dot(name);
    match k {
        Some(k) if !dots && k > 0 => {
            let mut stem: Vec<char> = Vec::new();
            let mut ext: Vec<char> = Vec::new();
            let mut i: usize = 0;
            while i < k
                invariant
                    i <= k < name@.len(),
                    stem@ == name@.take(i as int),
                decreases k - i,
            {
                stem.push(name[i]);
                i += 1;
                assert(stem@ =~= name@.take(i as int));
            }
            let mut j: usize = k + 1;
            while j < name.len()
                invariant
                    k + 1 <= j <= name@.len(),
                    ext@ == name@.subrange(k + 1, j as int),
                decreases name@.len() - j,
            {
                ext.push(name[j]);
                j += 1;
                assert(ext@ =~= name@.subrange(k + 1, j as int));
            }
            assert(ext@ =~= name@.skip(k + 1));
            (stem, Some(ext))
        },
        _ => {
            let mut stem: Vec<char> = Vec::new();
            crate::text::push_all(&mut stem, name);
            assert(stem@ =~= name@);
            (stem, None)
        },
    }
}

proof fn lemma_lower_is_dot(c: char)
    ensures
        (ascii_lower(c) == '.') == (c == '.'),
{
}

proof fn lemma_last_dot_lowercase(name: Seq<char>)
    ensures
        last_dot(ascii_lowercase(name)) == last_dot(name),
    decreases name.len(),
{
    if name.len() > 0 {
        lemma_lower_is_dot(name.last());
        assert(ascii_lowercase(name).drop_last() =~= ascii_lowercase(name.drop_last()));
        lemma_last_dot_lowercase(name.drop_last());
    }
}

/// Lower-casing a file name lower-cases its extension and nothing else
/// about how it splits.
proof fn lemma_extension_lowercase(name: Seq<char>)
    ensures
        extension(ascii_lowercase(name)) == match extension(name) {
            Some(e) => Some(ascii_lowercase(e)),
            None => None,
        },
{
    let lower = ascii_lowercase(name);
    lemma_last_dot_lowercase(name);
    if name =~= seq!['.', '.'] {
        lemma_lower_is_dot('.');
        assert(lower =~= seq!['.', '.']);
    }
    if lower =~= seq!['.', '.'] {
        lemma_lower_is_dot(name[0]);
        lemma_lower_is_dot(name[1]);
        assert(name =~= seq!['.', '.']);
    }
    lemma_last_dot_range(name);
    if !has_no_extension(name) {
        assert(lower.skip(last_dot(name) + 1) =~= ascii_lowercase(name.skip(last_dot(name) + 1)));
    }
}

proof fn lemma_lowercase_idempotent(s: Seq<char>)
    ensures
        ascii_lowercase(ascii_lowercase(s)) == ascii_lowercase(s),
{
    assert(ascii_lowercase(ascii_lowercase(s)) =~= ascii_lowercase(s));
}

// ---------------------------------------------------------------------
// Media kinds
// ---------------------------------------------------------------------

/// The lower-case extensions of the photo and video formats handled.
pub open spec fn is_media_extension(e: Seq<char>) -> bool {
    ||| e == "jpg"@
    ||| e == "jpeg"@
    ||| e == "png"@
    ||| e == "heic"@
    ||| e == "heif"@
    ||| e == "gif"@
    ||| e == "tif"@
    ||| e == "tiff"@
    ||| e == "bmp"@
    ||| e == "webp"@
    ||| e == "raw"@
    ||| e == "cr2"@
    ||| e == "cr3"@
    ||| e == "nef"@
    ||| e == "nrw"@
    ||| e == "arw"@
    ||| e == "dng"@
    ||| e == "mp4"@
    ||| e == "mov"@
    ||| e == "m4v"@
    ||| e == "avi"@
    ||| e == "mkv"@
    ||| e == "mts"@
    ||| e == "3gp"@
}

/// The lower-case extensions of the video formats that use the QuickTime
/// box structure.
pub open spec fn is_quicktime_extension(e: Seq<char>) -> bool {
    e == "mp4"@ || e == "mov"@ || e == "m4v"@ || e == "3gp"@
}

/// Whether a file with this name is a photo or video, judged by its
/// extension without regard to ASCII case.
pub open spec fn spec_is_media_file(name: Seq<char>) -> bool {
    match extension(name) {
        Some(e) => is_media_extension(ascii_lowercase(e)),
        None => false,
    }
}

/// Whether a file with this name is a QuickTime-structured video.
pub open spec fn spec_is_quicktime_video(name: Seq<char>) -> bool {
    match extension(name) {
        Some(e) => is_quicktime_extension(ascii_lowercase(e)),
        None => false,
    }
}

/// Whether a file is a photo or video does not depend on the ASCII case of
/// its name: `IMG_0001.JPG` is handled as `img_0001.jpg` is.
pub proof fn lemma_media_kind_ignores_ascii_case(name: Seq<char>)
    ensures
        spec_is_media_file(ascii_lowercase(name)) == spec_is_media_file(name),
        spec_is_quicktime_video(ascii_lowercase(name)) == spec_is_quicktime_video(name),
{
    lemma_extension_lowercase(name);
    if let Some(e) = extension(name) {
        lemma_lowercase_idempotent(e);
    }
}

/// The photo and video formats handled, by name: a file is one exactly
/// when its name has an extension that, in ASCII lower case, is one of
/// jpg jpeg png heic heif gif tif tiff bmp webp raw cr2 cr3 nef nrw arw
/// dng mp4 mov m4v avi mkv mts 3gp. Any other extension (such as the
/// `.xmp` sidecar written next to a RAW photo) and a name without one are
/// not.
pub proof fn lemma_media_extensions_listed(name: Seq<char>)
    ensures
        spec_is_media_file(name) <==> (extension(name) matches Some(e) && seq![
            "jpg"@, "jpeg"@, "png"@, "heic"@, "heif"@, "gif"@, "tif"@, "tiff"@,
            "bmp"@, "webp"@, "raw"@, "cr2"@, "cr3"@, "nef"@, "nrw"@, "arw"@,
            "dng"@, "mp4"@, "mov"@, "m4v"@, "avi"@, "mkv"@, "mts"@, "3gp"@,
        ].contains(ascii_lowercase(e))),
{
    let list = seq![
        "jpg"@, "jpeg"@, "png"@, "heic"@, "heif"@, "gif"@, "tif"@, "tiff"@,
        "bmp"@, "webp"@, "raw"@, "cr2"@, "cr3"@, "nef"@, "nrw"@, "arw"@,
        "dng"@, "mp4"@, "mov"@, "m4v"@, "avi"@, "mkv"@, "mts"@, "3gp"@,
    ];
    if let Some(e) = extension(name) {
        let l = ascii_lowercase(e);
        assert(is_media_extension(l) <==> exists|k: int| 0 <= k < 24 && #[trigger] list[k] == l) by {
            assert(list[0] == "jpg"@);
            assert(list[1] == "jpeg"@);
            assert(list[2] == "png"@);
            assert(list[3] == "heic"@);
            assert(list[4] == "heif"@);
            assert(list[5] == "gif"@);
            assert(list[6] == "tif"@);
            assert(list[7] == "tiff"@);
            assert(list[8] == "bmp"@);
            assert(list[9] == "webp"@);
            assert(list[10] == "raw"@);
            assert(list[11] == "cr2"@);
            assert(list[12] == "cr3"@);
            assert(list[13] == "nef"@);
            assert(list[14] == "nrw"@);
            assert(list[15] == "arw"@);
            assert(list[16] == "dng"@);
            assert(list[17] == "mp4"@);
            assert(list[18] == "mov"@);
            assert(list[19] == "m4v"@);
            assert(list[20] == "avi"@);
            assert(list[21] == "mkv"@);
            assert(list[22] == "mts"@);
            assert(list[23] == "3gp"@);
        }
    }
}

fn media_extension(e: &[char]) -> (r: bool)
    ensures
        r == is_media_extension(e@),
{
    is_text(e, "jpg") || is_text(e, "jpeg") || is_text(e, "png") || is_text(e, "heic")
        || is_text(e, "heif") || is_text(e, "gif") || is_text(e, "tif") || is_text(e, "tiff")
        || is_text(e, "bmp") || is_text(e, "webp") || is_text(e, "raw") || is_text(e, "cr2")
        || is_text(e, "cr3") || is_text(e, "nef") || is_text(e, "nrw") || is_text(e, "arw")
        || is_text(e, "dng") || is_text(e, "mp4") || is_text(e, "mov") || is_text(e, "m4v")
        || is_text(e, "avi") || is_text(e, "mkv") || is_text(e, "mts") || is_text(e, "3gp")
}

fn quicktime_extension(e: &[char]) -> (r: bool)
    ensures
        r == is_quicktime_extension(e@),
{
    is_text(e, "mp4") || is_text(e, "mov") || is_text(e, "m4v") || is_text(e, "3gp")
}

/// Whether the file with this name is a photo or video.
pub fn is_media_file(file_name: &str) -> (r: bool)
    ensures
        r == spec_is_media_file(file_name@),
{
    let name = chars_of(file_name);
    let (_stem, ext) = split_file_name(&name);
    match ext {
        Some(e) => {
            let lower = to_ascii_lowercase(&e);
            media_extension(&lower)
        },
        None => false,
    }
}

/// Whether the file with this name is an MP4, MOV, M4V or 3GP video.
pub fn is_quicktime_compatible_video(file_name: &str) -> (r: bool)
    ensures
        r == spec_is_quicktime_video(file_name@),
{
    let name = chars_of(file_name);
    let (_stem, ext) = split_file_name(&name);
    match ext {
        Some(e) => {
            let lower = to_ascii_lowercase(&e);
            quicktime_extension(&lower)
        },
        None => false,
    }
}


// ---------------------------------------------------------------------
// Calendar arithmetic and text parsing, both done by chrono
// ---------------------------------------------------------------------

/// What `chrono::NaiveDateTime::parse_from_str(text, fmt)` yields for the
/// given text and format, with the result's fields read back.
pub uninterp spec fn chrono_parse_datetime(text: Seq<char>, fmt: Seq<char>) -> Option<MediaDateTime>;

/// What chrono yields when `secs` seconds are added to the date-time `base`:
/// `NaiveDate::from_ymd_opt`, `and_hms_opt`, `TimeDelta::try_seconds` and
/// `NaiveDateTime::checked_add_signed`, with the result's fields read back.
pub uninterp spec fn chrono_add_seconds(base: MediaDateTime, secs: int) -> Option<MediaDateTime>;

/// Parses `text` against the strftime-style format `fmt`.
///
/// Calls `chrono::NaiveDateTime::parse_from_str` and reads the fields of
/// the result with the `Datelike` and `Timelike` accessors. The result is a
/// function of the two strings alone and carries the name
/// `chrono_parse_datetime`; the one further claim is that a parsed value is
/// a valid calendar date-time, which every `NaiveDateTime` is (chrono keeps
/// a leap second in the nanoseconds, so `second()` stays below 60).
#[verifier::external_body]
fn parse_datetime(text: &str, fmt: &str) -> (r: Option<MediaDateTime>)
    ensures
        r == chrono_parse_datetime(text@, fmt@),
        r matches Some(d) ==> d.is_valid(),
{
    let dt = chrono::NaiveDateTime::parse_from_str(text, fmt).ok()?;
    Some(MediaDateTime {
        year: dt.year(),
        month: dt.month(),
        day: dt.day(),
        hour: dt.hour(),
        minute: dt.minute(),
        second: dt.second(),
    })
}

/// The first second that chrono can represent: the start of 1 January of
/// the year -262143 (262144 BCE), `NaiveDate::MIN`.
pub open spec fn chrono_first_instant() -> int {
    days_before_year(-262143) * 86400
}

/// The last second that chrono can represent: 23:59:59 on 31 December of
/// the year 262142, the end of `NaiveDate::MAX`.
pub open spec fn chrono_last_instant() -> int {
    days_before_year(262143) * 86400 - 1
}

/// Adds `secs` seconds to the date-time `base`.
///
/// Builds a `chrono::NaiveDateTime` from the fields of `base`
/// (`NaiveDate::from_ymd_opt`, `and_hms_opt`), turns `secs` into a
/// `TimeDelta` with `TimeDelta::try_seconds` and adds it with
/// `checked_add_signed`. The result is a function of the arguments alone
/// and carries the name `chrono_add_seconds`. chrono counts in the
/// proleptic Gregorian calendar over the years -262143 to 262142, and each
/// of these calls gives `None` only for an invalid field, a year outside
/// that span, a `TimeDelta` beyond about 292 million years, or a sum
/// outside that span. So a value comes back exactly when `base` is a valid
/// date-time inside chrono's years and the sum lies between
/// `chrono_first_instant` and `chrono_last_instant` (a span far shorter
/// than the `TimeDelta` limit), and it is then the valid date-time `secs`
/// seconds after `base`.
#[verifier::external_body]
fn add_seconds(base: MediaDateTime, secs: i64) -> (r: Option<MediaDateTime>)
    ensures
        r == chrono_add_seconds(base, secs as int),
        r matches Some(d) ==> d.is_valid() && d.instant() == base.instant() + secs,
        r is Some <==> (base.is_valid() && -262143 <= base.year <= 262142 && chrono_first_instant()
            <= base.instant() + secs <= chrono_last_instant()),
{
    let start = chrono::NaiveDate::from_ymd_opt(base.year, base.month, base.day)?
        .and_hms_opt(base.hour, base.minute, base.second)?;
    let dt = start.checked_add_signed(chrono::TimeDelta::try_seconds(secs)?)?;
    Some(MediaDateTime {
        year: dt.year(),
        month: dt.month(),
        day: dt.day(),
        hour: dt.hour(),
        minute: dt.minute(),
        second: dt.second(),
    })
}

// ---------------------------------------------------------------------
// EXIF
// ---------------------------------------------------------------------

/// The EXIF date attributes consulted, in the order they are tried.
#[derive(Clone, Copy, Debug, PartialEq, Eq, Structural)]
pub enum ExifDateTag {
    /// When the picture was taken.
    DateTimeOriginal,
    /// When the picture was stored as digital data.
    DateTimeDigitized,
    /// When the file was last changed.
    DateTime,
}

/// The first string of the ASCII value of `tag` in the primary image of the
/// EXIF data of the image container `data`, as the `exif` crate reads it
/// (bytes taken as UTF-8, invalid sequences replaced); `None` where the
/// container cannot be read, the field is absent or its value is not ASCII.
pub uninterp spec fn exif_ascii_field(data: Seq<u8>, tag: ExifDateTag) -> Option<Seq<char>>;

/// Reads one EXIF date attribute out of an image file's bytes.
///
/// Calls `exif::Reader::read_from_container` on the bytes (TIFF and RAW
/// formats based on it, JPEG, HEIF, PNG and WebP are recognised), then
/// `Exif::get_field` for the tag in `In::PRIMARY`, and takes the first
/// string of an `exif::Value::Ascii` value. The result is a function of the
/// bytes and the tag alone and carries the name `exif_ascii_field`; nothing
/// more is claimed of it.
#[verifier::external_body]
fn read_exif_ascii(data: &[u8], tag: ExifDateTag) -> (r: Option<String>)
    ensures
        match r {
            Some(s) => exif_ascii_field(data@, tag) == Some(s@),
            None => exif_ascii_field(data@, tag) is None,
        },
{
    let tag = match tag {
        ExifDateTag::DateTimeOriginal => exif::Tag::DateTimeOriginal,
        ExifDateTag::DateTimeDigitized => exif::Tag::DateTimeDigitized,
        ExifDateTag::DateTime => exif::Tag::DateTime,
    };
    let exif = exif::Reader::new().read_from_container(&mut std::io::Cursor::new(data)).ok()?;
    match &exif.get_field(tag, exif::In::PRIMARY)?.value {
        exif::Value::Ascii(strings) => strings.first().map(|b| String::from_utf8_lossy(b).into_owned()),
        _ => None,
    }
}

/// The characters of `s` up to, not including, its first NUL.
pub open spec fn before_nul(s: Seq<char>) -> Seq<char>
    decreases s.len(),
{
    if s.len() == 0 {
        s
    } else if s[0] == '\0' {
        Seq::empty()
    } else {
        seq![s[0]] + before_nul(s.drop_first())
    }
}

proof fn lemma_before_nul_take(s: Seq<char>, i: int)
    requires
        0 <= i <= s.len(),
        forall|j: int| 0 <= j < i ==> #[trigger] s[j] != '\0',
        i == s.len() || s[i] == '\0',
    ensures
        before_nul(s) == s.take(i),
    decreases s.len(),
{
    if s.len() == 0 {
        assert(s.take(i) =~= s);
    } else if i == 0 {
        assert(s.take(0) =~= Seq::<char>::empty());
    } else {
        lemma_before_nul_take(s.drop_first(), i - 1);
        assert(s.take(i) =~= seq![s[0]] + s.drop_first().take(i - 1));
    }
}

fn take_before_nul(s: &[char]) -> (r: Vec<char>)
    ensures
        r@ == before_nul(s@),
{
    let mut r: Vec<char> = Vec::new();
    let mut i: usize = 0;
    while i < s.len() && s[i] != '\0'
        invariant
            i <= s@.len(),
            r@ == s@.take(i as int),
            forall|j: int| 0 <= j < i ==> #[trigger] s@[j] != '\0',
        decreases s@.len() - i,
    {
        r.push(s[i]);
        i += 1;
        assert(r@ =~= s@.take(i as int));
    }
    proof {
        lemma_before_nul_take(s@, i as int);
    }
    r
}

/// The strftime-style format of an EXIF date-time value.
pub open spec fn exif_datetime_format() -> Seq<char> {
    "%Y:%m:%d %H:%M:%S"@
}

/// The part of a raw EXIF value that is parsed as a date: trimmed, cut at
/// the first NUL, trimmed again.
pub open spec fn exif_datetime_text(raw: Seq<char>) -> Seq<char> {
    trim(before_nul(trim(raw)))
}

/// The date-time written in a raw EXIF value `YYYY:MM:DD HH:MM:SS`.
pub open spec fn spec_parse_exif_datetime(raw: Seq<char>) -> Option<MediaDateTime> {
    chrono_parse_datetime(exif_datetime_text(raw), exif_datetime_format())
}

/// Parses an EXIF date-time value such as `2021:03:04 05:06:07`.
pub fn parse_exif_datetime(s: &str) -> (r: Option<MediaDateTime>)
    ensures
        r == spec_parse_exif_datetime(s@),
        r matches Some(d) ==> d.is_valid(),
{
    let cs = chars_of(s);
    let outer = trimmed(&cs);
    let first = take_before_nul(&outer);
    let value = trimmed(&first);
    let text = string_of(&value);
    parse_datetime(text.as_str(), "%Y:%m:%d %H:%M:%S")
}

/// The date read from one EXIF attribute, if present and parseable.
pub open spec fn exif_tag_date(data: Seq<u8>, tag: ExifDateTag) -> Option<MediaDateTime> {
    match exif_ascii_field(data, tag) {
        Some(raw) => spec_parse_exif_datetime(raw),
        None => None,
    }
}

/// The EXIF capture date of an image: the original date-time, else the
/// digitised one, else the file date-time.
pub open spec fn spec_exif_date(data: Seq<u8>) -> Option<MediaDateTime> {
    match exif_tag_date(data, ExifDateTag::DateTimeOriginal) {
        Some(d) => Some(d),
        None => match exif_tag_date(data, ExifDateTag::DateTimeDigitized) {
            Some(d) => Some(d),
            None => exif_tag_date(data, ExifDateTag::DateTime),
        },
    }
}

/// The EXIF capture date comes from the first of DateTimeOriginal,
/// DateTimeDigitized and DateTime that gives a date: a later attribute
/// counts only where every earlier one gives none, whatever it holds. So a
/// scanned photo edited later is dated by its digitising, not its edit.
pub proof fn lemma_exif_attribute_order(data: Seq<u8>)
    ensures
        exif_tag_date(data, ExifDateTag::DateTimeOriginal) matches Some(d) ==> spec_exif_date(data)
            == Some(d),
        forall|d: MediaDateTime|
            exif_tag_date(data, ExifDateTag::DateTimeOriginal) is None && #[trigger] exif_tag_date(
                data,
                ExifDateTag::DateTimeDigitized,
            ) == Some(d) ==> spec_exif_date(data) == Some(d),
        exif_tag_date(data, ExifDateTag::DateTimeOriginal) is None && exif_tag_date(
            data,
            ExifDateTag::DateTimeDigitized,
        ) is None ==> spec_exif_date(data) == exif_tag_date(data, ExifDateTag::DateTime),
{
}

fn exif_tag_datetime(data: &[u8], tag: ExifDateTag) -> (r: Option<MediaDateTime>)
    ensures
        r == exif_tag_date(data@, tag),
{
    match read_exif_ascii(data, tag) {
        Some(raw) => parse_exif_datetime(raw.as_str()),
        None => None,
    }
}

/// The EXIF capture date of the image whose file holds `data`.
pub fn detect_exif_date(data: &[u8]) -> (r: Option<MediaDateTime>)
    ensures
        r == spec_exif_date(data@),
{
    if let Some(d) = exif_tag_datetime(data, ExifDateTag::DateTimeOriginal) {
        return Some(d);
    }
    if let Some(d) = exif_tag_datetime(data, ExifDateTag::DateTimeDigitized) {
        return Some(d);
    }
    exif_tag_datetime(data, ExifDateTag::DateTime)
}

// ---------------------------------------------------------------------
// QuickTime / MP4 boxes
// ---------------------------------------------------------------------

/// The big-endian 32-bit number at `o`.
pub open spec fn be32(d: Seq<u8>, o: int) -> int {
    d[o] * 0x1000000 + d[o + 1] * 0x10000 + d[o + 2] * 0x100 + d[o + 3]
}

/// The big-endian 64-bit number at `o`.
pub open spec fn be64(d: Seq<u8>, o: int) -> int {
    be32(d, o) * 0x1_0000_0000 + be32(d, o + 4)
}

/// A four-character box type as bytes.
pub open spec fn fourcc(a: char, b: char, c: char, e: char) -> Seq<u8> {
    seq![a as u8, b as u8, c as u8, e as u8]
}

/// Box types that carry a creation time: the movie and media headers.
pub open spec fn is_time_box(kind: Seq<u8>) -> bool {
    kind == fourcc('m', 'v', 'h', 'd') || kind == fourcc('m', 'd', 'h', 'd')
}

/// Box types whose payload is a sequence of boxes that is searched.
pub open spec fn is_container_box(kind: Seq<u8>) -> bool {
    ||| kind == fourcc('m', 'o', 'o', 'v')
    ||| kind == fourcc('t', 'r', 'a', 'k')
    ||| kind == fourcc('m', 'd', 'i', 'a')
    ||| kind == fourcc('m', 'i', 'n', 'f')
    ||| kind == fourcc('s', 't', 'b', 'l')
    ||| kind == fourcc('e', 'd', 't', 's')
    ||| kind == fourcc('u', 'd', 't', 'a')
    ||| kind == fourcc('m', 'e', 't', 'a')
}

/// QuickTime counts seconds from the start of 1904.
pub open spec fn quicktime_epoch() -> MediaDateTime {
    MediaDateTime { year: 1904, month: 1, day: 1, hour: 0, minute: 0, second: 0 }
}

/// The date-time `secs` seconds after the QuickTime epoch, where the count
/// fits a signed 64-bit number.
pub open spec fn spec_qt_seconds_to_datetime(secs: int) -> Option<MediaDateTime> {
    if secs > i64::MAX {
        None
    } else {
        chrono_add_seconds(quicktime_epoch(), secs)
    }
}

/// The creation time in the payload `[ps, pe)` of a movie or media header
/// box: after a version byte and three flag bytes, a 64-bit count of
/// seconds for version 1, a 32-bit count otherwise. `None` where the
/// payload is too short or runs past the data.
pub open spec fn qt_fullbox_time(d: Seq<u8>, ps: int, pe: int) -> Option<MediaDateTime> {
    if pe - ps < 8 || ps + 4 > d.len() {
        None
    } else if d[ps] == 1 {
        if pe - ps < 20 || ps + 12 > d.len() {
            None
        } else {
            spec_qt_seconds_to_datetime(be64(d, ps + 4))
        }
    } else if ps + 8 > d.len() {
        None
    } else {
        spec_qt_seconds_to_datetime(be32(d, ps + 4))
    }
}

/// The first creation time found among the boxes that start at `cursor`
/// and lie within `[cursor, end)`, at nesting depth `depth`: a header box
/// gives its time; a container box is searched (a `meta` box after its
/// four version and flag bytes) one level deeper, at most eight levels
/// deep; other boxes are passed over. A box header that runs past the
/// data, or a box size below its header size or past `end`, ends the
/// search at that level.
pub open spec fn qt_scan(d: Seq<u8>, cursor: int, end: int, depth: int) -> Option<MediaDateTime>
    decreases 9 - depth, end - cursor,
{
    if depth > 8 || depth < 0 || cursor >= end || cursor < 0 || cursor + 8 > end || cursor + 8 > d.len() {
        None
    } else {
        let size32 = be32(d, cursor);
        let kind = d.subrange(cursor + 4, cursor + 8);
        if size32 == 1 && cursor + 16 > d.len() {
            None
        } else {
            let header: int = if size32 == 1 { 16 } else { 8 };
            let size: int = if size32 == 1 {
                be64(d, cursor + 8)
            } else if size32 == 0 {
                end - cursor
            } else {
                size32
            };
            if size < header || cursor + size > end {
                None
            } else {
                let ps = cursor + header;
                let pe = cursor + size;
                let found = if is_time_box(kind) {
                    qt_fullbox_time(d, ps, pe)
                } else if is_container_box(kind) {
                    if kind == fourcc('m', 'e', 't', 'a') && pe - ps >= 4 {
                        qt_scan(d, ps + 4, pe, depth + 1)
                    } else {
                        qt_scan(d, ps, pe, depth + 1)
                    }
                } else {
                    None
                };
                match found {
                    Some(t) => Some(t),
                    None => qt_scan(d, pe, end, depth),
                }
            }
        }
    }
}

/// Whether `n` bytes starting at `off` lie within data of length `len`.
fn fits(len: usize, off: u64, n: u64) -> (b: bool)
    ensures
        b == (off + n <= len),
{
    let l = len as u64;
    off <= l && l - off >= n
}

fn read_be_u32(data: &[u8], off: usize) -> (r: u32)
    requires
        off + 4 <= data@.len(),
    ensures
        r as int == be32(data@, off as int),
{
    (data[off] as u32) * 0x1000000 + (data[off + 1] as u32) * 0x10000 + (data[off + 2] as u32) * 0x100
        + (data[off + 3] as u32)
}

fn read_be_u64(data: &[u8], off: usize) -> (r: u64)
    requires
        off + 8 <= data@.len(),
    ensures
        r as int == be64(data@, off as int),
{
    let hi = read_be_u32(data, off);
    assert(off + 4 <= data.len());
    let lo = read_be_u32(data, off + 4);
    (hi as u64) * 0x1_0000_0000 + (lo as u64)
}

fn kind_is(kind: &[u8; 4], a: char, b: char, c: char, e: char) -> (r: bool)
    ensures
        r == (kind@ == fourcc(a, b, c, e)),
{
    let r = kind[0] == a as u8 && kind[1] == b as u8 && kind[2] == c as u8 && kind[3] == e as u8;
    if r {
        assert(kind@ =~= fourcc(a, b, c, e));
    }
    r
}

/// Whether boxes of this type hold further boxes that are searched.
pub fn is_qt_container(kind: [u8; 4]) -> (r: bool)
    ensures
        r == is_container_box(kind@),
{
    kind_is(&kind, 'm', 'o', 'o', 'v') || kind_is(&kind, 't', 'r', 'a', 'k') || kind_is(&kind, 'm', 'd', 'i', 'a')
        || kind_is(&kind, 'm', 'i', 'n', 'f') || kind_is(&kind, 's', 't', 'b', 'l')
        || kind_is(&kind, 'e', 'd', 't', 's') || kind_is(&kind, 'u', 'd', 't', 'a')
        || kind_is(&kind, 'm', 'e', 't', 'a')
}

/// The date-time that lies `seconds_since_1904` seconds after the start of
/// 1904.
pub fn qt_seconds_to_naive_datetime(seconds_since_1904: u64) -> (r: Option<MediaDateTime>)
    ensures
        r == spec_qt_seconds_to_datetime(seconds_since_1904 as int),
        r matches Some(d) ==> d.is_valid() && d.instant() == quicktime_epoch().instant() + seconds_since_1904,
        r is Some <==> quicktime_epoch().instant() + seconds_since_1904 <= chrono_last_instant(),
{
    if seconds_since_1904 > i64::MAX as u64 {
        return None;
    }
    let epoch = MediaDateTime { year: 1904, month: 1, day: 1, hour: 0, minute: 0, second: 0 };
    add_seconds(epoch, seconds_since_1904 as i64)
}

/// The creation time in the payload `[payload_start, payload_end)` of a
/// movie or media header box.
pub fn parse_qt_fullbox_creation_time(data: &[u8], payload_start: u64, payload_end: u64) -> (r: Option<
    MediaDateTime,
>)
    ensures
        r == qt_fullbox_time(data@, payload_start as int, payload_end as int),
{
    if payload_end < payload_start || payload_end - payload_start < 8 {
        return None;
    }
    if !fits(data.len(), payload_start, 4) {
        return None;
    }
    let ps = payload_start as usize;
    let version = data[ps];
    if version == 1 {
        if payload_end - payload_start < 20 || !fits(data.len(), payload_start, 12) {
            return None;
        }
        let secs = read_be_u64(data, ps + 4);
        qt_seconds_to_naive_datetime(secs)
    } else {
        if !fits(data.len(), payload_start, 8) {
            return None;
        }
        let secs = read_be_u32(data, ps + 4);
        qt_seconds_to_naive_datetime(secs as u64)
    }
}

/// The first creation time among the boxes in `[start, end)` of the file
/// contents `data`, searched at nesting depth `depth`.
pub fn find_qt_creation_time(data: &[u8], start: u64, end: u64, depth: usize) -> (r: Option<MediaDateTime>)
    ensures
        r == qt_scan(data@, start as int, end as int, depth as int),
    decreases 9 - depth, end - start,
{
    if depth > 8 || start >= end {
        return None;
    }
    let mut cursor: u64 = start;
    while end - cursor >= 8
        invariant
            depth <= 8,
            start <= cursor <= end,
            qt_scan(data@, cursor as int, end as int, depth as int) == qt_scan(
                data@,
                start as int,
                end as int,
                depth as int,
            ),
        decreases end - cursor,
    {
        if !fits(data.len(), cursor, 8) {
            return None;
        }
        let at = cursor as usize;
        let size32 = read_be_u32(data, at);
        let kind: [u8; 4] = [data[at + 4], data[at + 5], data[at + 6], data[at + 7]];
        assert(kind@ =~= data@.subrange(cursor + 4, cursor + 8));
        let mut atom_size: u64 = size32 as u64;
        let mut header_size: u64 = 8;
        if size32 == 1 {
            if !fits(data.len(), cursor, 16) {
                return None;
            }
            atom_size = read_be_u64(data, at + 8);
            header_size = 16;
        } else if size32 == 0 {
            atom_size = end - cursor;
        }
        if atom_size < header_size || atom_size > end - cursor {
            return None;
        }
        let payload_start = cursor + header_size;
        let payload_end = cursor + atom_size;
        if kind_is(&kind, 'm', 'v', 'h', 'd') || kind_is(&kind, 'm', 'd', 'h', 'd') {
            if let Some(dt) = parse_qt_fullbox_creation_time(data, payload_start, payload_end) {
                return Some(dt);
            }
        } else if is_qt_container(kind) {
            let nested = if kind_is(&kind, 'm', 'e', 't', 'a') && payload_end - payload_start >= 4 {
                find_qt_creation_time(data, payload_start + 4, payload_end, depth + 1)
            } else {
                find_qt_creation_time(data, payload_start, payload_end, depth + 1)
            };
            if let Some(dt) = nested {
                return Some(dt);
            }
        }
        cursor = payload_end;
    }
    None
}

/// The creation time in the movie or media header of a QuickTime/MP4 file
/// whose contents are `data`.
pub fn parse_quicktime_creation_time(data: &[u8]) -> (r: Option<MediaDateTime>)
    ensures
        r == qt_scan(data@, 0, data@.len() as int, 0),
{
    find_qt_creation_time(data, 0, data.len() as u64, 0)
}

// ---------------------------------------------------------------------
// Choosing a date
// ---------------------------------------------------------------------

/// The date in the metadata of the file named `name` with contents `data`:
/// its EXIF date, else, for a QuickTime-structured video, the creation
/// time in its movie or media header.
pub open spec fn spec_metadata_date(name: Seq<char>, data: Seq<u8>) -> Option<MediaDateTime> {
    match spec_exif_date(data) {
        Some(d) => Some(d),
        None => if spec_is_quicktime_video(name) {
            qt_scan(data, 0, data.len() as int, 0)
        } else {
            None
        },
    }
}

/// The creation time of a QuickTime-structured video; `None` for any other
/// file.
pub fn detect_video_metadata_date(file_name: &str, data: &[u8]) -> (r: Option<MediaDateTime>)
    ensures
        r == (if spec_is_quicktime_video(file_name@) {
            qt_scan(data@, 0, data@.len() as int, 0)
        } else {
            None
        }),
{
    if !is_quicktime_compatible_video(file_name) {
        return None;
    }
    parse_quicktime_creation_time(data)
}

/// The metadata date of the file named `file_name` whose contents are
/// `data`.
pub fn detect_media_metadata_date(file_name: &str, data: &[u8]) -> (r: Option<MediaDateTime>)
    ensures
        r == spec_metadata_date(file_name@, data@),
{
    match detect_exif_date(data) {
        Some(d) => Some(d),
        None => detect_video_metadata_date(file_name, data),
    }
}

/// The date a file is filed under, given what each source yields for it:
/// `Auto` takes the metadata date, else the creation time, else the
/// modification time; each other source takes its own value only.
pub open spec fn spec_detect_date(
    source: TimeSource,
    metadata: Option<MediaDateTime>,
    created: Option<MediaDateTime>,
    modified: Option<MediaDateTime>,
) -> Option<MediaDateTime> {
    match source {
        TimeSource::Auto => match metadata {
            Some(d) => Some(d),
            None => match created {
                Some(d) => Some(d),
                None => modified,
            },
        },
        TimeSource::Exif => metadata,
        TimeSource::Created => created,
        TimeSource::Modified => modified,
    }
}

/// The date a file is filed under, from what the metadata, the creation
/// time and the modification time yield for it.
pub fn detect_date_by_source(
    source: TimeSource,
    metadata: Option<MediaDateTime>,
    created: Option<MediaDateTime>,
    modified: Option<MediaDateTime>,
) -> (r: Option<MediaDateTime>)
    ensures
        r == spec_detect_date(source, metadata, created, modified),
{
    match source {
        TimeSource::Auto => match metadata {
            Some(d) => Some(d),
            None => match created {
                Some(d) => Some(d),
                None => modified,
            },
        },
        TimeSource::Exif => metadata,
        TimeSource::Created => created,
        TimeSource::Modified => modified,
    }
}

} // verus!
