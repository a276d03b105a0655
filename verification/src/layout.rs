//! Where a file goes: the dated directory that a template gives, and the
//! candidate names tried until one is free.
use vstd::prelude::*;

use crate::media_time::{extension, file_stem, split_file_name};
use crate::text::{
    chars_of, decimal, push_all, push_decimal, push_signed_zero_padded, push_str, push_zero_padded,
    replace_all, replaced, signed_zero_padded, string_of, trim, trimmed, zero_padded, digit,
};
use crate::types::MediaDateTime;

verus! {

/// The template placeholders filled in with the date.
pub open spec fn year_placeholder() -> Seq<char> {
    "{YYYY}"@
}

pub open spec fn month_placeholder() -> Seq<char> {
    "{MM}"@
}

pub open spec fn day_placeholder() -> Seq<char> {
    "{DD}"@
}

/// The template with `{YYYY}` replaced by the year (at least four digits),
/// then `{MM}` by the month and `{DD}` by the day (at least two digits).
pub open spec fn fill_template(template: Seq<char>, date: MediaDateTime) -> Seq<char> {
    let y = replace_all(template, year_placeholder(), signed_zero_padded(date.year as int, 4));
    let m = replace_all(y, month_placeholder(), zero_padded(date.month as nat, 2));
    replace_all(m, day_placeholder(), zero_padded(date.day as nat, 2))
}

/// The path rules of the platform a run happens on, as std's `Path`
/// applies them.
#[derive(Clone, Copy, Debug, PartialEq, Eq, Structural)]
pub enum PathStyle {
    /// `/` separates components; a path beginning with `/` is absolute.
    Unix,
    /// `/` and `\` both separate components; a path may begin with a
    /// prefix such as a drive `C:` or a `\\server\share`.
    Windows,
}

/// Whether `c` separates path components.
pub open spec fn is_separator(style: PathStyle, c: char) -> bool {
    c == '/' || (style == PathStyle::Windows && c == '\\')
}

/// The separator `Path::push` puts between two parts.
pub open spec fn main_separator(style: PathStyle) -> char {
    if style == PathStyle::Windows { '\\' } else { '/' }
}

/// Whether the path is a bare drive such as `C:` or begins with one
/// (Windows only).
pub open spec fn has_drive_prefix(style: PathStyle, p: Seq<char>) -> bool {
    &&& style == PathStyle::Windows
    &&& p.len() >= 2
    &&& (('A' <= p[0] && p[0] <= 'Z') || ('a' <= p[0] && p[0] <= 'z'))
    &&& p[1] == ':'
}

/// Whether the path is a bare drive `C:`.
pub open spec fn is_bare_drive(style: PathStyle, p: Seq<char>) -> bool {
    has_drive_prefix(style, p) && p.len() == 2
}

/// `p` joined below `base` as `Path::join` does for a relative `p`: the
/// platform's separator is put between them unless `base` is empty, ends
/// in a separator, or is a bare drive.
pub open spec fn path_join(style: PathStyle, base: Seq<char>, p: Seq<char>) -> Seq<char> {
    if base.len() == 0 || is_separator(style, base.last()) || is_bare_drive(style, base) {
        base + p
    } else {
        base + seq![main_separator(style)] + p
    }
}

/// Whether the path begins with a separator, that is, at a root or (on
/// Windows, with two of them) at a `\\server\share` or device prefix.
pub open spec fn starts_with_separator(style: PathStyle, p: Seq<char>) -> bool {
    p.len() > 0 && is_separator(style, p[0])
}

/// Whether the path is absolute. On Unix: it begins at the root. On
/// Windows: it begins with a drive followed by a separator, or with two
/// separators (a server share or a device).
pub open spec fn is_absolute(style: PathStyle, p: Seq<char>) -> bool {
    match style {
        PathStyle::Unix => starts_with_separator(style, p),
        PathStyle::Windows => (has_drive_prefix(style, p) && p.len() >= 3 && is_separator(style, p[2]))
            || (p.len() >= 2 && is_separator(style, p[0]) && is_separator(style, p[1])),
    }
}

/// Whether the path begins with a `.` component, which `Path::components`
/// reports as the current directory.
pub open spec fn starts_with_cur_dir(style: PathStyle, p: Seq<char>) -> bool {
    p.len() > 0 && p[0] == '.' && (p.len() == 1 || is_separator(style, p[1]))
}

/// Whether a `..` component begins at `i`.
pub open spec fn parent_component_at(style: PathStyle, p: Seq<char>, i: int) -> bool {
    &&& 0 <= i
    &&& i + 2 <= p.len()
    &&& (i == 0 || is_separator(style, p[i - 1]))
    &&& p[i] == '.'
    &&& p[i + 1] == '.'
    &&& (i + 2 == p.len() || is_separator(style, p[i + 2]))
}

/// Whether the path has a `..` component.
pub open spec fn has_parent_component(style: PathStyle, p: Seq<char>) -> bool {
    exists|i: int| parent_component_at(style, p, i)
}

/// Whether every component of the path is a plain name, as
/// `Path::components` sees it: no prefix, no root, no leading `.`, no `..`
/// anywhere (interior `.` components are dropped and do no harm).
pub open spec fn only_normal_components(style: PathStyle, p: Seq<char>) -> bool {
    &&& !has_drive_prefix(style, p)
    &&& !starts_with_separator(style, p)
    &&& !starts_with_cur_dir(style, p)
    &&& !has_parent_component(style, p)
}

/// The error when the filled template is blank.
pub open spec fn err_empty_template() -> Seq<char> {
    "模板渲染后为空"@
}

/// The error when the filled template is an absolute path.
pub open spec fn err_absolute_template(rendered: Seq<char>) -> Seq<char> {
    "模板不能是绝对路径: "@ + rendered
}

/// The error when the filled template leaves the target directory.
pub open spec fn err_illegal_component(rendered: Seq<char>) -> Seq<char> {
    "模板包含非法路径片段: "@ + rendered
}

/// The directory for a file of the given date: the filled template below
/// the target root, or the reason it is refused.
pub open spec fn spec_render_date_template(
    style: PathStyle,
    target_root: Seq<char>,
    template: Seq<char>,
    date: MediaDateTime,
) -> Result<Seq<char>, Seq<char>> {
    let rendered = fill_template(template, date);
    if trim(rendered).len() == 0 {
        Err(err_empty_template())
    } else if is_absolute(style, rendered) {
        Err(err_absolute_template(rendered))
    } else if !only_normal_components(style, rendered) {
        Err(err_illegal_component(rendered))
    } else {
        Ok(path_join(style, target_root, rendered))
    }
}

fn separator(style: PathStyle, c: char) -> (b: bool)
    ensures
        b == is_separator(style, c),
{
    c == '/' || (style == PathStyle::Windows && c == '\\')
}

fn drive_prefix(style: PathStyle, p: &[char]) -> (b: bool)
    ensures
        b == has_drive_prefix(style, p@),
{
    style == PathStyle::Windows && p.len() >= 2 && (('A' <= p[0] && p[0] <= 'Z') || ('a' <= p[0]
        && p[0] <= 'z')) && p[1] == ':'
}

/// `p` joined below `base`.
pub fn join_path(style: PathStyle, base: &[char], p: &[char]) -> (r: Vec<char>)
    ensures
        r@ == path_join(style, base@, p@),
{
    let mut r: Vec<char> = Vec::new();
    push_all(&mut r, base);
    if base.len() > 0 && !separator(style, base[base.len() - 1]) && !(drive_prefix(style, base)
        && base.len() == 2) {
        r.push(if style == PathStyle::Windows { '\\' } else { '/' });
    }
    push_all(&mut r, p);
    r
}

fn absolute(style: PathStyle, p: &[char]) -> (b: bool)
    ensures
        b == is_absolute(style, p@),
{
    match style {
        PathStyle::Unix => p.len() > 0 && separator(style, p[0]),
        PathStyle::Windows => (drive_prefix(style, p) && p.len() >= 3 && separator(style, p[2])) || (
        p.len() >= 2 && separator(style, p[0]) && separator(style, p[1])),
    }
}

fn has_parent_at(style: PathStyle, p: &[char], i: usize) -> (b: bool)
    requires
        i < p@.len(),
    ensures
        b == parent_component_at(style, p@, i as int),
{
    p.len() - i >= 2 && (i == 0 || separator(style, p[i - 1])) && p[i] == '.' && p[i + 1] == '.' && (
    p.len() - i == 2 || separator(style, p[i + 2]))
}

fn normal_components(style: PathStyle, p: &[char]) -> (b: bool)
    ensures
        b == only_normal_components(style, p@),
{
    if drive_prefix(style, p) {
        return false;
    }
    if p.len() > 0 && separator(style, p[0]) {
        return false;
    }
    if p.len() > 0 && p[0] == '.' && (p.len() == 1 || separator(style, p[1])) {
        return false;
    }
    let mut i: usize = 0;
    while i < p.len()
        invariant
            i <= p@.len(),
            forall|j: int| 0 <= j < i ==> !parent_component_at(style, p@, j),
        decreases p@.len() - i,
    {
        if has_parent_at(style, p, i) {
            return false;
        }
        i += 1;
    }
    assert forall|j: int| !parent_component_at(style, p@, j) by {
        if 0 <= j < p@.len() {
        }
    }
    true
}

/// The template with the date filled in.
pub fn fill_date_template(template: &str, date: MediaDateTime) -> (r: Vec<char>)
    ensures
        r@ == fill_template(template@, date),
{
    proof {
        reveal_strlit("{YYYY}");
        reveal_strlit("{MM}");
        reveal_strlit("{DD}");
    }
    let t = chars_of(template);
    let mut year: Vec<char> = Vec::new();
    push_signed_zero_padded(&mut year, date.year, 4);
    let mut month: Vec<char> = Vec::new();
    push_zero_padded(&mut month, date.month as u64, 2);
    let mut day: Vec<char> = Vec::new();
    push_zero_padded(&mut day, date.day as u64, 2);
    assert(year@ =~= signed_zero_padded(date.year as int, 4));
    assert(month@ =~= zero_padded(date.month as nat, 2));
    assert(day@ =~= zero_padded(date.day as nat, 2));
    let ypat = chars_of("{YYYY}");
    let mpat = chars_of("{MM}");
    let dpat = chars_of("{DD}");
    let y = replaced(&t, &ypat, &year);
    let m = replaced(&y, &mpat, &month);
    replaced(&m, &dpat, &day)
}

/// The directory below `target_root` that a file of the given date goes
/// to, or why the template cannot give one.
pub fn render_date_template(style: PathStyle, target_root: &str, template: &str, date: MediaDateTime) -> (r: Result<
    String,
    String,
>)
    ensures
        match r {
            Ok(dir) => spec_render_date_template(style, target_root@, template@, date) == Ok::<
                Seq<char>,
                Seq<char>,
            >(dir@),
            Err(e) => spec_render_date_template(style, target_root@, template@, date) == Err::<
                Seq<char>,
                Seq<char>,
            >(e@),
        },
{
    let rendered = fill_date_template(template, date);
    let t = trimmed(&rendered);
    if t.len() == 0 {
        let e = chars_of("模板渲染后为空");
        return Err(string_of(&e));
    }
    if absolute(style, &rendered) {
        let mut e: Vec<char> = Vec::new();
        push_str(&mut e, "模板不能是绝对路径: ");
        push_all(&mut e, &rendered);
        return Err(string_of(&e));
    }
    if !normal_components(style, &rendered) {
        let mut e: Vec<char> = Vec::new();
        push_str(&mut e, "模板包含非法路径片段: ");
        push_all(&mut e, &rendered);
        return Err(string_of(&e));
    }
    let root = chars_of(target_root);
    let dir = join_path(style, &root, &rendered);
    Ok(string_of(&dir))
}

/// A directory the template gives lies below the target root: it is the
/// root joined with a relative, non-blank path made of plain names only,
/// so no template can lead outside the target.
pub proof fn lemma_day_dir_stays_below_target(
    style: PathStyle,
    target_root: Seq<char>,
    template: Seq<char>,
    date: MediaDateTime,
)
    ensures
        spec_render_date_template(style, target_root, template, date) matches Ok(dir) ==> exists|
            rel: Seq<char>,
        |
            {
                &&& dir == path_join(style, target_root, rel)
                &&& !is_absolute(style, rel)
                &&& only_normal_components(style, rel)
                &&& trim(rel).len() > 0
            },
{
    let rendered = fill_template(template, date);
    if spec_render_date_template(style, target_root, template, date) is Ok {
        assert(path_join(style, target_root, rendered) == path_join(style, target_root, rendered));
    }
}

// ---------------------------------------------------------------------
// How a template is filled in
// ---------------------------------------------------------------------

/// Whether `s` holds no `{`.
pub open spec fn brace_free(s: Seq<char>) -> bool {
    forall|i: int| 0 <= i < s.len() ==> s[i] != '{'
}

/// Whether every `{` of the template begins a `{YYYY}`, `{MM}` or `{DD}`
/// that lies wholly inside it.
pub open spec fn braces_only_in_placeholders(t: Seq<char>) -> bool {
    forall|i: int|
        0 <= i < t.len() && #[trigger] t[i] == '{' ==> {
            ||| (i + 6 <= t.len() && t.subrange(i, i + 6) == year_placeholder())
            ||| (i + 4 <= t.len() && t.subrange(i, i + 4) == month_placeholder())
            ||| (i + 4 <= t.len() && t.subrange(i, i + 4) == day_placeholder())
        }
}

/// Replacing leaves a prefix alone when none of its characters can begin
/// the pattern.
proof fn lemma_replace_passes_prefix(p: Seq<char>, x: Seq<char>, pat: Seq<char>, rep: Seq<char>)
    requires
        pat.len() > 0,
        forall|i: int| 0 <= i < p.len() ==> p[i] != pat[0],
    ensures
        replace_all(p + x, pat, rep) == p + replace_all(x, pat, rep),
    decreases p.len(),
{
    if p.len() == 0 {
        assert(p + x =~= x);
    } else {
        let s = p + x;
        if s.len() < pat.len() {
            assert(replace_all(x, pat, rep) == x);
        } else {
            assert(s.take(pat.len() as int)[0] != pat[0]);
            assert(s.drop_first() =~= p.drop_first() + x);
            lemma_replace_passes_prefix(p.drop_first(), x, pat, rep);
            assert(s =~= seq![p[0]] + s.drop_first());
            assert(p =~= seq![p[0]] + p.drop_first());
        }
    }
}

/// A `q` that differs from the pattern in its second character and has no
/// other character that begins the pattern is left alone.
proof fn lemma_replace_passes_other(q: Seq<char>, x: Seq<char>, pat: Seq<char>, rep: Seq<char>)
    requires
        pat.len() >= 2,
        q.len() >= 2,
        q[1] != pat[1],
        forall|i: int| 1 <= i < q.len() ==> q[i] != pat[0],
    ensures
        replace_all(q + x, pat, rep) == q + replace_all(x, pat, rep),
{
    let s = q + x;
    if s.len() < pat.len() {
        assert(replace_all(x, pat, rep) == x);
    } else {
        assert(s.take(pat.len() as int)[1] != pat[1]);
        assert(s.drop_first() =~= q.drop_first() + x);
        lemma_replace_passes_prefix(q.drop_first(), x, pat, rep);
        assert(s =~= seq![q[0]] + s.drop_first());
        assert(q =~= seq![q[0]] + q.drop_first());
    }
}

/// The pattern at the front is replaced.
proof fn lemma_replace_at_front(x: Seq<char>, pat: Seq<char>, rep: Seq<char>)
    requires
        pat.len() > 0,
    ensures
        replace_all(pat + x, pat, rep) == rep + replace_all(x, pat, rep),
{
    let s = pat + x;
    assert(s.take(pat.len() as int) =~= pat);
    assert(s.skip(pat.len() as int) =~= x);
}

proof fn lemma_digit_not_brace(d: nat)
    requires
        d < 10,
    ensures
        digit(d) != '{',
{
    let t = seq!['0', '1', '2', '3', '4', '5', '6', '7', '8', '9'];
    assert(t[d as int] == digit(d));
    assert(forall|k: int| 0 <= k < 10 ==> #[trigger] t[k] <= '9');
}

proof fn lemma_decimal_brace_free(n: nat)
    ensures
        brace_free(decimal(n)),
    decreases n,
{
    if n < 10 {
        lemma_digit_not_brace(n);
    } else {
        lemma_digit_not_brace(n % 10);
        lemma_decimal_brace_free(n / 10);
    }
}

proof fn lemma_numbers_brace_free(date: MediaDateTime)
    ensures
        brace_free(signed_zero_padded(date.year as int, 4)),
        brace_free(zero_padded(date.month as nat, 2)),
        brace_free(zero_padded(date.day as nat, 2)),
{
    lemma_decimal_brace_free(date.month as nat);
    lemma_decimal_brace_free(date.day as nat);
    if date.year < 0 {
        lemma_decimal_brace_free((-date.year) as nat);
    } else {
        lemma_decimal_brace_free(date.year as nat);
    }
}

/// Filling works from the front of the template, one piece at a time: an
/// empty template stays empty; a character other than `{` is kept; and
/// each of `{YYYY}`, `{MM}` and `{DD}` becomes the year (at least four
/// digits), the month and the day (two digits), whatever follows it, so
/// every occurrence of a placeholder is filled in.
pub proof fn lemma_fill_piece_by_piece(c: char, rest: Seq<char>, date: MediaDateTime)
    ensures
        fill_template(Seq::empty(), date) == Seq::<char>::empty(),
        c != '{' ==> fill_template(seq![c] + rest, date) == seq![c] + fill_template(rest, date),
        fill_template("{YYYY}"@ + rest, date) == signed_zero_padded(date.year as int, 4)
            + fill_template(rest, date),
        fill_template("{MM}"@ + rest, date) == zero_padded(date.month as nat, 2) + fill_template(
            rest,
            date,
        ),
        fill_template("{DD}"@ + rest, date) == zero_padded(date.day as nat, 2) + fill_template(
            rest,
            date,
        ),
{
    reveal_strlit("{YYYY}");
    reveal_strlit("{MM}");
    reveal_strlit("{DD}");
    let yp = year_placeholder();
    let mp = month_placeholder();
    let dp = day_placeholder();
    let yr = signed_zero_padded(date.year as int, 4);
    let mr = zero_padded(date.month as nat, 2);
    let dr = zero_padded(date.day as nat, 2);
    lemma_numbers_brace_free(date);
    let ry = replace_all(rest, yp, yr);
    let rm = replace_all(ry, mp, mr);
    // an empty template
    assert(replace_all(Seq::<char>::empty(), yp, yr) == Seq::<char>::empty());
    assert(replace_all(Seq::<char>::empty(), mp, mr) == Seq::<char>::empty());
    // a plain character
    if c != '{' {
        lemma_replace_passes_prefix(seq![c], rest, yp, yr);
        lemma_replace_passes_prefix(seq![c], ry, mp, mr);
        lemma_replace_passes_prefix(seq![c], rm, dp, dr);
    }
    // the year
    lemma_replace_at_front(rest, yp, yr);
    lemma_replace_passes_prefix(yr, ry, mp, mr);
    lemma_replace_passes_prefix(yr, rm, dp, dr);
    // the month
    lemma_replace_passes_other(mp, rest, yp, yr);
    lemma_replace_at_front(ry, mp, mr);
    lemma_replace_passes_prefix(mr, rm, dp, dr);
    // the day
    lemma_replace_passes_other(dp, rest, yp, yr);
    lemma_replace_passes_other(dp, ry, mp, mr);
    lemma_replace_at_front(rm, dp, dr);
}

proof fn lemma_placeholder_split(a: Seq<char>, p: Seq<char>)
    requires
        braces_only_in_placeholders(a),
        p.len() <= a.len(),
        a.take(p.len() as int) == p,
    ensures
        a == p + a.skip(p.len() as int),
        braces_only_in_placeholders(a.skip(p.len() as int)),
{
    let k = p.len() as int;
    let r = a.skip(k);
    assert(a =~= p + r);
    assert forall|i: int| 0 <= i < r.len() && #[trigger] r[i] == '{' implies {
        ||| (i + 6 <= r.len() && r.subrange(i, i + 6) == year_placeholder())
        ||| (i + 4 <= r.len() && r.subrange(i, i + 4) == month_placeholder())
        ||| (i + 4 <= r.len() && r.subrange(i, i + 4) == day_placeholder())
    } by {
        assert(a[i + k] == r[i]);
        if i + k + 6 <= a.len() && a.subrange(i + k, i + k + 6) == year_placeholder() {
            assert(r.subrange(i, i + 6) =~= a.subrange(i + k, i + k + 6));
        } else if i + k + 4 <= a.len() && a.subrange(i + k, i + k + 4) == month_placeholder() {
            assert(r.subrange(i, i + 4) =~= a.subrange(i + k, i + k + 4));
        } else {
            assert(r.subrange(i, i + 4) =~= a.subrange(i + k, i + k + 4));
        }
    }
}

/// Filling a template whose braces all belong to placeholders commutes
/// with putting it in front of any text: the two are filled apart and
/// joined. And what such a template fills to holds no `{` at all, so no
/// `{YYYY}`, `{MM}` or `{DD}` is left in the directory name.
pub proof fn lemma_fill_template_by_parts(a: Seq<char>, b: Seq<char>, date: MediaDateTime)
    requires
        braces_only_in_placeholders(a),
    ensures
        fill_template(a + b, date) == fill_template(a, date) + fill_template(b, date),
        brace_free(fill_template(a, date)),
        forall|i: int|
            0 <= i && i + 4 <= fill_template(a, date).len() ==> #[trigger] fill_template(
                a,
                date,
            ).subrange(i, i + 4) != month_placeholder(),
    decreases a.len(),
{
    reveal_strlit("{YYYY}");
    reveal_strlit("{MM}");
    reveal_strlit("{DD}");
    lemma_numbers_brace_free(date);
    let f = fill_template(a, date);
    if a.len() == 0 {
        lemma_fill_piece_by_piece(' ', b, date);
        assert(a + b =~= b);
        assert(a =~= Seq::<char>::empty());
        assert(f + fill_template(b, date) =~= fill_template(b, date));
    } else {
        let (p, tail) = if a[0] != '{' {
            (seq![a[0]], a.drop_first())
        } else if 6 <= a.len() && a.subrange(0, 6) == year_placeholder() {
            (year_placeholder(), a.skip(6))
        } else if 4 <= a.len() && a.subrange(0, 4) == month_placeholder() {
            (month_placeholder(), a.skip(4))
        } else {
            (day_placeholder(), a.skip(4))
        };
        assert(a.take(p.len() as int) =~= p) by {
            if a[0] != '{' {
                assert(a.take(1) =~= seq![a[0]]);
            } else {
                assert(a[0] == '{');
            }
        }
        assert(tail =~= a.skip(p.len() as int));
        lemma_placeholder_split(a, p);
        lemma_fill_template_by_parts(tail, b, date);
        assert(a + b =~= p + (tail + b));
        lemma_fill_piece_by_piece(a[0], tail + b, date);
        lemma_fill_piece_by_piece(a[0], tail, date);
        let pf = if a[0] != '{' {
            seq![a[0]]
        } else if p == year_placeholder() {
            signed_zero_padded(date.year as int, 4)
        } else if p == month_placeholder() {
            zero_padded(date.month as nat, 2)
        } else {
            zero_padded(date.day as nat, 2)
        };
        assert(fill_template(a, date) == pf + fill_template(tail, date));
        assert(fill_template(a + b, date) == pf + fill_template(tail + b, date));
        assert(brace_free(pf));
        assert(fill_template(a + b, date) =~= f + fill_template(b, date));
        let ft = fill_template(tail, date);
        assert(f =~= pf + ft);
        assert forall|i: int| 0 <= i < f.len() implies f[i] != '{' by {
            if i < pf.len() {
                assert(f[i] == pf[i]);
            } else {
                assert(f[i] == ft[i - pf.len()]);
            }
        }
    }
    assert forall|i: int| 0 <= i && i + 4 <= f.len() implies #[trigger] f.subrange(i, i + 4)
        != month_placeholder() by {
        assert(f.subrange(i, i + 4)[0] == f[i]);
    }
}

/// The highest suffix tried before giving up on finding a free name.
pub open spec fn max_suffix() -> nat {
    9999
}

/// The file name tried at attempt `index`: the name itself first, then
/// `stem_index.ext` (or `stem_index` for a name without extension or with
/// an empty one).
pub open spec fn candidate_name(name: Seq<char>, index: nat) -> Seq<char> {
    if index == 0 {
        name
    } else {
        let stem = file_stem(name);
        let numbered = stem + seq!['_'] + decimal(index);
        match extension(name) {
            Some(ext) => if ext.len() == 0 {
                numbered
            } else {
                numbered + seq!['.'] + ext
            },
            None => numbered,
        }
    }
}

/// The path tried at attempt `index` for a file named `name` in `day_dir`.
pub open spec fn candidate_path(style: PathStyle, day_dir: Seq<char>, name: Seq<char>, index: nat) -> Seq<char> {
    path_join(style, day_dir, candidate_name(name, index))
}

/// The path tried at attempt `index` for the file `file_name` in `day_dir`.
pub fn destination_candidate(style: PathStyle, day_dir: &[char], file_name: &[char], index: u64) -> (r: Vec<
    char,
>)
    ensures
        r@ == candidate_path(style, day_dir@, file_name@, index as nat),
{
    if index == 0 {
        return join_path(style, day_dir, file_name);
    }
    let (stem, ext) = split_file_name(file_name);
    let mut name: Vec<char> = Vec::new();
    push_all(&mut name, &stem);
    name.push('_');
    push_decimal(&mut name, index);
    match ext {
        Some(e) => {
            if e.len() > 0 {
                name.push('.');
                push_all(&mut name, &e);
            }
        },
        None => {},
    }
    assert(name@ =~= candidate_name(file_name@, index as nat));
    join_path(style, day_dir, &name)
}

} // verus!
