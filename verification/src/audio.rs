//! Media files: which ones need their audio track extracted first, and the
//! header of the 16-bit mono WAV files written for the recognizer.
use vstd::prelude::*;

use crate::text::{chars_of, folds_to, range_folds_to, string_of};

verus! {

/// Path separators (both are accepted on the Windows desktop the
/// application targets).
pub open spec fn is_separator(c: char) -> bool {
    c == '/' || c == '\\'
}

/// The separators of a path: only `\` after a verbatim (`\\?\`) prefix,
/// either kind otherwise.
pub open spec fn sep_in(c: char, verbatim: bool) -> bool {
    if verbatim {
        c == '\\'
    } else {
        is_separator(c)
    }
}

/// Whether `c` is a separator (see [`sep_in`]).
fn is_sep(c: char, verbatim: bool) -> (r: bool)
    ensures
        r == sep_in(c, verbatim),
{
    if verbatim {
        c == '\\'
    } else {
        c == '/' || c == '\\'
    }
}

/// The end of the path component that starts at `from`: the position of
/// the next separator, or the path's length.
pub open spec fn comp_end(s: Seq<char>, from: int, verbatim: bool) -> int
    decreases s.len() - from,
{
    if from < 0 || from >= s.len() {
        s.len() as int
    } else if sep_in(s[from], verbatim) {
        from
    } else {
        comp_end(s, from + 1, verbatim)
    }
}

proof fn lemma_comp_end_bounds(s: Seq<char>, from: int, verbatim: bool)
    requires
        0 <= from <= s.len(),
    ensures
        from <= comp_end(s, from, verbatim) <= s.len(),
    decreases s.len() - from,
{
    if from < s.len() && !sep_in(s[from], verbatim) {
        lemma_comp_end_bounds(s, from + 1, verbatim);
    }
}

/// The length of the Windows prefix a path starts with, and whether it is a
/// verbatim one, as `std::path` reads prefixes on Windows: `\\?\UNC\server\share`,
/// `\\?\C:`, `\\?\name`, `\\.\device`, `\\server\share` (with either
/// separator where the platform allows it) and a drive `C:`; zero when
/// there is none.
pub open spec fn windows_prefix(s: Seq<char>) -> (int, bool) {
    if s.len() >= 2 && is_separator(s[0]) && is_separator(s[1]) {
        if s.len() >= 4 && s[0] == '\\' && s[1] == '\\' && s[2] == '?' && s[3] == '\\' {
            if s.len() >= 8 && s[4] == 'U' && s[5] == 'N' && s[6] == 'C' && is_separator(s[7]) {
                let a = comp_end(s, 8, true);
                if a < s.len() && comp_end(s, a + 1, true) > a + 1 {
                    (comp_end(s, a + 1, true), true)
                } else {
                    (a, true)
                }
            } else if s.len() >= 7 && s[6] == '\\' && s[5] == ':' && (('a' <= s[4] <= 'z') || ('A' <= s[4] <= 'Z')) {
                (6, true)
            } else {
                (comp_end(s, 4, true), true)
            }
        } else if s.len() >= 4 && s[2] == '.' && is_separator(s[3]) {
            (comp_end(s, 4, false), false)
        } else {
            let a = comp_end(s, 2, false);
            if a > 2 && a < s.len() && comp_end(s, a + 1, false) > a + 1 {
                (comp_end(s, a + 1, false), false)
            } else {
                (0, false)
            }
        }
    } else if s.len() >= 2 && s[1] == ':' && (('a' <= s[0] <= 'z') || ('A' <= s[0] <= 'Z')) {
        (2, false)
    } else {
        (0, false)
    }
}

proof fn lemma_windows_prefix_bounds(s: Seq<char>)
    ensures
        0 <= windows_prefix(s).0 <= s.len(),
{
    if s.len() >= 8 {
        lemma_comp_end_bounds(s, 8, true);
        let a = comp_end(s, 8, true);
        if a < s.len() {
            lemma_comp_end_bounds(s, a + 1, true);
        }
    }
    if s.len() >= 4 {
        lemma_comp_end_bounds(s, 4, true);
        lemma_comp_end_bounds(s, 4, false);
    }
    if s.len() >= 2 {
        lemma_comp_end_bounds(s, 2, false);
        let a = comp_end(s, 2, false);
        if a < s.len() {
            lemma_comp_end_bounds(s, a + 1, false);
        }
    }
}

/// The end of the component of `cs` that starts at `from`.
fn comp_end_of(cs: &Vec<char>, from: usize, verbatim: bool) -> (r: usize)
    requires
        from <= cs@.len(),
    ensures
        r == comp_end(cs@, from as int, verbatim),
{
    let mut i = from;
    while i < cs.len() && !is_sep(cs[i], verbatim)
        invariant
            from <= i <= cs@.len(),
            comp_end(cs@, i as int, verbatim) == comp_end(cs@, from as int, verbatim),
        decreases cs@.len() - i,
    {
        i = i + 1;
    }
    i
}

/// The Windows prefix of `cs` (see [`windows_prefix`]).
fn prefix_of(cs: &Vec<char>) -> (r: (usize, bool))
    ensures
        (r.0 as int, r.1) == windows_prefix(cs@),
{
    let n = cs.len();
    let sep = |c: char| -> (b: bool)
        ensures
            b == is_separator(c),
    { c == '/' || c == '\\' };
    if n >= 2 && sep(cs[0]) && sep(cs[1]) {
        if n >= 4 && cs[0] == '\\' && cs[1] == '\\' && cs[2] == '?' && cs[3] == '\\' {
            if n >= 8 && cs[4] == 'U' && cs[5] == 'N' && cs[6] == 'C' && sep(cs[7]) {
                let a = comp_end_of(cs, 8, true);
                proof {
                    lemma_comp_end_bounds(cs@, 8, true);
                }
                if a < n {
                    let b = comp_end_of(cs, a + 1, true);
                    if b > a + 1 {
                        return (b, true);
                    }
                }
                (a, true)
            } else if n >= 7 && cs[6] == '\\' && cs[5] == ':' && (('a' <= cs[4] && cs[4] <= 'z') || ('A' <= cs[4] && cs[4] <= 'Z')) {
                (6, true)
            } else {
                (comp_end_of(cs, 4, true), true)
            }
        } else if n >= 4 && cs[2] == '.' && sep(cs[3]) {
            (comp_end_of(cs, 4, false), false)
        } else {
            let a = comp_end_of(cs, 2, false);
            proof {
                lemma_comp_end_bounds(cs@, 2, false);
            }
            if a > 2 && a < n {
                let b = comp_end_of(cs, a + 1, false);
                if b > a + 1 {
                    return (b, false);
                }
            }
            (0, false)
        }
    } else if n >= 2 && cs[1] == ':' && (('a' <= cs[0] && cs[0] <= 'z') || ('A' <= cs[0] && cs[0] <= 'Z')) {
        (2, false)
    } else {
        (0, false)
    }
}

/// The position just past the last separator (zero when there is none).
pub open spec fn component_start(s: Seq<char>, verbatim: bool) -> int
    decreases s.len(),
{
    if s.len() == 0 {
        0
    } else if sep_in(s.last(), verbatim) {
        s.len() as int
    } else {
        component_start(s.drop_last(), verbatim)
    }
}

/// Where the last component of a path starts, and that it holds no separator.
pub proof fn lemma_component_start_bounds(s: Seq<char>, verbatim: bool)
    ensures
        0 <= component_start(s, verbatim) <= s.len(),
        s.len() > 0 && !sep_in(s.last(), verbatim) ==> component_start(s, verbatim) < s.len(),
        component_start(s, verbatim) > 0 ==> sep_in(s[component_start(s, verbatim) - 1], verbatim),
        forall|k: int| component_start(s, verbatim) <= k < s.len() ==> !sep_in(#[trigger] s[k], verbatim),
    decreases s.len(),
{
    if s.len() > 0 && !sep_in(s.last(), verbatim) {
        lemma_component_start_bounds(s.drop_last(), verbatim);
        assert forall|k: int| component_start(s, verbatim) <= k < s.len() implies !sep_in(#[trigger] s[k], verbatim) by {
            if k < s.len() - 1 {
                assert(s[k] == s.drop_last()[k]);
            }
        }
        if component_start(s, verbatim) > 0 {
            assert(s[component_start(s, verbatim) - 1] == s.drop_last()[component_start(s, verbatim) - 1]);
        }
    }
}

/// The final name in the part of a path after its prefix, the way
/// `Path::file_name` reads it: trailing separators are skipped, and so are
/// `.` components outside verbatim paths; a final `..`, a final `.` of a
/// verbatim path, or an empty rest has no name.
pub open spec fn name_in(s: Seq<char>, verbatim: bool) -> Option<Seq<char>>
    decreases s.len(),
{
    if s.len() == 0 {
        None
    } else if sep_in(s.last(), verbatim) {
        name_in(s.drop_last(), verbatim)
    } else {
        let start = component_start(s, verbatim);
        let comp = s.subrange(start, s.len() as int);
        if comp == seq!['.'] {
            if verbatim || start <= 0 {
                None
            } else {
                proof {
                    lemma_component_start_bounds(s, verbatim);
                }
                name_in(s.subrange(0, start), verbatim)
            }
        } else if comp == seq!['.', '.'] {
            None
        } else {
            Some(comp)
        }
    }
}

/// The file name of a path (after any Windows prefix).
pub open spec fn path_file_name(p: Seq<char>) -> Option<Seq<char>> {
    let (n, verbatim) = windows_prefix(p);
    name_in(p.subrange(n, p.len() as int), verbatim)
}

/// Where the file name of a path lies among its characters.
fn file_name_range(cs: &Vec<char>) -> (r: Option<(usize, usize)>)
    ensures
        match r {
            Some((a, b)) => a <= b <= cs@.len() && path_file_name(cs@) == Some(cs@.subrange(a as int, b as int)),
            None => path_file_name(cs@) is None,
        },
{
    let len = cs.len();
    let (base, v) = prefix_of(cs);
    proof {
        lemma_windows_prefix_bounds(cs@);
    }
    let mut end: usize = len;
    loop
        invariant
            len == cs@.len(),
            base <= end <= len,
            (base as int, v) == windows_prefix(cs@),
            name_in(cs@.subrange(base as int, end as int), v) == path_file_name(cs@),
        decreases end,
    {
        let ghost s = cs@.subrange(base as int, end as int);
        if end == base {
            return None;
        }
        assert(s.last() == cs@[end - 1]);
        if is_sep(cs[end - 1], v) {
            assert(s.drop_last() =~= cs@.subrange(base as int, end - 1));
            end = end - 1;
        } else {
            let mut start: usize = end - 1;
            assert(s.drop_last() =~= cs@.subrange(base as int, start as int));
            while start > base && !is_sep(cs[start - 1], v)
                invariant
                    base <= start < end <= len,
                    len == cs@.len(),
                    s == cs@.subrange(base as int, end as int),
                    component_start(s, v) == component_start(cs@.subrange(base as int, start as int), v),
                decreases start,
            {
                let ghost t = cs@.subrange(base as int, start as int);
                assert(t.last() == cs@[start - 1]);
                assert(t.drop_last() =~= cs@.subrange(base as int, start - 1));
                start = start - 1;
            }
            proof {
                let t = cs@.subrange(base as int, start as int);
                if start > base {
                    assert(t.last() == cs@[start - 1]);
                }
                assert(component_start(s, v) == start - base);
                lemma_component_start_bounds(s, v);
            }
            let ghost comp = s.subrange(start - base, s.len() as int);
            assert(comp =~= cs@.subrange(start as int, end as int));
            if end - start == 1 && cs[start] == '.' {
                assert(comp =~= seq!['.']);
                if v || start == base {
                    return None;
                }
                assert(s.subrange(0, start - base) =~= cs@.subrange(base as int, start as int));
                end = start;
            } else if end - start == 2 && cs[start] == '.' && cs[start + 1] == '.' {
                assert(comp =~= seq!['.', '.']);
                return None;
            } else {
                assert(comp != seq!['.']) by {
                    if comp == seq!['.'] {
                        assert(comp.len() == 1 && comp[0] == cs@[start as int]);
                    }
                }
                assert(comp != seq!['.', '.']) by {
                    if comp == seq!['.', '.'] {
                        assert(comp[0] == cs@[start as int]);
                        assert(comp[1] == cs@[start + 1]);
                    }
                }
                return Some((start, end));
            }
        }
    }
}

/// The file name of a path, empty when it has none.
pub fn file_name_of(path: &str) -> (r: String)
    ensures
        r@ == match path_file_name(path@) {
            Some(n) => n,
            None => Seq::empty(),
        },
{
    let cs = chars_of(path);
    match file_name_range(&cs) {
        Some((a, b)) => string_of(&cs, a, b),
        None => String::new(),
    }
}

/// The position of the last `.` (minus one when there is none).
pub open spec fn last_dot(s: Seq<char>) -> int
    decreases s.len(),
{
    if s.len() == 0 {
        -1
    } else if s.last() == '.' {
        s.len() - 1
    } else {
        last_dot(s.drop_last())
    }
}

proof fn lemma_last_dot_bounds(s: Seq<char>)
    ensures
        -1 <= last_dot(s) < s.len(),
        last_dot(s) >= 0 ==> s[last_dot(s)] == '.',
    decreases s.len(),
{
    if s.len() > 0 && s.last() != '.' {
        lemma_last_dot_bounds(s.drop_last());
        if last_dot(s) >= 0 {
            assert(s[last_dot(s)] == s.drop_last()[last_dot(s)]);
        }
    }
}

/// The extension of a file name, as `Path::extension` gives it: what
/// follows the last dot, provided that dot is not the name's first
/// character.
pub open spec fn extension_of(name: Seq<char>) -> Option<Seq<char>> {
    let i = last_dot(name);
    if i <= 0 {
        None
    } else {
        Some(name.subrange(i + 1, name.len() as int))
    }
}

/// The extensions of video (and video-like container) files, compared
/// without regard to case.
pub open spec fn is_video_extension(e: Seq<char>) -> bool {
    ||| folds_to(e, "mp4"@)
    ||| folds_to(e, "mkv"@)
    ||| folds_to(e, "avi"@)
    ||| folds_to(e, "mov"@)
    ||| folds_to(e, "webm"@)
    ||| folds_to(e, "flv"@)
    ||| folds_to(e, "wmv"@)
    ||| folds_to(e, "m4a"@)
}

/// Whether a file's audio must be extracted before recognition: its
/// extension names a video container.
pub open spec fn needs_extraction_spec(path: Seq<char>) -> bool {
    match path_file_name(path) {
        Some(name) => match extension_of(name) {
            Some(e) => is_video_extension(e),
            None => false,
        },
        None => false,
    }
}

/// A file needs its audio extracted exactly when its path has a file name
/// whose extension is, ignoring case, one of mp4, mkv, avi, mov, webm, flv,
/// wmv and m4a.
pub proof fn lemma_video_extensions_need_extraction(path: Seq<char>)
    ensures
        needs_extraction_spec(path) <==> (path_file_name(path) matches Some(name) && extension_of(name) matches Some(e) && {
            ||| folds_to(e, "mp4"@)
            ||| folds_to(e, "mkv"@)
            ||| folds_to(e, "avi"@)
            ||| folds_to(e, "mov"@)
            ||| folds_to(e, "webm"@)
            ||| folds_to(e, "flv"@)
            ||| folds_to(e, "wmv"@)
            ||| folds_to(e, "m4a"@)
        }),
{
}

proof fn lemma_last_dot_before_plain(a: Seq<char>, b: Seq<char>)
    requires
        forall|k: int| 0 <= k < b.len() ==> b[k] != '.',
    ensures
        last_dot(a + seq!['.'] + b) == a.len(),
    decreases b.len(),
{
    let s = a + seq!['.'] + b;
    if b.len() == 0 {
        assert(s.last() == '.');
    } else {
        assert(s.last() == b[b.len() - 1]);
        assert(s.drop_last() =~= a + seq!['.'] + b.drop_last());
        lemma_last_dot_before_plain(a, b.drop_last());
    }
}

/// A bare file name `stem.ext`, with a stem free of dots, colons and
/// separators and an extension free of dots and separators, needs its audio
/// extracted exactly when the extension is, ignoring case, one of mp4, mkv,
/// avi, mov, webm, flv, wmv and m4a.
pub proof fn lemma_plain_name_needs_extraction(stem: Seq<char>, ext: Seq<char>)
    requires
        stem.len() > 0,
        forall|k: int| 0 <= k < stem.len() ==> !is_separator(#[trigger] stem[k]) && stem[k] != '.' && stem[k] != ':',
        forall|k: int| 0 <= k < ext.len() ==> !is_separator(#[trigger] ext[k]) && ext[k] != '.',
    ensures
        needs_extraction_spec(stem + seq!['.'] + ext) <==> {
            ||| folds_to(ext, "mp4"@)
            ||| folds_to(ext, "mkv"@)
            ||| folds_to(ext, "avi"@)
            ||| folds_to(ext, "mov"@)
            ||| folds_to(ext, "webm"@)
            ||| folds_to(ext, "flv"@)
            ||| folds_to(ext, "wmv"@)
            ||| folds_to(ext, "m4a"@)
        },
{
    let p = stem + seq!['.'] + ext;
    assert forall|k: int| 0 <= k < p.len() implies !is_separator(#[trigger] p[k]) by {
        if k < stem.len() {
            assert(p[k] == stem[k]);
        } else if k > stem.len() {
            assert(p[k] == ext[k - stem.len() - 1]);
        }
    }
    assert(p[0] == stem[0]);
    assert(p[1] != ':') by {
        if stem.len() > 1 {
            assert(p[1] == stem[1]);
        }
    }
    assert(windows_prefix(p) == (0int, false));
    assert(p.subrange(0, p.len() as int) =~= p);
    lemma_component_start_bounds(p, false);
    assert(component_start(p, false) == 0) by {
        if component_start(p, false) > 0 {
            assert(sep_in(p[component_start(p, false) - 1], false));
        }
    }
    assert(p.subrange(0, p.len() as int) =~= p);
    assert(p != seq!['.']) by {
        assert(p.len() >= 2);
    }
    assert(p != seq!['.', '.']) by {
        if p.len() == 2 {
            assert(p[0] == stem[0]);
        }
    }
    assert(path_file_name(p) == Some(p));
    lemma_last_dot_before_plain(stem, ext);
    assert(p.subrange(stem.len() + 1int, p.len() as int) =~= ext);
}

/// Checks whether this file is a video format that needs audio extraction.
pub fn needs_extraction(path: &str) -> (r: bool)
    ensures
        r == needs_extraction_spec(path@),
{
    let cs = chars_of(path);
    match file_name_range(&cs) {
        None => false,
        Some((a, b)) => {
            let ghost name = cs@.subrange(a as int, b as int);
            let mut d: usize = b;
            while d > a && cs[d - 1] != '.'
                invariant
                    a <= d <= b <= cs@.len(),
                    name == cs@.subrange(a as int, b as int),
                    last_dot(name) == last_dot(cs@.subrange(a as int, d as int)),
                decreases d,
            {
                let ghost t = cs@.subrange(a as int, d as int);
                assert(t.last() == cs@[d - 1]);
                assert(t.drop_last() =~= cs@.subrange(a as int, d - 1));
                d = d - 1;
            }
            proof {
                let t = cs@.subrange(a as int, d as int);
                if d > a {
                    assert(t.last() == cs@[d - 1]);
                } else {
                    assert(t.len() == 0);
                }
                assert(last_dot(name) == d - a - 1);
                lemma_last_dot_bounds(name);
            }
            if d - a <= 1 {
                return false;
            }
            assert(name.subrange(d - a, name.len() as int) =~= cs@.subrange(d as int, b as int));
            range_folds_to(&cs, d, b, "mp4") || range_folds_to(&cs, d, b, "mkv")
                || range_folds_to(&cs, d, b, "avi") || range_folds_to(&cs, d, b, "mov")
                || range_folds_to(&cs, d, b, "webm") || range_folds_to(&cs, d, b, "flv")
                || range_folds_to(&cs, d, b, "wmv") || range_folds_to(&cs, d, b, "m4a")
        },
    }
}

/// A 16-bit value in little-endian byte order.
pub open spec fn le16(x: int) -> Seq<u8> {
    seq![(x % 256) as u8, (x / 256 % 256) as u8]
}

/// A 32-bit value in little-endian byte order.
pub open spec fn le32(x: int) -> Seq<u8> {
    seq![(x % 256) as u8, (x / 256 % 256) as u8, (x / 65536 % 256) as u8, (x / 16777216 % 256) as u8]
}

/// The 44-byte header of a 16-bit mono PCM WAV file with `data_size` bytes
/// of samples.
pub open spec fn wav_header_spec(data_size: int, sample_rate: int) -> Seq<u8> {
    seq![82u8, 73u8, 70u8, 70u8] // "RIFF"
        + le32(36 + data_size)
        + seq![87u8, 65u8, 86u8, 69u8] // "WAVE"
        + seq![102u8, 109u8, 116u8, 32u8] // "fmt "
        + le32(16) // format chunk size
        + le16(1) // PCM
        + le16(1) // mono
        + le32(sample_rate)
        + le32(sample_rate * 2) // byte rate
        + le16(2) // block align
        + le16(16) // bits per sample
        + seq![100u8, 97u8, 116u8, 97u8] // "data"
        + le32(data_size)
}

/// The number of data bytes recorded in the header for `num_samples`
/// 16-bit samples (the byte count kept to 32 bits).
pub open spec fn wav_data_size(num_samples: int) -> int {
    ((num_samples * 2) as u32) as int
}

fn push_le16(out: &mut Vec<u8>, x: u16)
    ensures
        final(out)@ == old(out)@ + le16(x as int),
{
    out.push((x % 256) as u8);
    out.push((x / 256 % 256) as u8);
    assert(final(out)@ =~= old(out)@ + le16(x as int));
}

fn push_le32(out: &mut Vec<u8>, x: u32)
    ensures
        final(out)@ == old(out)@ + le32(x as int),
{
    out.push((x % 256) as u8);
    out.push((x / 256 % 256) as u8);
    out.push((x / 65536 % 256) as u8);
    out.push((x / 16777216 % 256) as u8);
    assert(final(out)@ =~= old(out)@ + le32(x as int));
}

fn push_tag(out: &mut Vec<u8>, a: u8, b: u8, c: u8, d: u8)
    ensures
        final(out)@ == old(out)@ + seq![a, b, c, d],
{
    out.push(a);
    out.push(b);
    out.push(c);
    out.push(d);
    assert(final(out)@ =~= old(out)@ + seq![a, b, c, d]);
}

/// The header of a 16-bit mono PCM WAV file holding `num_samples` samples
/// at `sample_rate` samples per second.
pub fn wav_header(num_samples: usize, sample_rate: u32) -> (h: Vec<u8>)
    requires
        num_samples * 2 <= usize::MAX,
        wav_data_size(num_samples as int) + 36 <= u32::MAX,
        sample_rate * 2 <= u32::MAX,
    ensures
        h@ == wav_header_spec(wav_data_size(num_samples as int), sample_rate as int),
        h@.len() == 44,
{
    let data_size: u32 = (num_samples * 2) as u32;
    let mut h: Vec<u8> = Vec::new();
    push_tag(&mut h, 82, 73, 70, 70);
    push_le32(&mut h, 36 + data_size);
    push_tag(&mut h, 87, 65, 86, 69);
    push_tag(&mut h, 102, 109, 116, 32);
    push_le32(&mut h, 16);
    push_le16(&mut h, 1);
    push_le16(&mut h, 1);
    push_le32(&mut h, sample_rate);
    push_le32(&mut h, sample_rate * 2);
    push_le16(&mut h, 2);
    push_le16(&mut h, 16);
    push_tag(&mut h, 100, 97, 116, 97);
    push_le32(&mut h, data_size);
    assert(h@ =~= wav_header_spec(wav_data_size(num_samples as int), sample_rate as int));
    h
}

/// The 32-bit little-endian value stored at `at`.
pub open spec fn read_le32(b: Seq<u8>, at: int) -> int {
    b[at] as int + 256 * (b[at + 1] as int) + 65536 * (b[at + 2] as int) + 16777216 * (b[at + 3] as int)
}

/// Reading back a little-endian 32-bit value gives the value.
pub proof fn lemma_le32_roundtrip(x: u32)
    ensures
        read_le32(le32(x as int), 0) == x,
{
    let b = le32(x as int);
    assert(b[0] as int + 256 * (b[1] as int) + 65536 * (b[2] as int) + 16777216 * (b[3] as int) == x) by (nonlinear_arith)
        requires
            b[0] as int == x % 256,
            b[1] as int == x / 256 % 256,
            b[2] as int == x / 65536 % 256,
            b[3] as int == x / 16777216 % 256,
            0 <= x < 0x1_0000_0000,
    ;
}

/// The header records the number of sample bytes, the sample rate, and a
/// RIFF length equal to the whole file's length less eight bytes.
pub proof fn lemma_wav_header_fields(num_samples: int, sample_rate: u32)
    requires
        wav_data_size(num_samples) + 36 <= u32::MAX,
        sample_rate * 2 <= u32::MAX,
    ensures
        read_le32(wav_header_spec(wav_data_size(num_samples), sample_rate as int), 4)
            == 44 + wav_data_size(num_samples) - 8,
        read_le32(wav_header_spec(wav_data_size(num_samples), sample_rate as int), 24) == sample_rate,
        read_le32(wav_header_spec(wav_data_size(num_samples), sample_rate as int), 40) == wav_data_size(num_samples),
{
    let ds = wav_data_size(num_samples);
    let h = wav_header_spec(ds, sample_rate as int);
    lemma_le32_roundtrip((36 + ds) as u32);
    lemma_le32_roundtrip(sample_rate);
    lemma_le32_roundtrip(ds as u32);
    let a = le32(36 + ds);
    let r = le32(sample_rate as int);
    let d = le32(ds);
    assert(h[4] == a[0] && h[5] == a[1] && h[6] == a[2] && h[7] == a[3]);
    assert(h[24] == r[0] && h[25] == r[1] && h[26] == r[2] && h[27] == r[3]);
    assert(h[40] == d[0] && h[41] == d[1] && h[42] == d[2] && h[43] == d[3]);
}

/// A character with ASCII lower-case letters made upper-case.
pub open spec fn ascii_upper(c: char) -> char {
    if 'a' <= c <= 'z' {
        ((c as int) - 32) as char
    } else {
        c
    }
}

/// A text with ASCII lower-case letters made upper-case.
pub open spec fn upper_text(s: Seq<char>) -> Seq<char> {
    s.map_values(|c: char| ascii_upper(c))
}

proof fn lemma_upper_text_subrange(s: Seq<char>, a: int, b: int)
    requires
        0 <= a <= b <= s.len(),
    ensures
        upper_text(s.subrange(a, b)) == upper_text(s).subrange(a, b),
{
    assert(upper_text(s.subrange(a, b)) =~= upper_text(s).subrange(a, b));
}

proof fn lemma_upper_keeps_marks(c: char)
    ensures
        is_separator(ascii_upper(c)) == is_separator(c),
        (ascii_upper(c) == '\\') == (c == '\\'),
        (ascii_upper(c) == '?') == (c == '?'),
        (ascii_upper(c) == '.') == (c == '.'),
        (ascii_upper(c) == ':') == (c == ':'),
        (('a' <= ascii_upper(c) <= 'z') || ('A' <= ascii_upper(c) <= 'Z')) == (('a' <= c <= 'z') || ('A' <= c <= 'Z')),
{
}

proof fn lemma_component_start_upper(s: Seq<char>, verbatim: bool)
    ensures
        component_start(upper_text(s), verbatim) == component_start(s, verbatim),
    decreases s.len(),
{
    if s.len() > 0 {
        let u = upper_text(s);
        assert(u.last() == ascii_upper(s.last()));
        lemma_upper_keeps_marks(s.last());
        assert(u.drop_last() =~= upper_text(s.drop_last()));
        lemma_component_start_upper(s.drop_last(), verbatim);
    }
}

proof fn lemma_comp_end_upper(s: Seq<char>, from: int, verbatim: bool)
    ensures
        comp_end(upper_text(s), from, verbatim) == comp_end(s, from, verbatim),
    decreases s.len() - from,
{
    if 0 <= from < s.len() {
        assert(upper_text(s)[from] == ascii_upper(s[from]));
        lemma_upper_keeps_marks(s[from]);
        lemma_comp_end_upper(s, from + 1, verbatim);
    }
}

/// Whether a path starts with a verbatim prefix whose `UNC` marker is not
/// written in capitals: `std::path` reads the marker case-sensitively, so
/// such a prefix means something else once upper-cased.
pub open spec fn lower_case_unc_marker(s: Seq<char>) -> bool {
    &&& s.len() >= 8
    &&& s[0] == '\\' && s[1] == '\\' && s[2] == '?' && s[3] == '\\'
    &&& (s[4] == 'U' || s[4] == 'u') && (s[5] == 'N' || s[5] == 'n') && (s[6] == 'C' || s[6] == 'c')
    &&& !(s[4] == 'U' && s[5] == 'N' && s[6] == 'C')
    &&& is_separator(s[7])
}

proof fn lemma_windows_prefix_upper(s: Seq<char>)
    requires
        !lower_case_unc_marker(s),
    ensures
        windows_prefix(upper_text(s)) == windows_prefix(s),
{
    let u = upper_text(s);
    assert forall|k: int| 0 <= k < s.len() implies #[trigger] u[k] == ascii_upper(s[k]) by {}
    if s.len() >= 8 {
        lemma_upper_keeps_marks(s[0]);
        lemma_upper_keeps_marks(s[1]);
        lemma_upper_keeps_marks(s[2]);
        lemma_upper_keeps_marks(s[3]);
        lemma_upper_keeps_marks(s[4]);
        lemma_upper_keeps_marks(s[5]);
        lemma_upper_keeps_marks(s[6]);
        lemma_upper_keeps_marks(s[7]);
        assert(u[4] == ascii_upper(s[4]) && u[5] == ascii_upper(s[5]) && u[6] == ascii_upper(s[6]));
        lemma_comp_end_upper(s, 8, true);
        let a = comp_end(s, 8, true);
        lemma_comp_end_upper(s, a + 1, true);
    }
    if s.len() >= 2 {
        lemma_upper_keeps_marks(s[0]);
        lemma_upper_keeps_marks(s[1]);
        lemma_comp_end_upper(s, 2, false);
        let a = comp_end(s, 2, false);
        lemma_comp_end_upper(s, a + 1, false);
    }
    if s.len() >= 4 {
        lemma_upper_keeps_marks(s[2]);
        lemma_upper_keeps_marks(s[3]);
        lemma_comp_end_upper(s, 4, true);
        lemma_comp_end_upper(s, 4, false);
    }
    if s.len() >= 7 {
        lemma_upper_keeps_marks(s[4]);
        lemma_upper_keeps_marks(s[5]);
        lemma_upper_keeps_marks(s[6]);
    }
}

proof fn lemma_name_in_upper(s: Seq<char>, verbatim: bool)
    ensures
        name_in(upper_text(s), verbatim) == match name_in(s, verbatim) {
            Some(n) => Some(upper_text(n)),
            None => None,
        },
    decreases s.len(),
{
    let u = upper_text(s);
    if s.len() > 0 {
        assert(u.last() == ascii_upper(s.last()));
        lemma_upper_keeps_marks(s.last());
        if sep_in(s.last(), verbatim) {
            assert(u.drop_last() =~= upper_text(s.drop_last()));
            lemma_name_in_upper(s.drop_last(), verbatim);
        } else {
            lemma_component_start_upper(s, verbatim);
            lemma_component_start_bounds(s, verbatim);
            let start = component_start(s, verbatim);
            let comp = s.subrange(start, s.len() as int);
            lemma_upper_text_subrange(s, start, s.len() as int);
            let ucomp = u.subrange(start, s.len() as int);
            assert(ucomp == upper_text(comp));
            assert(ucomp.len() == comp.len());
            assert forall|k: int| 0 <= k < comp.len() implies #[trigger] ucomp[k] == ascii_upper(comp[k]) by {}
            assert((comp == seq!['.']) == (ucomp == seq!['.'])) by {
                if comp == seq!['.'] {
                    assert(ucomp[0] == ascii_upper('.'));
                    assert(ucomp =~= seq!['.']);
                }
                if ucomp == seq!['.'] {
                    assert(ucomp[0] == '.');
                    assert(ucomp[0] == ascii_upper(comp[0]));
                    assert(comp[0] == '.');
                    assert(comp =~= seq!['.']);
                }
            }
            assert((comp == seq!['.', '.']) == (ucomp == seq!['.', '.'])) by {
                if comp == seq!['.', '.'] {
                    assert(ucomp[0] == ascii_upper('.'));
                    assert(ucomp[1] == ascii_upper('.'));
                    assert(ucomp =~= seq!['.', '.']);
                }
                if ucomp == seq!['.', '.'] {
                    assert(ucomp[0] == '.' && ucomp[1] == '.');
                    assert(ucomp[0] == ascii_upper(comp[0]));
                    assert(ucomp[1] == ascii_upper(comp[1]));
                    assert(comp[0] == '.' && comp[1] == '.');
                    assert(comp =~= seq!['.', '.']);
                }
            }
            if comp == seq!['.'] && !verbatim && start > 0 {
                lemma_upper_text_subrange(s, 0, start);
                assert(s.subrange(0, start).len() < s.len());
                lemma_name_in_upper(s.subrange(0, start), verbatim);
            }
        }
    }
}

proof fn lemma_last_dot_upper(s: Seq<char>)
    ensures
        last_dot(upper_text(s)) == last_dot(s),
    decreases s.len(),
{
    if s.len() > 0 {
        let u = upper_text(s);
        assert(u.last() == ascii_upper(s.last()));
        assert(u.drop_last() =~= upper_text(s.drop_last()));
        lemma_last_dot_upper(s.drop_last());
    }
}

proof fn lemma_folds_to_upper(e: Seq<char>, w: Seq<char>)
    ensures
        crate::text::folds_to(upper_text(e), w) == crate::text::folds_to(e, w),
{
    assert forall|i: int| 0 <= i < e.len() implies crate::text::fold_case(#[trigger] upper_text(e)[i])
        == crate::text::fold_case(e[i]) by {
        assert(upper_text(e)[i] == ascii_upper(e[i]));
    }
    if crate::text::folds_to(e, w) {
        assert forall|i: int| 0 <= i < upper_text(e).len() implies crate::text::fold_case(#[trigger] upper_text(e)[i]) == w[i] by {
            assert(crate::text::fold_case(upper_text(e)[i]) == crate::text::fold_case(e[i]));
        }
    }
    if crate::text::folds_to(upper_text(e), w) {
        assert forall|i: int| 0 <= i < e.len() implies crate::text::fold_case(#[trigger] e[i]) == w[i] by {
            assert(crate::text::fold_case(upper_text(e)[i]) == crate::text::fold_case(e[i]));
        }
    }
}

/// Whether a file needs its audio extracted does not depend on the case of
/// its name: upper-casing the path's ASCII letters changes nothing (save
/// for a verbatim prefix whose `UNC` marker is not in capitals, which
/// upper-casing turns into another kind of prefix).
pub proof fn lemma_needs_extraction_ignores_case(path: Seq<char>)
    requires
        !lower_case_unc_marker(path),
    ensures
        needs_extraction_spec(upper_text(path)) == needs_extraction_spec(path),
{
    let u = upper_text(path);
    lemma_windows_prefix_upper(path);
    lemma_windows_prefix_bounds(path);
    let (n, v) = windows_prefix(path);
    lemma_upper_text_subrange(path, n, path.len() as int);
    lemma_name_in_upper(path.subrange(n, path.len() as int), v);
    match path_file_name(path) {
        Some(name) => {
            let un = upper_text(name);
            lemma_last_dot_upper(name);
            let i = last_dot(name);
            if i > 0 {
                lemma_last_dot_bounds(name);
                lemma_upper_text_subrange(name, i + 1, name.len() as int);
                let e = name.subrange(i + 1, name.len() as int);
                lemma_folds_to_upper(e, "mp4"@);
                lemma_folds_to_upper(e, "mkv"@);
                lemma_folds_to_upper(e, "avi"@);
                lemma_folds_to_upper(e, "mov"@);
                lemma_folds_to_upper(e, "webm"@);
                lemma_folds_to_upper(e, "flv"@);
                lemma_folds_to_upper(e, "wmv"@);
                lemma_folds_to_upper(e, "m4a"@);
            }
        },
        None => {},
    }
}

} // verus!
