//! Language detection for tracked files, and the normalisation of the
//! file references that editors report.

use vstd::prelude::*;
use crate::paths::{extension, extension_of};
use crate::text::{to_chars, has_prefix, is_prefix, substring, from_chars, str_eq};

verus! {

/// What `percent_encoding` makes of `s`: the percent-decoded bytes read as
/// UTF-8, or nothing when they are not valid UTF-8.
pub uninterp spec fn percent_decoded_utf8(s: Seq<char>) -> Option<Seq<char>>;

/// What `percent_encoding` makes of `s`: the percent-decoded bytes read as
/// UTF-8, invalid sequences replaced by U+FFFD.
pub uninterp spec fn percent_decoded_lossy(s: Seq<char>) -> Seq<char>;

/// The name `tokei` gives the language of files with extension `ext`.
pub uninterp spec fn language_for_extension(ext: Seq<char>) -> Option<Seq<char>>;

/// Calls `percent_encoding::percent_decode_str(s).decode_utf8()`.
/// Claims: the result is the named decoding of `s`, and a text without
/// `%` decodes to itself (the source returns the input bytes unchanged).
#[verifier::external_body]
fn percent_decode_utf8(s: &str) -> (r: Option<String>)
    ensures
        r.deep_view() == percent_decoded_utf8(s@),
        (forall|i: int| 0 <= i < s@.len() ==> s@[i] != '%') ==> r.deep_view() == Some(s@),
{
    percent_encoding::percent_decode_str(s).decode_utf8().ok().map(|c| c.into_owned())
}

/// Calls `percent_encoding::percent_decode_str(s).decode_utf8_lossy()`.
/// Claims: the result is the named lossy decoding of `s`, and a text
/// without `%` decodes to itself.
#[verifier::external_body]
fn percent_decode_lossy(s: &str) -> (r: String)
    ensures
        r@ == percent_decoded_lossy(s@),
        (forall|i: int| 0 <= i < s@.len() ==> s@[i] != '%') ==> r@ == s@,
{
    percent_encoding::percent_decode_str(s).decode_utf8_lossy().into_owned()
}

/// Calls `tokei::LanguageType::from_file_extension(ext)` and, for a
/// language, its `name()`. Claims only that the result is the named one:
/// it depends on the extension alone.
#[verifier::external_body]
fn language_name_for_extension(ext: &str) -> (r: Option<String>)
    ensures
        r.deep_view() == language_for_extension(ext@),
{
    tokei::LanguageType::from_file_extension(ext).map(|l| l.name().to_string())
}

/// The language of a (possibly percent-encoded) file path, by extension.
pub open spec fn language_by_extension(path: Seq<char>) -> Option<Seq<char>> {
    match extension_of(percent_decoded_lossy(path)) {
        Some(e) => language_for_extension(e),
        None => None,
    }
}

/// The language of a file: by extension, or else what the caller found
/// in the file's contents (`file_language`).
pub open spec fn detected_language(path: Seq<char>, file_language: Option<Seq<char>>) -> Option<Seq<char>> {
    match language_by_extension(path) {
        Some(l) => Some(l),
        None => file_language,
    }
}

/// The language of the file at `file_path` (percent-encoded paths are
/// decoded first), judged by its extension.
pub fn language_from_extension(file_path: &str) -> (r: Option<String>)
    ensures
        r.deep_view() == language_by_extension(file_path@),
{
    let decoded = percent_decode_lossy(file_path);
    match extension(decoded.as_str()) {
        Some(e) => language_name_for_extension(e.as_str()),
        None => None,
    }
}

/// Detects the language of the file at `file_path`: by its extension,
/// or else `file_language`, the language found in the file's contents by
/// the caller (which reads the file).
pub fn detect_language(file_path: &str, file_language: Option<String>) -> (r: Option<String>)
    ensures
        r.deep_view() == detected_language(file_path@, file_language.deep_view()),
{
    match language_from_extension(file_path) {
        Some(l) => Some(l),
        None => file_language,
    }
}

/// Whether the file's contents must be read to tell its language: its
/// extension names none.
pub fn contents_needed(file_path: &str) -> (r: bool)
    ensures
        r == (language_by_extension(file_path@) is None),
{
    language_from_extension(file_path).is_none()
}

/// Index of the language with the most lines of code among `stats`
/// (language name, lines of code), the last one among equals.
pub open spec fn most_code_index(stats: Seq<(String, u64)>) -> int
    decreases stats.len(),
{
    if stats.len() <= 1 {
        0
    } else {
        let k = most_code_index(stats.drop_last());
        if stats.last().1 >= stats[k].1 { stats.len() - 1 } else { k }
    }
}

proof fn lemma_most_code_index(stats: Seq<(String, u64)>)
    requires
        stats.len() > 0,
    ensures
        0 <= most_code_index(stats) < stats.len(),
        forall|j: int| 0 <= j < stats.len() ==> (#[trigger] stats[j]).1 <= stats[most_code_index(stats)].1,
        forall|j: int| most_code_index(stats) < j < stats.len() ==> (#[trigger] stats[j]).1 < stats[most_code_index(
            stats,
        )].1,
    decreases stats.len(),
{
    if stats.len() > 1 {
        let d = stats.drop_last();
        lemma_most_code_index(d);
        let k = most_code_index(d);
        assert(d[k] == stats[k]);
        assert forall|j: int| 0 <= j < stats.len() implies (#[trigger] stats[j]).1 <= stats[most_code_index(stats)].1 by {
            if j < stats.len() - 1 {
                assert(d[j] == stats[j]);
            }
        }
        assert forall|j: int| most_code_index(stats) < j < stats.len() implies (#[trigger] stats[j]).1
            < stats[most_code_index(stats)].1 by {
            if j < stats.len() - 1 {
                assert(d[j] == stats[j]);
            }
        }
    }
}

/// The language found in a file's contents, from the per-language line
/// counts `tokei` gives for it (in its order): the one with the most
/// lines of code, the last one among equals; none when there is none.
pub open spec fn contents_language_of(stats: Seq<(String, u64)>) -> Option<Seq<char>> {
    if stats.len() == 0 { None } else { Some(stats[most_code_index(stats)].0@) }
}

/// Picks the language of a file from the line counts of its contents
/// (see [`contents_language_of`]).
pub fn contents_language(stats: &Vec<(String, u64)>) -> (r: Option<String>)
    ensures
        r.deep_view() == contents_language_of(stats@),
        r is Some ==> forall|j: int| 0 <= j < stats@.len() ==> (#[trigger] stats@[j]).1 <= stats@[most_code_index(stats@)].1,
        r is Some ==> forall|j: int| most_code_index(stats@) < j < stats@.len() ==> (#[trigger] stats@[j]).1
            < stats@[most_code_index(stats@)].1,
        r is Some ==> 0 <= most_code_index(stats@) < stats@.len(),
{
    if stats.len() == 0 {
        return None;
    }
    let mut best: usize = 0;
    let mut i: usize = 1;
    assert(stats@.take(1).len() == 1);
    while i < stats.len()
        invariant
            1 <= i <= stats@.len(),
            best == most_code_index(stats@.take(i as int)),
        decreases stats@.len() - i,
    {
        proof {
            lemma_most_code_index(stats@.take(i as int));
            assert(stats@.take(i + 1).drop_last() =~= stats@.take(i as int));
            assert(stats@.take(i as int)[best as int] == stats@[best as int]);
        }
        if stats[i].1 >= stats[best].1 {
            best = i;
        }
        i += 1;
    }
    assert(stats@.take(stats@.len() as int) =~= stats@);
    proof {
        lemma_most_code_index(stats@);
    }
    Some(stats[best].0.clone())
}

/// A file reference made into a path: `file://` references are
/// percent-decoded and made absolute; empty input is no file.
pub open spec fn normalized_file(input: Seq<char>) -> Option<Seq<char>> {
    if input.len() == 0 {
        None
    } else if is_prefix("file://"@, input) {
        match percent_decoded_utf8(input.skip("file://"@.len() as int)) {
            None => None,
            Some(d) => if d.len() > 0 && d[0] == '/' { Some(d) } else { Some(seq!['/'] + d) },
        }
    } else {
        Some(input)
    }
}

/// Turns an editor's document reference into a file path.
pub fn normalize_file(input: &str) -> (r: Option<String>)
    ensures
        r.deep_view() == normalized_file(input@),
{
    let v = to_chars(input);
    if v.len() == 0 {
        return None;
    }
    let prefix = to_chars("file://");
    if has_prefix(&v, &prefix) {
        let rest = substring(&v, prefix.len(), v.len());
        assert(rest@ == input@.skip("file://"@.len() as int));
        match percent_decode_utf8(rest.as_str()) {
            None => None,
            Some(d) => {
                let dv = to_chars(d.as_str());
                if dv.len() > 0 && dv[0] == '/' {
                    Some(d)
                } else {
                    let mut out: Vec<char> = Vec::new();
                    out.push('/');
                    let mut i: usize = 0;
                    while i < dv.len()
                        invariant
                            i <= dv@.len(),
                            out@ == seq!['/'] + dv@.take(i as int),
                        decreases dv@.len() - i,
                    {
                        out.push(dv[i]);
                        assert(dv@.take(i + 1) =~= dv@.take(i as int).push(dv@[i as int]));
                        i += 1;
                    }
                    assert(dv@.take(dv@.len() as int) =~= dv@);
                    Some(from_chars(&out))
                }
            },
        }
    } else {
        Some(String::from_str(input))
    }
}

/// `s` with every leading repetition of `p` removed.
pub open spec fn strip_prefixes(p: Seq<char>, s: Seq<char>) -> Seq<char>
    decreases s.len(),
{
    if p.len() > 0 && is_prefix(p, s) {
        strip_prefixes(p, s.skip(p.len() as int))
    } else {
        s
    }
}

/// The text after the last `/` of `s` (all of `s` when there is none).
pub open spec fn after_last_slash(s: Seq<char>) -> Seq<char> {
    s.skip(crate::paths::last_slash(s) + 1)
}

/// The entity Xcode reports for its active document: the path behind a
/// `file://` reference, the reported text itself, or `unknown` when
/// there is no document.
pub open spec fn xcode_entity_of(active_file: Seq<char>) -> Seq<char> {
    if is_prefix("file://"@, active_file) {
        strip_prefixes("file://"@, active_file)
    } else if active_file != "No active document"@ && active_file != "unknown"@ {
        active_file
    } else {
        "unknown"@
    }
}

fn strip_all_prefixes(v: &Vec<char>, p: &Vec<char>) -> (k: usize)
    requires
        p@.len() > 0,
    ensures
        k <= v@.len(),
        v@.skip(k as int) == strip_prefixes(p@, v@),
{
    let mut k: usize = 0;
    let n = v.len();
    assert(v@.skip(0) =~= v@);
    loop
        invariant
            p@.len() > 0,
            v@.len() == n,
            k <= v@.len(),
            strip_prefixes(p@, v@) == strip_prefixes(p@, v@.skip(k as int)),
        decreases v@.len() - k,
    {
        let rest = substring_chars(v, k);
        if has_prefix(&rest, p) {
            assert(v@.skip(k as int).skip(p@.len() as int) =~= v@.skip(k + p@.len()));
            assert(p@.len() <= rest@.len());
            k = k + p.len();
        } else {
            return k;
        }
    }
}

fn substring_chars(v: &Vec<char>, k: usize) -> (r: Vec<char>)
    requires
        k <= v@.len(),
    ensures
        r@ == v@.skip(k as int),
{
    let mut out: Vec<char> = Vec::new();
    let mut i = k;
    while i < v.len()
        invariant
            k <= i <= v@.len(),
            out@ == v@.subrange(k as int, i as int),
        decreases v@.len() - i,
    {
        out.push(v[i]);
        assert(v@.subrange(k as int, i + 1) =~= v@.subrange(k as int, i as int).push(v@[i as int]));
        i += 1;
    }
    assert(v@.subrange(k as int, v@.len() as int) =~= v@.skip(k as int));
    out
}

/// The entity for Xcode's active-document report (see [`xcode_entity_of`]).
pub fn xcode_entity(active_file: &str) -> (r: String)
    ensures
        r@ == xcode_entity_of(active_file@),
{
    let v = to_chars(active_file);
    let p = to_chars("file://");
    proof {
        reveal_strlit("file://");
    }
    if has_prefix(&v, &p) {
        let k = strip_all_prefixes(&v, &p);
        substring(&v, k, v.len())
    } else if !str_eq(active_file, "No active document") && !str_eq(active_file, "unknown") {
        String::from_str(active_file)
    } else {
        String::from_str("unknown")
    }
}

/// Project and document of the frontmost Xcode window.
pub struct XcodeProjectDetails {
    pub project_name: Option<String>,
    pub project_path: Option<String>,
    pub entity_name: String,
    pub language_name: Option<String>,
}

/// The project path Xcode reports, unless it is `unknown` or empty.
pub open spec fn xcode_project_path_of(reported: Seq<char>) -> Option<Seq<char>> {
    if reported != "unknown"@ && reported.len() > 0 { Some(reported) } else { None }
}

/// Project and document details from what Xcode reported: the path of
/// its active workspace document and the value of its window's document
/// attribute (`unknown` where the query failed). `file_language` is the
/// language the caller found in the contents of the entity file.
pub fn get_xcode_project_details(
    project_path_output: &str,
    active_file_output: &str,
    file_language: Option<String>,
) -> (r: XcodeProjectDetails)
    ensures
        r.project_path.deep_view() == xcode_project_path_of(project_path_output@),
        r.project_name.deep_view() == (match xcode_project_path_of(project_path_output@) {
            Some(p) => Some(after_last_slash(p)),
            None => None,
        }),
        r.entity_name@ == xcode_entity_of(active_file_output@),
        r.language_name.deep_view() == detected_language(
            xcode_entity_of(active_file_output@),
            file_language.deep_view(),
        ),
{
    let pv = to_chars(project_path_output);
    let (project_path, project_name) = if !str_eq(project_path_output, "unknown") && pv.len() > 0 {
        let start = match find_last_slash_in(&pv) {
            Some(k) => k + 1,
            None => 0,
        };
        assert(pv@.subrange(start as int, pv@.len() as int) =~= pv@.skip(start as int));
        (Some(String::from_str(project_path_output)), Some(substring(&pv, start, pv.len())))
    } else {
        (None, None)
    };
    let entity_name = xcode_entity(active_file_output);
    let language_name = detect_language(entity_name.as_str(), file_language);
    XcodeProjectDetails { project_name, project_path, entity_name, language_name }
}

fn find_last_slash_in(v: &Vec<char>) -> (r: Option<usize>)
    ensures
        match r {
            None => crate::paths::last_slash(v@) == -1,
            Some(k) => crate::paths::last_slash(v@) == k && k < v@.len(),
        },
{
    let mut i = v.len();
    assert(v@.take(i as int) =~= v@);
    while i > 0
        invariant
            i <= v@.len(),
            crate::paths::last_slash(v@) == crate::paths::last_slash(v@.take(i as int)),
        decreases i,
    {
        if v[i - 1] == '/' {
            return Some(i - 1);
        }
        assert(v@.take(i as int).drop_last() =~= v@.take(i - 1));
        i -= 1;
    }
    None
}

} // verus!
