//! `.changesignore` support: the patterns that are excluded from checkpoint
//! diffs.
//!
//! File format: one pattern per line; lines whose trimmed text starts with
//! `#` are comments; blank lines are ignored. The patterns are used as git
//! `:(exclude)<pattern>` pathspecs. Reading and writing the file is left to
//! the caller, which hands over what it read.

use vstd::prelude::*;
use crate::text::{
    char_vecs_view, chars_of, lines_of, split_lines, string_from_chars, strings_view, trim, trim_chars,
};

verus! {

/// Response of the GET /changes/ignore endpoint.
pub struct ChangesIgnoreResponse {
    /// The parsed exclude patterns (comments and blanks stripped).
    pub patterns: Vec<String>,
    /// The raw file content (for editing in the UI).
    pub raw_content: String,
    /// Where the patterns were loaded from.
    pub source: String,
    /// Absolute path to the .changesignore file.
    pub file_path: String,
}

/// Request of the PUT /changes/ignore endpoint.
pub struct ChangesIgnoreUpdateRequest {
    /// The raw file content to write (preserving comments, formatting).
    pub raw_content: String,
}

/// What an attempt to read the `.changesignore` file found.
pub enum IgnoreFile {
    /// There is no file at the path.
    Missing,
    /// The file exists but could not be read.
    Unreadable,
    /// The file's content.
    Content(String),
}

/// A trimmed line that is a pattern: not blank, not a comment.
pub open spec fn is_pattern(t: Seq<char>) -> bool {
    t.len() > 0 && t[0] != '#'
}

/// The patterns among the given lines, trimmed, in order.
pub open spec fn patterns_of(ls: Seq<Seq<char>>) -> Seq<Seq<char>>
    decreases ls.len(),
{
    if ls.len() == 0 {
        Seq::<Seq<char>>::empty()
    } else {
        let rest = patterns_of(ls.drop_last());
        let t = trim(ls.last());
        if is_pattern(t) {
            rest.push(t)
        } else {
            rest
        }
    }
}

/// The patterns of a `.changesignore` file with this content.
pub open spec fn parsed_patterns(content: Seq<char>) -> Seq<Seq<char>> {
    patterns_of(lines_of(content))
}

/// The built-in patterns used when there is no `.changesignore` file.
pub open spec fn default_pattern_list() -> Seq<Seq<char>> {
    seq![
        "src-tauri/target"@,
        "src-tauri/gen/schemas"@,
        "node_modules"@,
        "dist"@,
        "build"@,
        ".output"@,
        ".vscode"@,
        ".idea"@,
        ".DS_Store"@,
        "Thumbs.db"@,
        "*.lock"@,
        "package-lock.json"@,
        "Cargo.lock"@,
    ]
}

/// The patterns in effect for what was read of the file: its patterns when
/// it could be read, else the built-in ones.
pub open spec fn loaded_patterns(file: Option<Seq<char>>) -> Seq<Seq<char>> {
    match file {
        Some(c) => parsed_patterns(c),
        None => default_pattern_list(),
    }
}

/// The view of what was read of the file: its content, if any.
pub open spec fn ignore_file_content(f: IgnoreFile) -> Option<Seq<char>> {
    match f {
        IgnoreFile::Content(c) => Some(c@),
        _ => None,
    }
}

/// A copy of the given strings.
pub fn clone_strings(v: &[String]) -> (r: Vec<String>)
    ensures
        r@ == v@,
{
    let mut r: Vec<String> = Vec::new();
    let mut i: usize = 0;
    while i < v.len()
        invariant
            i <= v@.len(),
            r@ == v@.take(i as int),
        decreases v@.len() - i,
    {
        r.push(v[i].clone());
        i = i + 1;
        assert(r@ =~= v@.take(i as int));
    }
    assert(v@.take(v@.len() as int) =~= v@);
    r
}

/// Parse patterns from raw `.changesignore` content: every line trimmed,
/// blank lines and comment lines dropped.
pub fn parse_patterns(content: &str) -> (r: Vec<String>)
    ensures
        strings_view(r@) == parsed_patterns(content@),
{
    let chars = chars_of(content);
    let lines = split_lines(&chars);
    let mut r: Vec<String> = Vec::new();
    let mut i: usize = 0;
    while i < lines.len()
        invariant
            i <= lines@.len(),
            char_vecs_view(lines@) == lines_of(content@),
            strings_view(r@) == patterns_of(char_vecs_view(lines@).take(i as int)),
        decreases lines@.len() - i,
    {
        let t = trim_chars(&lines[i]);
        let ghost before = r@;
        let ghost ls = char_vecs_view(lines@).take(i + 1);
        proof {
            assert(ls.drop_last() =~= char_vecs_view(lines@).take(i as int));
            assert(ls.last() == lines@[i as int]@);
        }
        if t.len() > 0 && t[0] != '#' {
            let s = string_from_chars(&t);
            r.push(s);
            assert(strings_view(r@) =~= strings_view(before).push(t@));
        }
        i = i + 1;
    }
    assert(char_vecs_view(lines@).take(lines@.len() as int) =~= char_vecs_view(lines@));
    r
}

/// The built-in default patterns.
pub fn default_patterns() -> (r: Vec<String>)
    ensures
        strings_view(r@) == default_pattern_list(),
{
    let r = vec![
        String::from_str("src-tauri/target"),
        String::from_str("src-tauri/gen/schemas"),
        String::from_str("node_modules"),
        String::from_str("dist"),
        String::from_str("build"),
        String::from_str(".output"),
        String::from_str(".vscode"),
        String::from_str(".idea"),
        String::from_str(".DS_Store"),
        String::from_str("Thumbs.db"),
        String::from_str("*.lock"),
        String::from_str("package-lock.json"),
        String::from_str("Cargo.lock"),
    ];
    assert(strings_view(r@) =~= default_pattern_list());
    r
}

/// The exclude patterns for what was read of the `.changesignore` file: its
/// patterns when it exists and could be read, else the built-in defaults.
pub fn load_patterns(file: &IgnoreFile) -> (r: Vec<String>)
    ensures
        strings_view(r@) == loaded_patterns(ignore_file_content(*file)),
{
    match file {
        IgnoreFile::Content(c) => parse_patterns(c.as_str()),
        _ => default_patterns(),
    }
}

/// Merge explicit `?exclude=` patterns with the `.changesignore` ones:
/// explicit patterns, when there are any, are used as they are; otherwise
/// the patterns of the file (or the defaults) are used.
pub fn merge_excludes(explicit_excludes: &[String], file: &IgnoreFile) -> (r: Vec<String>)
    ensures
        explicit_excludes@.len() > 0 ==> r@ == explicit_excludes@,
        explicit_excludes@.len() == 0 ==> strings_view(r@) == loaded_patterns(
            ignore_file_content(*file),
        ),
{
    if explicit_excludes.len() == 0 {
        load_patterns(file)
    } else {
        clone_strings(explicit_excludes)
    }
}

/// The text written to a new `.changesignore` file: the default patterns,
/// with comments.
pub open spec fn default_file_text() -> Seq<char> {
    "# .changesignore — Patterns to exclude from Changes/Latest diff views\n# One pattern per line. These are passed as git pathspec exclusions.\n# Lines starting with # are comments. Blank lines are ignored.\n#\n# Patterns must match the FULL path as stored in the checkpoint repo.\n# e.g. use \"src-tauri/target\" not just \"target\"\n\n# Rust build output (the big one — 1500+ files)\nsrc-tauri/target\n\n# Generated Tauri schemas (large, auto-generated)\nsrc-tauri/gen/schemas\n\n# Node dependencies\nnode_modules\n\n# Build output\ndist\nbuild\n.output\n\n# Lock files (large, auto-generated)\npackage-lock.json\nCargo.lock\n\n# IDE / OS\n.vscode\n.idea\n.DS_Store\nThumbs.db\n"@
}

/// The default `.changesignore` content, with comments.
pub fn default_file_content() -> (r: String)
    ensures
        r@ == default_file_text(),
{
    String::from_str("# .changesignore — Patterns to exclude from Changes/Latest diff views\n# One pattern per line. These are passed as git pathspec exclusions.\n# Lines starting with # are comments. Blank lines are ignored.\n#\n# Patterns must match the FULL path as stored in the checkpoint repo.\n# e.g. use \"src-tauri/target\" not just \"target\"\n\n# Rust build output (the big one — 1500+ files)\nsrc-tauri/target\n\n# Generated Tauri schemas (large, auto-generated)\nsrc-tauri/gen/schemas\n\n# Node dependencies\nnode_modules\n\n# Build output\ndist\nbuild\n.output\n\n# Lock files (large, auto-generated)\npackage-lock.json\nCargo.lock\n\n# IDE / OS\n.vscode\n.idea\n.DS_Store\nThumbs.db\n")
}

/// The GET /changes/ignore response for what was read at `file_path`:
/// the file's patterns and raw content, or the defaults when the file is
/// missing or unreadable.
pub fn load_full(file_path: String, file: IgnoreFile) -> (r: ChangesIgnoreResponse)
    ensures
        r.file_path == file_path,
        strings_view(r.patterns@) == loaded_patterns(ignore_file_content(file)),
        match file {
            IgnoreFile::Content(c) => r.raw_content == c && r.source@ == "file"@,
            IgnoreFile::Unreadable => r.raw_content@ == default_file_text()
                && r.source@ == "defaults (file read error)"@,
            IgnoreFile::Missing => r.raw_content@ == default_file_text()
                && r.source@ == "defaults (no file)"@,
        },
{
    match file {
        IgnoreFile::Content(content) => {
            let patterns = parse_patterns(content.as_str());
            ChangesIgnoreResponse {
                patterns,
                raw_content: content,
                source: String::from_str("file"),
                file_path,
            }
        },
        IgnoreFile::Unreadable => ChangesIgnoreResponse {
            patterns: default_patterns(),
            raw_content: default_file_content(),
            source: String::from_str("defaults (file read error)"),
            file_path,
        },
        IgnoreFile::Missing => ChangesIgnoreResponse {
            patterns: default_patterns(),
            raw_content: default_file_content(),
            source: String::from_str("defaults (no file)"),
            file_path,
        },
    }
}

/// The PUT /changes/ignore outcome once `raw_content` was written to
/// `file_path`: the error of the write, or the new patterns.
pub fn save_content(file_path: String, raw_content: &str, written: Result<(), String>) -> (r:
    Result<ChangesIgnoreResponse, String>)
    ensures
        match written {
            Err(e) => r matches Err(m) && m@ == "Failed to write .changesignore: "@ + e@,
            Ok(_) => r matches Ok(resp) && {
                &&& resp.file_path == file_path
                &&& resp.raw_content@ == raw_content@
                &&& resp.source@ == "file"@
                &&& strings_view(resp.patterns@) == parsed_patterns(raw_content@)
            },
        },
{
    match written {
        Err(e) => {
            let msg = String::from_str("Failed to write .changesignore: ").concat(e.as_str());
            Err(msg)
        },
        Ok(_) => {
            let patterns = parse_patterns(raw_content);
            Ok(
                ChangesIgnoreResponse {
                    patterns,
                    raw_content: String::from_str(raw_content),
                    source: String::from_str("file"),
                    file_path,
                },
            )
        },
    }
}

/// What a save reports is what a later load reads: once `raw` is the
/// file's content, loading it gives the patterns that `save_content`
/// returned for `raw`, and merging with no explicit excludes uses them.
pub proof fn law_ignore_saved_then_loaded(raw: Seq<char>)
    ensures
        loaded_patterns(Some(raw)) == parsed_patterns(raw),
{
}

} // verus!
