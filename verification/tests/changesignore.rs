use cline_xray::changesignore::{
    default_patterns, load_full, load_patterns, merge_excludes, parse_patterns, save_content,
    IgnoreFile,
};

#[test]
fn test_parse_patterns() {
    let content = r#"
# Comment line
target
  node_modules  

# Another comment
dist

.DS_Store
"#;
    let patterns = parse_patterns(content);
    assert_eq!(patterns, vec!["target", "node_modules", "dist", ".DS_Store"]);
}

#[test]
fn test_parse_empty() {
    assert!(parse_patterns("").is_empty());
    assert!(parse_patterns("# only comments\n# here").is_empty());
}

#[test]
fn test_merge_with_explicit() {
    let explicit = vec!["foo".to_string(), "bar".to_string()];
    let merged = merge_excludes(&explicit, &IgnoreFile::Missing);
    assert_eq!(merged, vec!["foo", "bar"]);
}

#[test]
fn test_merge_empty_loads_defaults() {
    let merged = merge_excludes(&[], &IgnoreFile::Missing);
    // Should return at least the built-in defaults (or file-loaded patterns)
    assert!(!merged.is_empty());
}

#[test]
fn parse_patterns_crlf_and_tabs() {
    let patterns = parse_patterns("a\r\n\t b \t\r\n#c\r\n  # d\nlast");
    assert_eq!(patterns, vec!["a", "b", "last"]);
}

#[test]
fn merge_empty_uses_file_patterns() {
    let file = IgnoreFile::Content("x\n# y\nz\n".to_string());
    assert_eq!(merge_excludes(&[], &file), vec!["x", "z"]);
}

#[test]
fn load_patterns_unreadable_gives_defaults() {
    let p = load_patterns(&IgnoreFile::Unreadable);
    assert_eq!(p, default_patterns());
    assert_eq!(p.len(), 13);
    assert_eq!(p[0], "src-tauri/target");
    assert_eq!(p[12], "Cargo.lock");
}

#[test]
fn load_full_sources() {
    let r = load_full("/p/.changesignore".to_string(), IgnoreFile::Missing);
    assert_eq!(r.source, "defaults (no file)");
    assert_eq!(r.file_path, "/p/.changesignore");
    assert!(r.raw_content.starts_with("# .changesignore"));
    assert_eq!(parse_patterns(&r.raw_content).len(), 12);
    let r = load_full("f".to_string(), IgnoreFile::Unreadable);
    assert_eq!(r.source, "defaults (file read error)");
    let r = load_full("f".to_string(), IgnoreFile::Content("a\nb".to_string()));
    assert_eq!(r.source, "file");
    assert_eq!(r.raw_content, "a\nb");
    assert_eq!(r.patterns, vec!["a", "b"]);
}

#[test]
fn save_content_outcomes() {
    let ok = save_content("f".to_string(), "x\n", Ok(())).unwrap();
    assert_eq!(ok.patterns, vec!["x"]);
    assert_eq!(ok.source, "file");
    let err = save_content("f".to_string(), "x\n", Err("denied".to_string()));
    assert_eq!(err.err().unwrap(), "Failed to write .changesignore: denied");
}
