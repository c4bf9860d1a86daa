use hugo_to_json::file_location::FileLocation;
use std::path::PathBuf;

fn texts(parts: &[&str]) -> Option<Vec<Option<String>>> {
    Some(parts.iter().map(|p| Some(p.to_string())).collect())
}

#[test]
fn from_parts_joins_directories_before_the_file() {
    let loc = FileLocation::from_parts(
        "/blog/content/sub/post/example.md",
        true,
        false,
        Some(String::from("md")),
        Some(String::from("example.md")),
        Some(String::from("example")),
        texts(&["sub", "post", "example.md"]),
    )
    .unwrap();
    assert_eq!(loc.relative_directory_to_content, "sub/post");
    assert_eq!(loc.extension, "md");
    assert_eq!(loc.file_name, "example.md");
    assert_eq!(loc.file_stem, "example");
    assert_eq!(loc.absolute_path, "/blog/content/sub/post/example.md");
    assert_eq!(loc.message(), "/blog/content/sub/post/example.md");
}

#[test]
fn from_parts_keeps_directories_named_like_the_file() {
    let loc = FileLocation::from_parts(
        "/c/a/x.md/b/x.md",
        true,
        false,
        Some(String::from("md")),
        Some(String::from("x.md")),
        Some(String::from("x")),
        texts(&["a", "x.md", "b", "x.md"]),
    )
    .unwrap();
    assert_eq!(loc.relative_directory_to_content, "a/x.md/b");
}

#[test]
fn from_parts_leaves_out_directories_that_are_not_unicode() {
    let loc = FileLocation::from_parts(
        "/c/a/\u{fffd}/b/x.md",
        false,
        false,
        Some(String::from("md")),
        Some(String::from("x.md")),
        Some(String::from("x")),
        Some(vec![Some(String::from("a")), None, Some(String::from("b")), Some(String::from("x.md"))]),
    )
    .unwrap();
    assert_eq!(loc.relative_directory_to_content, "a/b");
}

#[test]
fn from_parts_reports_each_missing_part() {
    let dir = FileLocation::from_parts("/c/d", true, true, None, None, None, None).unwrap_err();
    assert_eq!(dir.message(), "Skipped: Skipping /c/d. Not a file");
    let dir_bad = FileLocation::from_parts("/c/\u{fffd}", false, true, None, None, None, None)
        .unwrap_err();
    assert_eq!(dir_bad.message(), "Skipped: Skipping . Not a file");
    let ext = FileLocation::from_parts("/c/README", true, false, None, None, None, None)
        .unwrap_err();
    assert_eq!(ext.message(), "Path manipulaiton error: Skipping /c/README. Failed to determine extension.");
    let name = FileLocation::from_parts(
        "/c/..",
        true,
        false,
        Some(String::from("x")),
        None,
        None,
        None,
    )
    .unwrap_err();
    assert_eq!(name.message(), "Path manipulaiton error: Skipping /c/... Failed to retrieve file name.");
    let stem = FileLocation::from_parts(
        "/c/a.md",
        true,
        false,
        Some(String::from("md")),
        Some(String::from("a.md")),
        None,
        None,
    )
    .unwrap_err();
    assert_eq!(stem.message(), "Path manipulaiton error: Skipping /c/a.md. Failed to retrieve file stem.");
    let sub = FileLocation::from_parts(
        "/c/a.md",
        true,
        false,
        Some(String::from("md")),
        Some(String::from("a.md")),
        Some(String::from("a")),
        None,
    )
    .unwrap_err();
    assert_eq!(sub.message(), "Path manipulaiton error: Skipping /c/a.md. Failed to retrieve sub directory.");
}

#[test]
fn from_path_reads_the_parts_of_a_path() {
    let loc = FileLocation::from_path(
        &PathBuf::from("/home/blog/content/post/2019/My.Post.md"),
        false,
        &PathBuf::from("/home/blog/content"),
    )
    .unwrap();
    assert_eq!(loc.extension, "md");
    assert_eq!(loc.file_name, "My.Post.md");
    assert_eq!(loc.file_stem, "My.Post");
    assert_eq!(loc.relative_directory_to_content, "post/2019");
    assert_eq!(loc.absolute_path, "/home/blog/content/post/2019/My.Post.md");
}

#[test]
fn from_path_at_top_of_content_directory() {
    let loc = FileLocation::from_path(
        &PathBuf::from("./blog/content/example.md"),
        false,
        &PathBuf::from("./blog/content"),
    )
    .unwrap();
    assert_eq!(loc.relative_directory_to_content, "");
}

#[test]
fn from_path_keeps_directory_named_like_the_file() {
    let loc =
        FileLocation::from_path(&PathBuf::from("c/a/x.md/x.md"), false, &PathBuf::from("c")).unwrap();
    assert_eq!(loc.relative_directory_to_content, "a/x.md");
}

#[test]
fn from_path_splits_extension_at_last_dot() {
    let content = PathBuf::from("/c");
    let dotted = FileLocation::from_path(&PathBuf::from("/c/archive.tar.gz"), false, &content).unwrap();
    assert_eq!(dotted.extension, "gz");
    assert_eq!(dotted.file_stem, "archive.tar");
    let trailing = FileLocation::from_path(&PathBuf::from("/c/notes."), false, &content).unwrap();
    assert_eq!(trailing.extension, "");
    assert_eq!(trailing.file_stem, "notes");
    let hidden = FileLocation::from_path(&PathBuf::from("/c/.hidden"), false, &content).unwrap_err();
    assert_eq!(
        hidden.message(),
        "Path manipulaiton error: Skipping /c/.hidden. Failed to determine extension."
    );
}

#[test]
fn from_path_of_the_content_directory_itself() {
    let loc = FileLocation::from_path(
        &PathBuf::from("/c/page.md"),
        false,
        &PathBuf::from("/c/page.md"),
    )
    .unwrap();
    assert_eq!(loc.relative_directory_to_content, "");
    assert_eq!(loc.file_name, "page.md");
}

#[test]
fn from_path_outside_content_directory_fails() {
    let err = FileLocation::from_path(
        &PathBuf::from("/other/example.md"),
        false,
        &PathBuf::from("/blog/content"),
    )
    .unwrap_err();
    assert_eq!(
        err.message(),
        "Path manipulaiton error: Skipping /other/example.md. Failed to retrieve sub directory."
    );
}

#[test]
fn from_path_without_extension_fails() {
    let err = FileLocation::from_path(
        &PathBuf::from("/blog/content/README"),
        false,
        &PathBuf::from("/blog/content"),
    )
    .unwrap_err();
    assert_eq!(
        err.message(),
        "Path manipulaiton error: Skipping /blog/content/README. Failed to determine extension."
    );
}

#[test]
fn from_path_of_a_directory_is_skipped() {
    let err = FileLocation::from_path(&PathBuf::from("/c/sub"), true, &PathBuf::from("/c"))
        .unwrap_err();
    assert_eq!(err.message(), "Skipped: Skipping /c/sub. Not a file");
}

#[test]
fn new_locates_walked_entries() {
    let root = tempfile::Builder::new().prefix("content").tempdir().unwrap();
    let nested = tempfile::Builder::new().prefix("nested").tempdir_in(root.path()).unwrap();
    let file = tempfile::Builder::new()
        .prefix("Example")
        .suffix(".md")
        .tempfile_in(nested.path())
        .unwrap();
    let content_dir = root.path().to_path_buf();
    let nested_name = nested.path().file_name().unwrap().to_str().unwrap().to_owned();
    let file_name = file.path().file_name().unwrap().to_str().unwrap().to_owned();

    let mut seen_file = false;
    let mut seen_dir = false;
    for entry in walkdir::WalkDir::new(&content_dir) {
        let entry = entry.unwrap();
        let located = FileLocation::new(&entry, &content_dir);
        if entry.file_type().is_dir() {
            let err = located.unwrap_err();
            let expected = format!("Skipped: Skipping {}. Not a file", entry.path().to_str().unwrap());
            assert_eq!(err.message(), expected);
            seen_dir = true;
        } else {
            let loc = located.unwrap();
            assert_eq!(loc.extension, "md");
            assert_eq!(loc.file_name, file_name);
            assert_eq!(loc.file_stem, file_name.trim_end_matches(".md"));
            assert_eq!(loc.relative_directory_to_content, nested_name);
            assert_eq!(loc.absolute_path, file.path().to_str().unwrap());
            seen_file = true;
        }
    }
    assert!(seen_file && seen_dir);
}

