use rustwget::download::name_for_parsed;
use rustwget::error::DownloadError;
use rustwget::filename::{choose_filename, derive_filename};

fn path(segments: &[&str]) -> Option<Vec<String>> {
    Some(segments.iter().map(|s| s.to_string()).collect())
}

#[test]
fn derive_takes_the_last_segment() {
    assert_eq!(derive_filename(&path(&["dir", "file.txt"])), "file.txt");
    assert_eq!(derive_filename(&path(&["file.txt"])), "file.txt");
}

#[test]
fn derive_skips_empty_segments() {
    assert_eq!(derive_filename(&path(&["dir", ""])), "dir");
    assert_eq!(derive_filename(&path(&["a", "", "b", "", ""])), "b");
    assert_eq!(derive_filename(&path(&["", "x"])), "x");
}

#[test]
fn derive_falls_back_to_index_html() {
    assert_eq!(derive_filename(&None), "index.html");
    assert_eq!(derive_filename(&path(&[])), "index.html");
    assert_eq!(derive_filename(&path(&[""])), "index.html");
    assert_eq!(derive_filename(&path(&["", "", ""])), "index.html");
}

#[test]
fn derived_name_is_never_empty() {
    for segments in [
        vec![],
        vec![""],
        vec!["a"],
        vec!["a", ""],
        vec!["", "a"],
        vec!["", ""],
    ] {
        assert!(!derive_filename(&path(&segments)).is_empty());
    }
    assert!(!derive_filename(&None).is_empty());
}

#[test]
fn choose_prefers_the_given_name() {
    assert_eq!(
        choose_filename(Some("out.txt"), &path(&["dir", "file.txt"])),
        "out.txt"
    );
    assert_eq!(choose_filename(Some("out.txt"), &None), "out.txt");
    assert_eq!(choose_filename(Some("out.txt"), &path(&[""])), "out.txt");
}

#[test]
fn choose_derives_without_a_given_name() {
    assert_eq!(
        choose_filename(None, &path(&["dir", "file.txt"])),
        "file.txt"
    );
    assert_eq!(choose_filename(None, &path(&[""])), "index.html");
    assert_eq!(choose_filename(None, &None), "index.html");
}

#[test]
fn parsed_path_names_the_file() {
    assert_eq!(
        name_for_parsed(Ok(path(&["dir", "file.txt"])), None),
        Ok("file.txt".to_string())
    );
    assert_eq!(
        name_for_parsed(Ok(path(&["dir", "file.txt"])), Some("out.txt")),
        Ok("out.txt".to_string())
    );
    assert_eq!(name_for_parsed(Ok(None), None), Ok("index.html".to_string()));
}

#[test]
fn parse_failure_beats_a_given_name() {
    assert_eq!(
        name_for_parsed(Err("empty host".to_string()), Some("out.txt")),
        Err(DownloadError::UrlParse("empty host".to_string()))
    );
    assert_eq!(
        name_for_parsed(Err("empty host".to_string()), None),
        Err(DownloadError::UrlParse("empty host".to_string()))
    );
}
