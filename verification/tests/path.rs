use treats::PathToString;
use std::path::{Path, PathBuf};

#[test]
fn path_path_to_string() {
    let path_str = "/path/to/whatever";
    let path = Path::new(path_str);

    assert_eq!(path.to_lossy_string(), path.to_string_lossy().to_string());
    assert_eq!(path.to_string(), path.to_str().map(ToString::to_string));

    assert_eq!(path.to_lossy_string(), path_str);
    assert_eq!(path.to_string().unwrap(), path_str);

    let path = PathBuf::from(path_str);

    assert_eq!(path.to_lossy_string(), path.to_string_lossy().to_string());
    assert_eq!(path.to_string(), path.to_str().map(ToString::to_string));

    assert_eq!(path.to_lossy_string(), path_str);
    assert_eq!(path.to_string().unwrap(), path_str);
}

#[test]
fn strict_conversion_agrees_with_lossy_on_valid_text() {
    let path = Path::new("résumé/notes.txt");
    assert_eq!(path.to_string(), Some(path.to_lossy_string()));
    assert_eq!(path.to_lossy_string(), "résumé/notes.txt");

    let buf = PathBuf::from("résumé/notes.txt");
    assert_eq!(buf.to_string(), Some(buf.to_lossy_string()));
    assert_eq!(buf.to_lossy_string(), "résumé/notes.txt");
}

#[test]
fn empty_path_converts_to_empty_text() {
    let path = Path::new("");
    assert_eq!(path.to_lossy_string(), "");
    assert_eq!(path.to_string(), Some(String::new()));
}
