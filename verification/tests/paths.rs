use codex_ws::text::path_file_name;

#[test]
fn path_file_name_takes_final_component() {
    assert_eq!(path_file_name("/projects/backend"), Some("backend".to_owned()));
    assert_eq!(path_file_name("projects/backend/"), Some("backend".to_owned()));
    assert_eq!(path_file_name("/projects/backend//"), Some("backend".to_owned()));
    assert_eq!(path_file_name("/projects/backend/."), Some("backend".to_owned()));
    assert_eq!(path_file_name("/projects/backend/./"), Some("backend".to_owned()));
    assert_eq!(path_file_name("backend"), Some("backend".to_owned()));
    assert_eq!(path_file_name("./backend"), Some("backend".to_owned()));
    assert_eq!(path_file_name("/a/.hidden"), Some(".hidden".to_owned()));
}

#[test]
fn path_file_name_has_none_for_roots_and_dots() {
    assert_eq!(path_file_name(""), None);
    assert_eq!(path_file_name("/"), None);
    assert_eq!(path_file_name("//"), None);
    assert_eq!(path_file_name("."), None);
    assert_eq!(path_file_name("./"), None);
    assert_eq!(path_file_name("/."), None);
    assert_eq!(path_file_name(".."), None);
    assert_eq!(path_file_name("/a/.."), None);
}

#[test]
fn path_file_name_matches_std_path() {
    for path in [
        "/projects/backend",
        "a/b/",
        "a/./",
        "/x/y/./.",
        "./",
        "/",
        "a/..",
        "..a",
        "a..",
        "/tmp/workspace.yaml",
    ] {
        let expected = std::path::Path::new(path)
            .file_name()
            .map(|name| name.to_str().expect("test paths are UTF-8").to_owned());
        assert_eq!(path_file_name(path), expected, "path {path:?}");
    }
}
