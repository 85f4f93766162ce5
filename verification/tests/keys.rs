use r2_explorer::r2::keys::{file_name, folder_display_name, folder_key, is_folder_key};

#[test]
fn folder_key_adds_missing_delimiter() {
    assert_eq!(folder_key("docs"), "docs/");
    assert_eq!(folder_key("docs/"), "docs/");
    assert_eq!(folder_key(""), "/");
    assert_eq!(folder_key("a/b"), "a/b/");
}

#[test]
fn is_folder_key_looks_at_last_character() {
    assert!(is_folder_key("a/"));
    assert!(is_folder_key("/"));
    assert!(!is_folder_key(""));
    assert!(!is_folder_key("a/b.txt"));
}

#[test]
fn file_name_is_last_segment() {
    assert_eq!(file_name("c.txt"), "c.txt");
    assert_eq!(file_name("a/b.txt"), "b.txt");
    assert_eq!(file_name("a/b/"), "");
    assert_eq!(file_name(""), "");
    assert_eq!(file_name("图片/猫.png"), "猫.png");
}

#[test]
fn folder_display_name_drops_trailing_delimiters() {
    assert_eq!(folder_display_name("a/"), "a");
    assert_eq!(folder_display_name("photos/2024/"), "2024");
    assert_eq!(folder_display_name("photos/2024//"), "2024");
    assert_eq!(folder_display_name("/"), "");
    assert_eq!(folder_display_name(""), "");
    assert_eq!(folder_display_name("plain"), "plain");
}
