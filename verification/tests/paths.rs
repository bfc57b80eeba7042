use inspyr::paths::{
    extension_of, file_name_of, is_hidden_name, is_hidden_path, is_image_extension, is_image_path,
    join_path, text_eq,
};

#[test]
fn file_name_of_plain_and_trailing_separators() {
    assert_eq!(file_name_of(b"/home/u/a.jpg"), Some(&b"a.jpg"[..]));
    assert_eq!(file_name_of(b"/home/u/dir/"), Some(&b"dir"[..]));
    assert_eq!(file_name_of(b"x//y//"), Some(&b"y"[..]));
    assert_eq!(file_name_of(b"a/."), Some(&b"a"[..]));
    assert_eq!(file_name_of(b"./x"), Some(&b"x"[..]));
    assert_eq!(file_name_of(b"a/./b/."), Some(&b"b"[..]));
}

#[test]
fn file_name_of_none_cases() {
    assert_eq!(file_name_of(b""), None);
    assert_eq!(file_name_of(b"/"), None);
    assert_eq!(file_name_of(b"."), None);
    assert_eq!(file_name_of(b"./"), None);
    assert_eq!(file_name_of(b"a/.."), None);
    assert_eq!(file_name_of(b".."), None);
}

#[test]
fn file_name_of_agrees_with_std() {
    let cases = ["/a/b.png", "a/b/", "/", "", ".", "..", "a/..", "./x", "x/./.", "//x//", "a/.b", "..."];
    for c in cases {
        let ours = file_name_of(c.as_bytes());
        let std = std::path::Path::new(c).file_name().map(|n| n.as_encoded_bytes());
        assert_eq!(ours, std, "file name of {:?}", c);
        let ours_ext = extension_of(c.as_bytes());
        let std_ext = std::path::Path::new(c).extension().map(|n| n.as_encoded_bytes());
        assert_eq!(ours_ext, std_ext, "extension of {:?}", c);
    }
}

#[test]
fn extension_rules() {
    assert_eq!(extension_of(b"/p/photo.JPG"), Some(&b"JPG"[..]));
    assert_eq!(extension_of(b"/p/a.tar.gz"), Some(&b"gz"[..]));
    assert_eq!(extension_of(b"/p/a."), Some(&b""[..]));
    assert_eq!(extension_of(b"/p/.hidden"), None);
    assert_eq!(extension_of(b"/p.d/file"), None);
    assert_eq!(extension_of(b"/p/.."), None);
}

#[test]
fn image_paths() {
    assert!(is_image_path(b"/p/a.jpg"));
    assert!(is_image_path(b"/p/a.JPG"));
    assert!(is_image_path(b"/p/a.jpeg"));
    assert!(is_image_path(b"/p/a.png"));
    assert!(is_image_path(b"/p/a.gif"));
    assert!(is_image_path(b"/p/a.webp"));
    assert!(is_image_path(b"/p/a.bmp"));
    assert!(is_image_path(b"/p/a.TiFf"));
    assert!(!is_image_path(b"/p/a.txt"));
    assert!(!is_image_path(b"/p/.png"));
    assert!(!is_image_path(b"/p/png"));
    assert!(!is_image_path(b"/p/a.jpgx"));
    assert!(is_image_path(b"/p/a.png/"));
    assert!(is_image_path(b"\xff.png"));
}

#[test]
fn image_extension_ignores_case() {
    assert!(is_image_extension(b"JPEG"));
    assert!(is_image_extension(b"jPeG"));
    assert!(!is_image_extension(b"jpe"));
    assert!(!is_image_extension(b""));
}

#[test]
fn hidden_names_and_paths() {
    assert!(is_hidden_name(b".git"));
    assert!(is_hidden_name(b"."));
    assert!(!is_hidden_name(b"git"));
    assert!(!is_hidden_name(b""));
    assert!(!is_hidden_name(b".\xff"));
    assert!(is_hidden_path(b"/home/u/.cache/"));
    assert!(!is_hidden_path(b"/home/.u/pics"));
    assert!(!is_hidden_path(b"/"));
}

#[test]
fn join_paths() {
    assert_eq!(join_path("/home/u", ".inspyr"), "/home/u/.inspyr");
    assert_eq!(join_path("/home/u/", "x"), "/home/u/x");
    assert_eq!(join_path("", "x"), "x");
    assert_eq!(join_path("/a", "/b"), "/b");
    let std = std::path::Path::new("/home/u").join(".inspyr");
    assert_eq!(join_path("/home/u", ".inspyr"), std.to_str().unwrap());
}

#[test]
fn text_equality() {
    assert!(text_eq("photos", "photos"));
    assert!(!text_eq("photos", "photo"));
    assert!(!text_eq("é", "e"));
}
