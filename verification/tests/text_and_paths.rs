use file_sync::paths::{join, mirror_path, relative_path};
use file_sync::text::{chars_of, extension, file_name, find_last, path_extension};

#[test]
fn chars_of_lists_the_characters() {
    assert_eq!(chars_of("a/é.x"), vec!['a', '/', 'é', '.', 'x']);
    assert_eq!(chars_of(""), Vec::<char>::new());
}

#[test]
fn find_last_gives_the_last_position() {
    assert_eq!(find_last(&vec!['a', '.', 'b', '.', 'c'], '.'), Some(3));
    assert_eq!(find_last(&vec!['.', 'a'], '.'), Some(0));
    assert_eq!(find_last(&vec!['a', 'b'], '.'), None);
    assert_eq!(find_last(&vec![], '.'), None);
}

#[test]
fn file_name_is_what_follows_the_last_separator() {
    assert_eq!(file_name("/a/b/c.txt"), "c.txt");
    assert_eq!(file_name("c.txt"), "c.txt");
    assert_eq!(file_name("/a/b/"), "");
    assert_eq!(file_name("./src/readme.md"), "readme.md");
    assert_eq!(file_name("/données/été.md"), "été.md");
}

#[test]
fn extension_is_what_follows_the_last_dot() {
    assert_eq!(extension("readme.md"), Some("md"));
    assert_eq!(extension("archive.tar.gz"), Some("gz"));
    assert_eq!(extension("a.TXT"), Some("TXT"));
    assert_eq!(extension("trailing."), Some(""));
    assert_eq!(extension("..."), Some(""));
    assert_eq!(extension(".a.b"), Some("b"));
}

#[test]
fn extension_is_missing_without_an_inner_dot() {
    assert_eq!(extension("Makefile"), None);
    assert_eq!(extension(".bashrc"), None);
    assert_eq!(extension(".."), None);
    assert_eq!(extension("."), None);
    assert_eq!(extension(""), None);
}

#[test]
fn path_extension_looks_at_the_last_component_only() {
    assert_eq!(path_extension("/a.d/b"), None);
    assert_eq!(path_extension("/a.d/b.md"), Some("md"));
    assert_eq!(path_extension("/a/.hidden"), None);
    assert_eq!(path_extension("/a.d/"), None);
}

#[test]
fn relative_path_strips_the_root_and_one_separator() {
    assert_eq!(relative_path("/data/src", "/data/src/a/b.md"), Some("a/b.md"));
    assert_eq!(relative_path("/data/src/", "/data/src/a/b.md"), Some("a/b.md"));
    assert_eq!(relative_path("./src", "./src/readme.md"), Some("readme.md"));
    assert_eq!(relative_path("", "a/b.md"), Some("a/b.md"));
    assert_eq!(relative_path("/", "/a/b.md"), Some("a/b.md"));
}

#[test]
fn relative_path_is_missing_outside_the_root() {
    assert_eq!(relative_path("/data/src", "/data/srcs/a.md"), None);
    assert_eq!(relative_path("/data/src", "/data/src"), None);
    assert_eq!(relative_path("/data/src", "/data/src/"), None);
    assert_eq!(relative_path("/data/src", "/data/src//a.md"), None);
    assert_eq!(relative_path("/data/src", "/other/a.md"), None);
    assert_eq!(relative_path("/data/src", "/data"), None);
    assert_eq!(relative_path("", "/a/b.md"), None);
    assert_eq!(relative_path("/data/src/", "/data/src"), None);
}

#[test]
fn join_puts_one_separator_between() {
    assert_eq!(join("/out", "a/b.md"), "/out/a/b.md");
    assert_eq!(join("/out/", "a/b.md"), "/out/a/b.md");
    assert_eq!(join("", "a/b.md"), "a/b.md");
    assert_eq!(join("output_dir", "readme.md"), "output_dir/readme.md");
}

#[test]
fn mirror_path_keeps_the_position_below_the_root() {
    assert_eq!(
        mirror_path("/data/src", "/data/src/docs/guide/intro.md", "/backup"),
        Some("/backup/docs/guide/intro.md".to_string())
    );
    assert_eq!(mirror_path("./src", "./src/readme.md", "output_dir"), Some("output_dir/readme.md".to_string()));
    assert_eq!(mirror_path("/data/src", "/elsewhere/a.md", "/backup"), None);
}

#[test]
fn mirror_path_gives_two_files_two_destinations() {
    let first = mirror_path("/r", "/r/a/b.md", "/out");
    let second = mirror_path("/r", "/r/a.b/md", "/out");
    assert!(first.is_some() && second.is_some());
    assert_ne!(first, second);
}
