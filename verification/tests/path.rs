use om_rs::path::{directory, join_path};
use std::path::Path;

#[test]
fn join_path_puts_one_separator_between() {
    assert_eq!(join_path("/usr", "bin"), "/usr/bin");
    assert_eq!(join_path("/usr/", "bin"), "/usr/bin");
    assert_eq!(join_path("", "bin"), "bin");
    assert_eq!(join_path("/usr", ""), "/usr/");
}

#[test]
fn join_path_takes_an_absolute_path_as_it_is() {
    assert_eq!(join_path("/usr", "/bin/sh"), "/bin/sh");
}

#[test]
fn join_path_agrees_with_the_standard_library() {
    let parts = ["", "/", "a", "a/", "/a", "a/b", "a//", ".", "..", "/a/./b/", "\u{e9}"];
    for base in parts {
        for path in parts {
            let expected = Path::new(base).join(path);
            assert_eq!(join_path(base, path), expected.to_str().unwrap());
        }
    }
}

fn std_directory(path: &str) -> Option<String> {
    Path::new(path).parent().map(|dir| dir.to_str().unwrap().to_string())
}

#[test]
fn directory_leaves_out_the_last_component() {
    let some = |dir: &str| Some(dir.to_string());
    assert_eq!(directory("/tmp/om/Test"), some("/tmp/om"));
    assert_eq!(directory("om/Test"), some("om"));
    assert_eq!(directory("/Test"), some("/"));
    assert_eq!(directory("Test"), some(""));
    assert_eq!(directory("../Test"), some(".."));
    assert_eq!(directory("./Test"), some("."));
    assert_eq!(directory("/tmp/a./Test"), some("/tmp/a."));
    assert_eq!(directory("/tmp//Test"), some("/tmp"));
    assert_eq!(directory("/tmp/./Test/."), some("/tmp"));
    assert_eq!(directory("\u{e9}/b"), some("\u{e9}"));
}

#[test]
fn the_empty_path_and_the_root_lie_in_no_directory() {
    for path in ["", "/", "//", "/.", "/./", "//./."] {
        assert_eq!(directory(path), None);
        assert_eq!(std_directory(path), None);
    }
}

#[test]
fn directory_agrees_with_the_standard_library() {
    let mut paths = vec![String::new()];
    let mut first = 0;
    for _ in 0..8 {
        let last = paths.len();
        for i in first..last {
            for c in ['/', '.', 'a'] {
                let longer = format!("{}{}", paths[i], c);
                paths.push(longer);
            }
        }
        first = last;
    }
    assert_eq!(paths.len(), 9841);
    for path in paths {
        assert_eq!(directory(&path), std_directory(&path), "{}", path);
    }
}

#[test]
fn what_follows_the_last_component_does_not_matter() {
    for path in ["a/b", "/a", "a", "..", "./a"] {
        assert_eq!(directory(&format!("{}/", path)), directory(path));
        assert_eq!(directory(&format!("{}/.", path)), directory(path));
    }
}

#[test]
fn a_neighbour_lies_in_the_same_directory() {
    for (path, expected) in [("/tmp/a", "/tmp/b"), ("a", "b"), ("/a", "/b"), ("../a", "../b")] {
        let dir = directory(path).unwrap();
        assert_eq!(join_path(&dir, "b"), expected);
    }
}
