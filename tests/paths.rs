use test_env::{join_onto, path_escapes, resolve_working_dir, Capture, OutputStream};

#[test]
fn relative_paths_stay() {
    for p in ["", ".", "a", "a/b", "a/..", "a/./b/../c", "./a", "a//b", "a/", "..a", "a..", "...", "a/b/../../"] {
        assert!(!path_escapes(p), "{p}");
    }
}

#[test]
fn climbing_paths_escape() {
    for p in ["..", "../", "../a", "a/../..", "./..", "a/b/../../../c", "a//../.."] {
        assert!(path_escapes(p), "{p}");
    }
}

#[test]
fn absolute_paths_escape() {
    assert!(path_escapes("/"));
    assert!(path_escapes("/a/b"));
}

#[test]
fn join_inserts_one_separator() {
    assert_eq!(join_onto("/tmp/x", "a/b"), "/tmp/x/a/b");
    assert_eq!(join_onto("/tmp/x/", "a"), "/tmp/x/a");
    assert_eq!(join_onto("/tmp/x", ""), "/tmp/x");
    assert_eq!(join_onto("", "a"), "/a");
}

#[test]
fn resolution_of_overrides() {
    assert_eq!(resolve_working_dir("/r", None), Some("/r".to_string()));
    assert_eq!(resolve_working_dir("/r", Some("s")), Some("/r/s".to_string()));
    assert_eq!(resolve_working_dir("/r", Some("../s")), None);
    assert_eq!(resolve_working_dir("/r", Some("/s")), None);
}

#[test]
fn capture_appends() {
    let mut c = Capture::new();
    assert!(c.contents().is_empty());
    c.write(b"x");
    c.write(b"yz");
    assert_eq!(c.contents(), b"xyz");
}

#[test]
fn stream_passes_bytes_and_flags() {
    let mut s = OutputStream::new(Capture::new(), true, false);
    s.write(b"\x1b[1mhi");
    assert_eq!(s.captured(), b"\x1b[1mhi");
    assert!(s.colors_enabled());
    assert!(!s.is_terminal());
}
