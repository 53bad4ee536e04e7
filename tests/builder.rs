use test_env::{BuildError, TestEnvBuilder};

fn root_of(dir: &tempfile::TempDir) -> String {
    dir.path().to_str().unwrap().to_owned()
}

#[test]
fn appended_arguments_reach_env() {
    let t = TestEnvBuilder::new().arg_slice(&["--flag", "value"]).build().unwrap();
    assert_eq!(t.env().arguments(), &["--flag".to_string(), "value".to_string()]);
}

#[test]
fn arguments_keep_order_across_chained_appends() {
    let t = TestEnvBuilder::new()
        .arg("a")
        .arg_slice(&["b", "c"])
        .arg("d")
        .arg_slice(&[])
        .arg("a")
        .build()
        .unwrap();
    let expected: Vec<String> = vec!["a", "b", "c", "d", "a"].into_iter().map(String::from).collect();
    assert_eq!(t.env().arguments(), expected.as_slice());
}

#[test]
fn no_arguments_by_default() {
    let t = TestEnvBuilder::new().build().unwrap();
    assert!(t.env().arguments().is_empty());
}

#[test]
fn default_working_dir_is_sandbox_root() {
    let t = TestEnvBuilder::new().build().unwrap();
    assert_eq!(t.env().current_dir(), t.root());
    assert_eq!(t.root(), root_of(t.tempdir()));
    assert!(std::path::Path::new(t.env().current_dir()).is_dir());
}

#[test]
fn override_is_joined_onto_root() {
    let t = TestEnvBuilder::new().current_dir("sub/dir").build().unwrap();
    assert_eq!(t.env().current_dir(), format!("{}/sub/dir", root_of(t.tempdir())));
}

#[test]
fn override_that_climbs_back_stays_inside() {
    let t = TestEnvBuilder::new().current_dir("a/../b/./c/..").build().unwrap();
    assert_eq!(t.env().current_dir(), format!("{}/a/../b/./c/..", t.root()));
}

#[test]
fn empty_override_is_the_root() {
    let t = TestEnvBuilder::new().current_dir("").build().unwrap();
    assert_eq!(t.env().current_dir(), t.root());
}

#[test]
fn override_above_root_is_rejected() {
    let r = TestEnvBuilder::new().current_dir("..").build();
    assert!(matches!(r, Err(BuildError::EscapesSandbox)));
    let r = TestEnvBuilder::new().current_dir("a/../../x").build();
    assert!(matches!(r, Err(BuildError::EscapesSandbox)));
    let r = TestEnvBuilder::new().current_dir("a/b/../../..").build();
    assert!(matches!(r, Err(BuildError::EscapesSandbox)));
}

#[test]
fn absolute_override_is_rejected() {
    let r = TestEnvBuilder::new().current_dir("/etc").build();
    assert!(matches!(r, Err(BuildError::EscapesSandbox)));
}

#[test]
fn terminal_without_color_request_has_no_color() {
    let t = TestEnvBuilder::new().out_is_term().build().unwrap();
    assert!(!t.env().out().colors_enabled());
    assert!(t.env().out().is_terminal());
}

#[test]
fn color_needs_terminal_and_request() {
    for (term, color) in [(false, false), (false, true), (true, false), (true, true)] {
        let mut b = TestEnvBuilder::new().use_color(color);
        if term {
            b = b.out_is_term();
        }
        let t = b.build().unwrap();
        assert_eq!(t.env().out().colors_enabled(), term && color);
        assert_eq!(t.env().out().is_terminal(), term);
    }
}

#[test]
fn error_styling_follows_its_own_flag() {
    for style in [false, true] {
        for (term, color) in [(false, false), (false, true), (true, false), (true, true)] {
            let mut b = TestEnvBuilder::new().use_color(color).err_style(style);
            if term {
                b = b.out_is_term();
            }
            let t = b.build().unwrap();
            assert_eq!(t.env().err().colors_enabled(), style);
            assert!(!t.env().err().is_terminal());
            assert_eq!(t.env().out().colors_enabled(), term && color);
        }
    }
}

#[test]
fn default_flags_are_off() {
    let t = TestEnvBuilder::new().build().unwrap();
    assert!(!t.env().out().colors_enabled());
    assert!(!t.env().out().is_terminal());
    assert!(!t.env().err().colors_enabled());
    assert!(!t.env().err().is_terminal());
}

#[test]
fn supplied_sandbox_is_reused() {
    let dir = tempfile::tempdir().unwrap();
    let path = root_of(&dir);
    let seed = tempfile::NamedTempFile::new_in(dir.path()).unwrap();
    let name = seed.path().file_name().unwrap().to_owned();
    let t = TestEnvBuilder::new().tempdir(dir).build().unwrap();
    assert_eq!(t.root(), path);
    assert_eq!(root_of(t.tempdir()), path);
    assert!(std::path::Path::new(t.env().current_dir()).join(&name).is_file());
}

#[test]
fn supplied_sandbox_with_override() {
    let dir = tempfile::tempdir().unwrap();
    let path = root_of(&dir);
    let t = TestEnvBuilder::new().current_dir("x").tempdir(dir).build().unwrap();
    assert_eq!(t.env().current_dir(), format!("{}/x", path));
}

#[test]
fn environments_are_isolated() {
    let mut a = TestEnvBuilder::new().build().unwrap();
    let mut b = TestEnvBuilder::new().build().unwrap();
    assert_ne!(a.root(), b.root());
    assert!(a.captured_out().is_empty());
    assert!(a.captured_err().is_empty());
    a.write_out(b"hello");
    b.write_err(b"oops");
    assert_eq!(a.captured_out(), b"hello");
    assert!(a.captured_err().is_empty());
    assert!(b.captured_out().is_empty());
    assert_eq!(b.captured_err(), b"oops");
}

#[test]
fn writes_accumulate_in_order() {
    let mut t = TestEnvBuilder::new().build().unwrap();
    t.write_out(b"ab");
    t.write_out(b"");
    t.write_out(b"cd");
    assert_eq!(t.captured_out(), b"abcd");
    assert_eq!(t.env().out().captured(), b"abcd");
}
