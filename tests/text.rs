use eegmark::command::Invocation;
use eegmark::matching::{capture_group, is_match};
use eegmark::paths::{base_name, join_path, parent_dir, pop_path};
use eegmark::text::{blank, last_nonblank_line, split_lines, trim};

#[test]
fn lines_split_like_std() {
    for s in ["", "a", "a\n", "a\nb", "a\r\nb\r\n", "\n\n", "x\r", "a\n\nb\n", " \r\n\t"] {
        let expected: Vec<String> = s.lines().map(|l| l.to_string()).collect();
        assert_eq!(split_lines(s), expected, "{:?}", s);
    }
}

#[test]
fn last_nonblank_line_skips_blank_ones() {
    assert_eq!(last_nonblank_line("a\nb\n \n\n"), Some("b".to_string()));
    assert_eq!(last_nonblank_line("a\r\n"), Some("a".to_string()));
    assert_eq!(last_nonblank_line(" \n\t\n"), None);
    assert_eq!(last_nonblank_line(""), None);
}

#[test]
fn blank_and_trim() {
    assert!(blank(" \t\r"));
    assert!(blank(""));
    assert!(!blank(" x "));
    assert_eq!(trim("  a b \n"), "a b");
    assert_eq!(trim(" \n "), "");
}

#[test]
fn regex_groups() {
    assert_eq!(capture_group("export (\\S+)=(\\S*);", "export A=b;", 1), Some("A".to_string()));
    assert_eq!(capture_group("export (\\S+)=(\\S*);", "export A=b;", 2), Some("b".to_string()));
    assert_eq!(capture_group("export (\\S+)=(\\S*);", "export A=b;", 3), None);
    assert_eq!(capture_group("export (\\S+)=(\\S*);", "unset A;", 1), None);
    assert_eq!(capture_group("(", "x", 0), None);
    assert!(is_match("no installed packages", "matches no installed packages."));
    assert!(!is_match("no installed packages", "no packages installed"));
}

#[test]
fn path_helpers() {
    assert_eq!(join_path("/a", "b"), "/a/b");
    assert_eq!(join_path("/a/", "b"), "/a/b");
    assert_eq!(join_path("", "b"), "b");
    assert_eq!(parent_dir("/a/b/c"), Some("/a/b".to_string()));
    assert_eq!(parent_dir("/a"), Some("/".to_string()));
    assert_eq!(parent_dir("/"), None);
    assert_eq!(parent_dir("a"), Some("".to_string()));
    assert_eq!(parent_dir(""), None);
    assert_eq!(pop_path("/"), "/");
    assert_eq!(pop_path("/opt/spack/bin/spack"), "/opt/spack/bin");
    assert_eq!(base_name("/a/bench//"), Some("bench".to_string()));
    assert_eq!(base_name("bench"), Some("bench".to_string()));
    assert_eq!(base_name("/a/."), None);
    assert_eq!(base_name("/"), None);
}

#[test]
fn invocation_builder() {
    let mut c = Invocation::new("prog");
    c.arg("a");
    c.args(&vec!["b".to_string(), "c".to_string()]);
    c.env("K", "1");
    c.current_dir("/w");
    let d = c.duplicate();
    c.env_clear();
    assert!(!c.inherit_env && c.envs.is_empty());
    assert_eq!(d.args, vec!["a".to_string(), "b".to_string(), "c".to_string()]);
    assert_eq!(d.envs, vec![("K".to_string(), Some("1".to_string()))]);
    let mut e = Invocation::new("other");
    e.with_envs(&d);
    assert_eq!(e.envs, d.envs);
    assert_eq!(e.current_dir, None);
}
