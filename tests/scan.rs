use hermit::deps::{
    line_local_path, listing_command_args, local_dependency_paths, probe_paths, watch_all,
    watch_paths,
};
use hermit::text::{is_utf8, split_lines};

fn b(s: &str) -> Vec<u8> {
    s.as_bytes().to_vec()
}

fn names(v: &[&str]) -> Vec<Vec<u8>> {
    v.iter().map(|s| b(s)).collect()
}

const LISTING: &str = "hermit-kernel v0.6.7 (/src/kernel)\n\
ahash v0.8.3\n\
hermit-entry v0.9.2\n\
hermit-macro v0.1.0 (proc-macro) (/src/kernel/hermit-macro)\n\
x86 v0.52.0\r\n\
xtask v0.1.0 (/src/kernel/xtask)\r\n";

#[test]
fn lines_split_like_text_lines() {
    assert_eq!(split_lines(b"a\nb\r\n\nc"), names(&["a", "b", "", "c"]));
    assert_eq!(split_lines(b"a\n"), names(&["a"]));
    assert_eq!(split_lines(b"a\r"), names(&["a\r"]));
    assert_eq!(split_lines(b""), names(&[]));
    assert_eq!(split_lines(b"\n"), names(&[""]));
}

#[test]
fn local_path_of_a_line() {
    assert_eq!(line_local_path(b"foo v1.0.0 (/a/b)"), Some(b("/a/b")));
    assert_eq!(line_local_path(b"foo v1.0.0"), None);
    assert_eq!(line_local_path(b"foo v1.0.0 (proc-macro) (/a/b)"), None);
    assert_eq!(line_local_path(b"foo v1.0.0 (/a/b"), Some(b("/a/b")));
    assert_eq!(line_local_path(b"foo )/x( y"), Some(b("/x")));
    assert_eq!(line_local_path(b"foo ()"), None);
}

#[test]
fn listing_yields_local_paths_in_order() {
    let paths = local_dependency_paths(LISTING.as_bytes());
    assert_eq!(paths, names(&["/src/kernel", "/src/kernel/xtask"]));
    assert_eq!(local_dependency_paths(LISTING.as_bytes()), paths);
}

#[test]
fn listing_without_local_paths_is_empty() {
    assert!(local_dependency_paths(b"ahash v0.8.3\nx86 v0.52.0\n").is_empty());
    assert!(local_dependency_paths(b"").is_empty());
}

#[test]
fn watched_files_with_lock_and_build_script() {
    assert_eq!(
        watch_paths(b"/d", true, true),
        names(&["/d/src", "/d/Cargo.toml", "/d/Cargo.lock", "/d/build.rs"])
    );
}

#[test]
fn watched_files_without_optional_files() {
    assert_eq!(watch_paths(b"/d", false, false), names(&["/d/src", "/d/Cargo.toml"]));
    assert_eq!(watch_paths(b"/d", false, true), names(&["/d/src", "/d/Cargo.toml", "/d/build.rs"]));
}

#[test]
fn probes_and_answers_line_up() {
    let deps = names(&["/a", "/b"]);
    assert_eq!(
        probe_paths(&deps),
        names(&["/a/Cargo.lock", "/a/build.rs", "/b/Cargo.lock", "/b/build.rs"])
    );
    assert_eq!(
        watch_all(&deps, &vec![false, true, true, false]),
        names(&["/a/src", "/a/Cargo.toml", "/a/build.rs", "/b/src", "/b/Cargo.toml", "/b/Cargo.lock"])
    );
    assert_eq!(
        watch_all(&deps, &vec![true]),
        names(&["/a/src", "/a/Cargo.toml", "/a/Cargo.lock", "/b/src", "/b/Cargo.toml"])
    );
}

#[test]
fn listing_arguments() {
    assert_eq!(
        listing_command_args(b"/k/Cargo.toml"),
        names(&["tree", "--manifest-path=/k/Cargo.toml", "--prefix=none", "--workspace"])
    );
}

#[test]
fn only_local_path_lines_are_watched() {
    let listing = "foo v1.0.0\nbar v0.1.0 (/a/bar)\nbaz v2.0.0 (https://github.com/x/baz#abc)\nzed v0.3.0 (/b/zed) (*)\n";
    let deps = local_dependency_paths(listing.as_bytes());
    assert_eq!(deps, names(&["/a/bar", "/b/zed"]));
    assert_eq!(
        watch_all(&deps, &vec![false, false, false, false]),
        names(&["/a/bar/src", "/a/bar/Cargo.toml", "/b/zed/src", "/b/zed/Cargo.toml"])
    );
}

#[test]
fn utf8_validation() {
    assert!(is_utf8(b"plain ascii"));
    assert!(is_utf8("\u{e9}t\u{e9} \u{20ac} \u{1f600}".as_bytes()));
    assert!(is_utf8(b""));
    assert!(!is_utf8(&[0xff]));
    assert!(!is_utf8(&[0xc3]));
    assert!(!is_utf8(&[0xc0, 0x80]));
    assert!(!is_utf8(&[0xed, 0xa0, 0x80]));
    assert!(!is_utf8(&[0xf4, 0x90, 0x80, 0x80]));
    assert!(!is_utf8(&[b'a', 0x80]));
}
