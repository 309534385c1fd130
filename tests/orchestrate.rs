use hermit::abi::Priority;
use hermit::directive::{Directive, DirectiveKind};
use hermit::invoke::Command;
use hermit::orchestrator::{Action, BuildContext, BuildError, Event, Orchestrator};

fn b(s: &str) -> Vec<u8> {
    s.as_bytes().to_vec()
}

fn names(v: &[&str]) -> Vec<Vec<u8>> {
    v.iter().map(|s| b(s)).collect()
}

fn context(os: &str) -> BuildContext {
    BuildContext {
        target_os: b(os),
        target_arch: b("x86_64"),
        profile: b("debug"),
        env_names: names(&["CARGO_FEATURE_TCP", "CARGO_FEATURE_SMP", "PATH"]),
        out_dir: b("/out"),
        kernel_dir: b("/src/kernel"),
        tool_home: Some(b("/home/u/.cargo")),
        exe_suffix: b(""),
        lint_only: false,
        docs_only: false,
    }
}

fn lines(ds: &[Directive]) -> Vec<String> {
    ds.iter().map(|d| String::from_utf8(d.render()).unwrap()).collect()
}

fn expect_check(a: Action) -> Vec<u8> {
    match a {
        Action::CheckFile(p) => p,
        _ => panic!("expected a file check"),
    }
}

fn expect_build(a: Action) -> Command {
    match a {
        Action::RunBuild(c) => c,
        _ => panic!("expected the kernel build"),
    }
}

fn expect_listing(a: Action) -> Command {
    match a {
        Action::RunListing(c) => c,
        _ => panic!("expected a dependency listing"),
    }
}

fn expect_fail(a: Action) -> BuildError {
    match a {
        Action::Fail(e) => e,
        _ => panic!("expected a failure"),
    }
}

/// Drives a run up to the launch of the kernel build.
fn until_build(o: &mut Orchestrator) -> Command {
    assert_eq!(expect_check(o.step(Event::Begin)), b("/src/kernel/Cargo.toml"));
    assert_eq!(expect_check(o.step(Event::Exists(true))), b("/home/u/.cargo/bin/cargo"));
    expect_build(o.step(Event::Exists(true)))
}

#[test]
fn other_platform_does_nothing() {
    let mut o = Orchestrator::new(context("linux"));
    match o.step(Event::Begin) {
        Action::Finish(ds) => assert!(ds.is_empty()),
        _ => panic!("expected an immediate finish"),
    }
    assert_eq!(expect_fail(o.step(Event::Exists(true))), BuildError::UnexpectedEvent);
}

#[test]
fn lint_and_docs_passes_do_nothing() {
    let mut ctx = context("hermit");
    ctx.lint_only = true;
    let mut o = Orchestrator::new(ctx);
    assert!(matches!(o.step(Event::Begin), Action::Finish(ref ds) if ds.is_empty()));
    let mut ctx = context("hermit");
    ctx.docs_only = true;
    let mut o = Orchestrator::new(ctx);
    assert!(matches!(o.step(Event::Begin), Action::Finish(ref ds) if ds.is_empty()));
}

#[test]
fn full_run_links_and_watches() {
    let mut o = Orchestrator::new(context("hermit"));
    let cmd = until_build(&mut o);
    assert_eq!(cmd.program, b("/home/u/.cargo/bin/cargo"));
    assert_eq!(cmd.dir, b("/src/kernel"));
    assert_eq!(cmd.args[9], b("dev"));
    assert_eq!(cmd.args[cmd.args.len() - 1], b("smp tcp"));
    assert_eq!(
        cmd.env_remove,
        names(&["LD_LIBRARY_PATH", "CARGO_FEATURE_TCP", "CARGO_FEATURE_SMP"])
    );
    match o.step(Event::Exited(true)) {
        Action::Canonicalize(p) => assert_eq!(p, b("/out/target/x86_64/debug")),
        _ => panic!("expected the library directory to be resolved"),
    }
    let listing = expect_listing(o.step(Event::Resolved(Some(b("/out/target/x86_64/debug")))));
    assert_eq!(listing.args[1], b("--manifest-path=/src/kernel/Cargo.toml"));
    assert!(listing.dir.is_empty());
    let out = b"hermit-kernel v0.6.7 (/src/kernel)\nahash v0.8.3\n".to_vec();
    match o.step(Event::Listed(Some(out))) {
        Action::CheckFiles(fs) => {
            assert_eq!(fs, names(&["/src/kernel/Cargo.lock", "/src/kernel/build.rs"]))
        }
        _ => panic!("expected file checks"),
    }
    let listing = expect_listing(o.step(Event::Found(vec![true, true])));
    assert_eq!(listing.args[1], b("--manifest-path=/src/kernel/hermit-builtins/Cargo.toml"));
    match o.step(Event::Listed(Some(b"hermit-builtins v0.1.0 (/src/kernel/hermit-builtins)\n".to_vec()))) {
        Action::CheckFiles(fs) => assert_eq!(fs.len(), 2),
        _ => panic!("expected file checks"),
    }
    match o.step(Event::Found(vec![false, false])) {
        Action::Finish(ds) => {
            assert_eq!(
                lines(&ds),
                vec![
                    "cargo:rustc-link-search=native=/out/target/x86_64/debug",
                    "cargo:rustc-link-lib=static=hermit",
                    "cargo:rerun-if-changed=/src/kernel/Cargo.toml",
                    "cargo:rerun-if-changed=/src/kernel/src",
                    "cargo:rerun-if-changed=/src/kernel/Cargo.toml",
                    "cargo:rerun-if-changed=/src/kernel/Cargo.lock",
                    "cargo:rerun-if-changed=/src/kernel/build.rs",
                    "cargo:rerun-if-changed=/src/kernel/hermit-builtins/Cargo.toml",
                    "cargo:rerun-if-changed=/src/kernel/hermit-builtins/src",
                    "cargo:rerun-if-changed=/src/kernel/hermit-builtins/Cargo.toml",
                    "cargo:rerun-if-changed=/src/kernel/rust-toolchain.toml",
                    "cargo:rerun-if-env-changed=HERMIT_LOG_LEVEL_FILTER",
                ]
            );
            assert_eq!(ds[0].kind, DirectiveKind::LinkSearchNative);
        }
        _ => panic!("expected the run to finish"),
    }
    assert_eq!(expect_fail(o.step(Event::Begin)), BuildError::UnexpectedEvent);
}

#[test]
fn missing_sources_fail_before_any_launch() {
    let mut o = Orchestrator::new(context("hermit"));
    expect_check(o.step(Event::Begin));
    match o.step(Event::Exists(false)) {
        Action::Fetch(dir, url) => {
            assert_eq!(dir, b("/out/kernel-0.6.7"));
            assert_eq!(
                url,
                b("https://github.com/hermitcore/kernel/archive/refs/tags/v0.6.7.tar.gz")
            );
        }
        _ => panic!("expected a fetch"),
    }
    assert_eq!(expect_fail(o.step(Event::Fetched(None))), BuildError::SourceNotFound);
    assert_eq!(expect_fail(o.step(Event::Exited(true))), BuildError::UnexpectedEvent);
}

#[test]
fn fetched_sources_without_manifest_fail() {
    let mut o = Orchestrator::new(context("hermit"));
    expect_check(o.step(Event::Begin));
    o.step(Event::Exists(false));
    assert_eq!(
        expect_check(o.step(Event::Fetched(Some(b("/out/kernel-0.6.7"))))),
        b("/out/kernel-0.6.7/Cargo.toml")
    );
    assert_eq!(expect_fail(o.step(Event::Exists(false))), BuildError::SourceNotFound);
}

#[test]
fn fetched_sources_are_built() {
    let mut o = Orchestrator::new(context("hermit"));
    expect_check(o.step(Event::Begin));
    o.step(Event::Exists(false));
    expect_check(o.step(Event::Fetched(Some(b("/out/kernel-0.6.7")))));
    expect_check(o.step(Event::Exists(true)));
    let cmd = expect_build(o.step(Event::Exists(false)));
    assert_eq!(cmd.program, b("cargo"));
    assert_eq!(cmd.dir, b("/out/kernel-0.6.7"));
}

#[test]
fn failed_build_links_nothing() {
    let mut o = Orchestrator::new(context("hermit"));
    until_build(&mut o);
    assert_eq!(expect_fail(o.step(Event::Exited(false))), BuildError::NestedBuildFailed);
    assert_eq!(
        expect_fail(o.step(Event::Resolved(Some(b("/x"))))),
        BuildError::UnexpectedEvent
    );
    assert!(o.directives.is_empty());
}

#[test]
fn missing_library_directory_fails() {
    let mut o = Orchestrator::new(context("hermit"));
    until_build(&mut o);
    o.step(Event::Exited(true));
    assert_eq!(expect_fail(o.step(Event::Resolved(None))), BuildError::ArtifactMissing);
}

#[test]
fn failed_listing_fails() {
    let mut o = Orchestrator::new(context("hermit"));
    until_build(&mut o);
    o.step(Event::Exited(true));
    expect_listing(o.step(Event::Resolved(Some(b("/lib")))));
    assert_eq!(expect_fail(o.step(Event::Listed(None))), BuildError::DependencyListingFailed);
}

#[test]
fn unknown_tool_home_builds_with_bare_name() {
    let mut ctx = context("hermit");
    ctx.tool_home = None;
    let mut o = Orchestrator::new(ctx);
    expect_check(o.step(Event::Begin));
    let cmd = expect_build(o.step(Event::Exists(true)));
    assert_eq!(cmd.program, b("cargo"));
    assert_eq!(cmd.dir, b("/src/kernel"));
    assert!(matches!(o.step(Event::Exited(true)), Action::Canonicalize(_)));
    let listing = expect_listing(o.step(Event::Resolved(Some(b("/lib")))));
    assert_eq!(listing.program, b("cargo"));
}

#[test]
fn build_that_cannot_start_fails_resolution() {
    let mut o = Orchestrator::new(context("hermit"));
    until_build(&mut o);
    assert_eq!(expect_fail(o.step(Event::StartFailed)), BuildError::ToolchainResolutionFailed);
}

#[test]
fn listing_that_is_not_utf8_fails() {
    let mut o = Orchestrator::new(context("hermit"));
    until_build(&mut o);
    o.step(Event::Exited(true));
    expect_listing(o.step(Event::Resolved(Some(b("/lib")))));
    let out = vec![b'x', b' ', b'(', b'/', 0xff, b')', b'\n'];
    assert_eq!(expect_fail(o.step(Event::Listed(Some(out)))), BuildError::DependencyListingFailed);
    assert!(o.directives.len() == 2);
}

#[test]
fn event_out_of_turn_fails() {
    let mut o = Orchestrator::new(context("hermit"));
    assert_eq!(expect_fail(o.step(Event::Exists(true))), BuildError::UnexpectedEvent);
}

#[test]
fn priority_round_trip() {
    assert_eq!(Priority::from(3).into(), 3);
    assert_eq!(Priority::from(0).into(), 0);
    assert!(Priority::from(1) < Priority::from(2));
}
