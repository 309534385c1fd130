use hermit::directive::{Directive, DirectiveKind};
use hermit::invoke::{
    artifact_dir, home_tool_path, kernel_build_args, removed_env_vars, target_dir, tool_name,
    tool_program,
};

fn b(s: &str) -> Vec<u8> {
    s.as_bytes().to_vec()
}

fn names(v: &[&str]) -> Vec<Vec<u8>> {
    v.iter().map(|s| b(s)).collect()
}

#[test]
fn output_directories() {
    assert_eq!(target_dir(b"/out"), b("/out/target"));
    assert_eq!(target_dir(b"/out/"), b("/out/target"));
    assert_eq!(artifact_dir(b"/out", b"x86_64", b"debug"), b("/out/target/x86_64/debug"));
}

#[test]
fn tool_location() {
    assert_eq!(tool_name(b".exe"), b("cargo.exe"));
    assert_eq!(home_tool_path(b"/home/u/.cargo", b""), b("/home/u/.cargo/bin/cargo"));
    assert_eq!(tool_program(b"/home/u/.cargo", b"", true), b("/home/u/.cargo/bin/cargo"));
    assert_eq!(tool_program(b"/home/u/.cargo", b"", false), b("cargo"));
}

#[test]
fn toolchain_variables_are_removed() {
    let env = names(&["PATH", "CARGO_HOME", "RUSTFLAGS", "HOME", "CARGO", "RUST", "XCARGO"]);
    assert_eq!(
        removed_env_vars(&env),
        names(&["LD_LIBRARY_PATH", "CARGO_HOME", "RUSTFLAGS", "CARGO", "RUST"])
    );
    assert_eq!(removed_env_vars(&Vec::new()), names(&["LD_LIBRARY_PATH"]));
}

#[test]
fn build_arguments_plain() {
    let args = kernel_build_args(b"/out", b"x86_64", b"release", &Vec::new());
    assert_eq!(
        args,
        names(&[
            "run",
            "--package=xtask",
            "--target-dir",
            "/out/target",
            "--",
            "build",
            "--arch",
            "x86_64",
            "--profile",
            "release",
            "--target-dir",
            "/out/target",
            "--no-default-features",
        ])
    );
}

#[test]
fn build_arguments_with_features() {
    let env = names(&[
        "CARGO_FEATURE_TCP",
        "CARGO_FEATURE_RANDOMIZE_LAYOUT",
        "CARGO_FEATURE_SMP",
        "CARGO_FEATURE_INSTRUMENT",
    ]);
    let args = kernel_build_args(b"/out", b"aarch64", b"debug", &env);
    assert_eq!(
        args,
        names(&[
            "run",
            "--package=xtask",
            "--target-dir",
            "/out/target",
            "--",
            "build",
            "--arch",
            "aarch64",
            "--profile",
            "dev",
            "--target-dir",
            "/out/target",
            "--instrument-mcount",
            "--randomize-layout",
            "--no-default-features",
            "--features",
            "smp tcp",
        ])
    );
}

#[test]
fn directives_render_as_lines() {
    let d = Directive::new(DirectiveKind::LinkSearchNative, b("/t/x86_64/debug"));
    assert_eq!(d.render(), b("cargo:rustc-link-search=native=/t/x86_64/debug"));
    let d = Directive::new(DirectiveKind::LinkStatic, b("hermit"));
    assert_eq!(d.render(), b("cargo:rustc-link-lib=static=hermit"));
    let d = Directive::new(DirectiveKind::RerunIfChanged, b("/k/src"));
    assert_eq!(d.render(), b("cargo:rerun-if-changed=/k/src"));
    let d = Directive::new(DirectiveKind::RerunIfEnvChanged, b("V"));
    assert_eq!(d.render(), b("cargo:rerun-if-env-changed=V"));
}

#[test]
fn unknown_features_are_not_forwarded() {
    let env = names(&["CARGO_FEATURE_TCP", "CARGO_FEATURE_SMP", "CARGO_FEATURE_FOO"]);
    let args = kernel_build_args(b"/out", b"x86_64", b"debug", &env);
    assert_eq!(args[args.len() - 3..].to_vec(), names(&["--no-default-features", "--features", "smp tcp"]));
}
