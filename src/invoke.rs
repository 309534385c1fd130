//! Build invoker: the command that builds the kernel, and the environment it
//! runs in.
use vstd::prelude::*;
use crate::features::{
    enabled, select, kernel_features, profile_token, space_joined, has_feature,
    forwarded_features, translate_profile, join_with_spaces,
};
use crate::text::{ascii, views, join, has_prefix, lit, concat, join_path, starts_with};

verus! {

/// A command for the kernel's build tool: the program, the directory it runs
/// in, its arguments, and the variables removed from its environment.
pub struct Command {
    pub program: Vec<u8>,
    pub dir: Vec<u8>,
    pub args: Vec<Vec<u8>>,
    pub env_remove: Vec<Vec<u8>>,
}

/// The build tool's directory for build outputs, under `out_dir`.
pub open spec fn target_dir_of(out_dir: Seq<u8>) -> Seq<u8> {
    join(out_dir, ascii("target"@))
}

/// The directory that holds the kernel library once it is built.
pub open spec fn artifact_dir_of(out_dir: Seq<u8>, arch: Seq<u8>, profile: Seq<u8>) -> Seq<u8> {
    join(join(target_dir_of(out_dir), arch), profile)
}

/// The build tool's executable name on a platform whose executables end in
/// `suffix`.
pub open spec fn exe_name(suffix: Seq<u8>) -> Seq<u8> {
    ascii("cargo"@) + suffix
}

/// Where the toolchain manager keeps the build tool, under `home`.
pub open spec fn home_tool(home: Seq<u8>, suffix: Seq<u8>) -> Seq<u8> {
    join(join(home, ascii("bin"@)), exe_name(suffix))
}

/// The program to run: the toolchain manager's build tool where it exists,
/// else the bare name, found on the search path.
pub open spec fn program_of(home: Seq<u8>, suffix: Seq<u8>, home_tool_exists: bool) -> Seq<u8> {
    if home_tool_exists {
        home_tool(home, suffix)
    } else {
        exe_name(suffix)
    }
}

/// Whether a variable belongs to the invoking toolchain and must not reach
/// the kernel build.
pub open spec fn is_toolchain_var(name: Seq<u8>) -> bool {
    has_prefix(name, ascii("CARGO"@)) || has_prefix(name, ascii("RUST"@))
}

/// The toolchain variables among `names`, in their order.
pub open spec fn toolchain_vars(names: Seq<Seq<u8>>) -> Seq<Seq<u8>>
    decreases names.len(),
{
    if names.len() == 0 {
        seq![]
    } else {
        let rest = toolchain_vars(names.drop_last());
        if is_toolchain_var(names.last()) {
            rest.push(names.last())
        } else {
            rest
        }
    }
}

/// The variables removed from the kernel build's environment.
pub open spec fn removed_vars(names: Seq<Seq<u8>>) -> Seq<Seq<u8>> {
    seq![ascii("LD_LIBRARY_PATH"@)] + toolchain_vars(names)
}

/// The arguments that build the kernel.
pub open spec fn build_args(
    out_dir: Seq<u8>,
    arch: Seq<u8>,
    profile: Seq<u8>,
    env_names: Seq<Seq<u8>>,
) -> Seq<Seq<u8>> {
    let td = target_dir_of(out_dir);
    let features = select(env_names, kernel_features());
    seq![
        ascii("run"@),
        ascii("--package=xtask"@),
        ascii("--target-dir"@),
        td,
        ascii("--"@),
        ascii("build"@),
        ascii("--arch"@),
        arch,
        ascii("--profile"@),
        profile_token(profile),
        ascii("--target-dir"@),
        td,
    ] + (if enabled(env_names, ascii("instrument"@)) {
        seq![ascii("--instrument-mcount"@)]
    } else {
        seq![]
    }) + (if enabled(env_names, ascii("randomize-layout"@)) {
        seq![ascii("--randomize-layout"@)]
    } else {
        seq![]
    }) + seq![ascii("--no-default-features"@)] + (if features.len() > 0 {
        seq![ascii("--features"@), space_joined(features)]
    } else {
        seq![]
    })
}

/// The build tool's directory for build outputs, under `out_dir`.
pub fn target_dir(out_dir: &[u8]) -> (r: Vec<u8>)
    ensures
        r@ == target_dir_of(out_dir@),
{
    proof {
        reveal_strlit("target");
    }
    join_path(out_dir, lit("target").as_slice())
}

/// The directory that holds the kernel library once it is built.
pub fn artifact_dir(out_dir: &[u8], arch: &[u8], profile: &[u8]) -> (r: Vec<u8>)
    ensures
        r@ == artifact_dir_of(out_dir@, arch@, profile@),
{
    let td = target_dir(out_dir);
    let with_arch = join_path(td.as_slice(), arch);
    join_path(with_arch.as_slice(), profile)
}

/// The build tool's executable name.
pub fn tool_name(suffix: &[u8]) -> (r: Vec<u8>)
    ensures
        r@ == exe_name(suffix@),
{
    proof {
        reveal_strlit("cargo");
    }
    concat(lit("cargo").as_slice(), suffix)
}

/// Where the toolchain manager keeps the build tool, under `home`.
pub fn home_tool_path(home: &[u8], suffix: &[u8]) -> (r: Vec<u8>)
    ensures
        r@ == home_tool(home@, suffix@),
{
    proof {
        reveal_strlit("bin");
    }
    let bin = join_path(home, lit("bin").as_slice());
    join_path(bin.as_slice(), tool_name(suffix).as_slice())
}

/// The program to run, given whether the toolchain manager's build tool
/// exists.
pub fn tool_program(home: &[u8], suffix: &[u8], home_tool_exists: bool) -> (r: Vec<u8>)
    ensures
        r@ == program_of(home@, suffix@, home_tool_exists),
{
    if home_tool_exists {
        home_tool_path(home, suffix)
    } else {
        tool_name(suffix)
    }
}

/// The variables to remove from the kernel build's environment, given the
/// names of those that are set.
pub fn removed_env_vars(env_names: &Vec<Vec<u8>>) -> (r: Vec<Vec<u8>>)
    ensures
        views(r@) == removed_vars(views(env_names@)),
{
    proof {
        reveal_strlit("LD_LIBRARY_PATH");
        reveal_strlit("CARGO");
        reveal_strlit("RUST");
    }
    let cargo = lit("CARGO");
    let rust = lit("RUST");
    let mut out: Vec<Vec<u8>> = Vec::new();
    out.push(lit("LD_LIBRARY_PATH"));
    let mut i: usize = 0;
    while i < env_names.len()
        invariant
            cargo@ == ascii("CARGO"@),
            rust@ == ascii("RUST"@),
            i <= env_names@.len(),
            views(out@) == seq![ascii("LD_LIBRARY_PATH"@)] + toolchain_vars(
                views(env_names@).subrange(0, i as int),
            ),
        decreases env_names@.len() - i,
    {
        let ghost s = views(env_names@).subrange(0, i as int + 1);
        assert(s.drop_last() =~= views(env_names@).subrange(0, i as int));
        assert(s.last() == env_names@[i as int]@);
        let name = env_names[i].as_slice();
        let ghost before = views(out@);
        if starts_with(name, cargo.as_slice()) || starts_with(name, rust.as_slice()) {
            out.push(concat(name, &[]));
            assert(views(out@) =~= before.push(name@));
        } else {
            assert(!is_toolchain_var(s.last()));
        }
        assert(views(out@) =~= seq![ascii("LD_LIBRARY_PATH"@)] + toolchain_vars(s));
        i += 1;
    }
    assert(views(env_names@).subrange(0, env_names@.len() as int) =~= views(env_names@));
    out
}

/// The arguments that build the kernel.
pub fn kernel_build_args(out_dir: &[u8], arch: &[u8], profile: &[u8], env_names: &Vec<Vec<u8>>) -> (r:
    Vec<Vec<u8>>)
    ensures
        views(r@) == build_args(out_dir@, arch@, profile@, views(env_names@)),
{
    proof {
        reveal_strlit("run");
        reveal_strlit("--package=xtask");
        reveal_strlit("--target-dir");
        reveal_strlit("--");
        reveal_strlit("build");
        reveal_strlit("--arch");
        reveal_strlit("--profile");
        reveal_strlit("instrument");
        reveal_strlit("--instrument-mcount");
        reveal_strlit("randomize-layout");
        reveal_strlit("--randomize-layout");
        reveal_strlit("--no-default-features");
        reveal_strlit("--features");
    }
    let td = target_dir(out_dir);
    let mut out: Vec<Vec<u8>> = Vec::new();
    out.push(lit("run"));
    out.push(lit("--package=xtask"));
    out.push(lit("--target-dir"));
    out.push(td.clone());
    out.push(lit("--"));
    out.push(lit("build"));
    out.push(lit("--arch"));
    out.push(concat(arch, &[]));
    out.push(lit("--profile"));
    out.push(translate_profile(profile));
    out.push(lit("--target-dir"));
    out.push(td);
    if has_feature(env_names, lit("instrument").as_slice()) {
        out.push(lit("--instrument-mcount"));
    }
    if has_feature(env_names, lit("randomize-layout").as_slice()) {
        out.push(lit("--randomize-layout"));
    }
    out.push(lit("--no-default-features"));
    let features = forwarded_features(env_names);
    if features.len() > 0 {
        out.push(lit("--features"));
        out.push(join_with_spaces(&features));
    }
    assert(views(out@) =~= build_args(out_dir@, arch@, profile@, views(env_names@)));
    out
}

} // verus!
