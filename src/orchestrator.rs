//! The orchestrator: the decisions of one kernel build, as a state machine.
//! Its driver performs each action (a file check, a fetch, a command) and
//! hands the outcome back as the next event.
use vstd::prelude::*;
use crate::text::{ascii, views, join, lit, join_path, concat, bytes_eq, lines, is_utf8};
use vstd::utf8::valid_utf8;
use crate::deps::{
    local_paths, probes, watched_all, listing_args, local_dependency_paths, probe_paths,
    watch_all, listing_command_args,
};
use crate::directive::{Directive, DirectiveKind, dview, dviews, reruns, push_reruns};
use crate::invoke::{
    Command, program_of, exe_name, tool_name, home_tool, build_args, removed_vars, artifact_dir_of, tool_program,
    home_tool_path, kernel_build_args, removed_env_vars, artifact_dir,
};

verus! {

/// Why a kernel build failed.
#[derive(PartialEq, Eq, Structural, Debug, Clone, Copy)]
pub enum BuildError {
    /// Neither the local kernel sources nor a fetched release have a manifest.
    SourceNotFound,
    /// The dependency listing could not be run or failed.
    DependencyListingFailed,
    /// The kernel build failed or was killed.
    NestedBuildFailed,
    /// The built library's directory does not exist.
    ArtifactMissing,
    /// The build tool could not be started from the toolchain home nor from
    /// the search path.
    ToolchainResolutionFailed,
    /// An event came that the current stage does not wait for.
    UnexpectedEvent,
}

/// What the orchestrator knows of the build that runs it, read once at the
/// start.
pub struct BuildContext {
    /// The target operating system.
    pub target_os: Vec<u8>,
    /// The target architecture.
    pub target_arch: Vec<u8>,
    /// The build's profile name.
    pub profile: Vec<u8>,
    /// The names of the variables set in the build's environment.
    pub env_names: Vec<Vec<u8>>,
    /// The build's output directory.
    pub out_dir: Vec<u8>,
    /// Where the kernel sources are expected beside this package.
    pub kernel_dir: Vec<u8>,
    /// The toolchain manager's home directory, if known.
    pub tool_home: Option<Vec<u8>>,
    /// The suffix of executable file names on the host.
    pub exe_suffix: Vec<u8>,
    /// Whether this is a lint-only pass.
    pub lint_only: bool,
    /// Whether this is a documentation-only pass.
    pub docs_only: bool,
}

impl BuildContext {
    /// Whether this build needs the kernel: it targets the kernel's platform
    /// and neither only lints nor only documents.
    pub open spec fn wants_kernel(&self) -> bool {
        self.target_os@ == ascii("hermit"@) && !self.lint_only && !self.docs_only
    }

    /// Whether this build needs the kernel.
    pub fn needs_kernel(&self) -> (r: bool)
        ensures
            r == self.wants_kernel(),
    {
        proof {
            reveal_strlit("hermit");
        }
        bytes_eq(self.target_os.as_slice(), lit("hermit").as_slice()) && !self.lint_only
            && !self.docs_only
    }
}

/// The manifest of the package in `dir`.
pub open spec fn manifest_of(dir: Seq<u8>) -> Seq<u8> {
    join(dir, ascii("Cargo.toml"@))
}

/// The manifest whose dependencies are listed `k`-th: the kernel's own, then
/// that of its builtins.
pub open spec fn listed_manifest(src: Seq<u8>, k: nat) -> Seq<u8> {
    if k == 0 {
        manifest_of(src)
    } else {
        join(src, ascii("hermit-builtins/Cargo.toml"@))
    }
}

/// The file that pins the kernel's toolchain.
pub open spec fn toolchain_file(src: Seq<u8>) -> Seq<u8> {
    join(src, ascii("rust-toolchain.toml"@))
}

/// Where a fetched kernel release is unpacked.
pub open spec fn release_dir(out_dir: Seq<u8>) -> Seq<u8> {
    join(out_dir, ascii("kernel-0.6.7"@))
}

/// Where the kernel release is downloaded from, as a gzip-compressed tar
/// archive whose one top directory is `release_dir`'s last component.
pub open spec fn release_url() -> Seq<u8> {
    ascii("https://github.com/hermitcore/kernel/archive/refs/tags/v0.6.7.tar.gz"@)
}

/// The name of the kernel's static library.
pub open spec fn archive_name() -> Seq<u8> {
    ascii("hermit"@)
}

/// The variable that sets the kernel's log level when it is built.
pub open spec fn log_filter_var() -> Seq<u8> {
    ascii("HERMIT_LOG_LEVEL_FILTER"@)
}

/// Where the orchestrator stands.
pub enum Stage {
    /// Nothing done yet.
    Start,
    /// Waiting to hear whether the local sources have a manifest.
    CheckingLocal,
    /// Waiting for a release to be fetched.
    Fetching,
    /// Waiting to hear whether the fetched sources have a manifest.
    CheckingFetched(Vec<u8>),
    /// Sources found; waiting to hear whether the toolchain home has the
    /// build tool.
    FindingTool(Vec<u8>),
    /// Waiting for the kernel build to exit.
    Building(Vec<u8>),
    /// Waiting for the library directory to be resolved.
    Linking(Vec<u8>),
    /// Waiting for the dependency listing of the `k`-th manifest.
    Listing(Vec<u8>, usize),
    /// Waiting to hear which optional files of the listed dependencies exist.
    Probing(Vec<u8>, usize, Vec<Vec<u8>>),
    /// Done.
    Finished,
    /// Failed.
    Failed,
}

/// What the driver reports back after performing an action.
pub enum Event {
    /// The run starts.
    Begin,
    /// Whether the checked file exists.
    Exists(bool),
    /// The directory of the fetched sources, or nothing if the fetch failed.
    Fetched(Option<Vec<u8>>),
    /// Whether the command exited with success.
    Exited(bool),
    /// The command could not be started: its program was not found or could
    /// not be run.
    StartFailed,
    /// The resolved directory, or nothing if it does not exist.
    Resolved(Option<Vec<u8>>),
    /// The listing's output, or nothing if it could not run or failed; output
    /// that is not UTF-8 fails the run too.
    Listed(Option<Vec<u8>>),
    /// For each checked file, whether it exists.
    Found(Vec<bool>),
}

/// What the driver is to do next.
pub enum Action {
    /// Check whether the file exists.
    CheckFile(Vec<u8>),
    /// Make sure a kernel release is unpacked at the directory (the first
    /// field): if it is not there, download the archive at the URL (the
    /// second) and unpack it into the directory's parent.
    Fetch(Vec<u8>, Vec<u8>),
    /// Run the kernel build.
    RunBuild(Command),
    /// Resolve the directory to its canonical path.
    Canonicalize(Vec<u8>),
    /// Run a dependency listing and capture its output.
    RunListing(Command),
    /// Check which of the files exist.
    CheckFiles(Vec<Vec<u8>>),
    /// Emit the directives; the run succeeded.
    Finish(Vec<Directive>),
    /// Abort the build.
    Fail(BuildError),
}

/// `c` builds the kernel in `src` with `program`, as `ctx` asks.
pub open spec fn is_build_command(c: Command, ctx: BuildContext, program: Seq<u8>, src: Seq<u8>) -> bool {
    &&& c.program@ == program
    &&& c.dir@ == src
    &&& views(c.args@) == build_args(
        ctx.out_dir@,
        ctx.target_arch@,
        ctx.profile@,
        views(ctx.env_names@),
    )
    &&& views(c.env_remove@) == removed_vars(views(ctx.env_names@))
}

/// `c` lists the dependencies of `manifest` with `program`, in the current
/// directory.
pub open spec fn is_listing_command(
    c: Command,
    ctx: BuildContext,
    program: Seq<u8>,
    manifest: Seq<u8>,
) -> bool {
    &&& c.program@ == program
    &&& c.dir@.len() == 0
    &&& views(c.args@) == listing_args(manifest)
    &&& views(c.env_remove@) == removed_vars(views(ctx.env_names@))
}

/// The orchestrator of one run.
pub struct Orchestrator {
    pub ctx: BuildContext,
    pub stage: Stage,
    /// The build tool's program, once found.
    pub program: Vec<u8>,
    /// The directives gathered so far, emitted when the run finishes.
    pub directives: Vec<Directive>,
    /// Whether a command has been launched in this run.
    pub launched: Ghost<bool>,
}

/// `r` fails the run with `e`.
pub open spec fn fails(r: Action, n: Orchestrator, e: BuildError) -> bool {
    r == Action::Fail(e) && n.stage is Failed
}

/// The build tool to run, given whether the toolchain home holds one: that
/// one if so, else the bare name, looked up on the search path.
pub open spec fn tool_choice(ctx: BuildContext, found: bool) -> Seq<u8> {
    match ctx.tool_home {
        Some(home) => program_of(home@, ctx.exe_suffix@, found),
        None => exe_name(ctx.exe_suffix@),
    }
}

/// `r` launches the kernel build of `src` with `program`.
pub open spec fn launches_build(
    ctx: BuildContext,
    program: Seq<u8>,
    src: Seq<u8>,
    r: Action,
    n: Orchestrator,
) -> bool {
    &&& r is RunBuild
    &&& is_build_command(r->RunBuild_0, ctx, program, src)
    &&& n.program@ == program
    &&& n.stage is Building
    &&& n.stage->Building_0@ == src
}

/// The sources in `src` were found: check the toolchain home for the build
/// tool next, or, with no home known, build with the bare tool name.
pub open spec fn source_found(ctx: BuildContext, src: Seq<u8>, r: Action, n: Orchestrator) -> bool {
    match ctx.tool_home {
        Some(home) => {
            &&& r is CheckFile
            &&& r->CheckFile_0@ == home_tool(home@, ctx.exe_suffix@)
            &&& n.stage is FindingTool
            &&& n.stage->FindingTool_0@ == src
        },
        None => launches_build(ctx, exe_name(ctx.exe_suffix@), src, r, n),
    }
}

/// One step of a run: from `o`, on `event`, the orchestrator asks for `r`
/// and becomes `n`.
pub open spec fn transition(o: Orchestrator, event: Event, r: Action, n: Orchestrator) -> bool {
    let ctx = o.ctx;
    match o.stage {
        Stage::Start => match event {
            Event::Begin => if ctx.wants_kernel() {
                &&& r is CheckFile
                &&& r->CheckFile_0@ == manifest_of(ctx.kernel_dir@)
                &&& n.stage is CheckingLocal
            } else {
                &&& r is Finish
                &&& r->Finish_0@.len() == 0
                &&& n.stage is Finished
            },
            _ => fails(r, n, BuildError::UnexpectedEvent),
        },
        Stage::CheckingLocal => match event {
            Event::Exists(b) => if b {
                source_found(ctx, ctx.kernel_dir@, r, n)
            } else {
                &&& r is Fetch
                &&& r->Fetch_0@ == release_dir(ctx.out_dir@)
                &&& r->Fetch_1@ == release_url()
                &&& n.stage is Fetching
            },
            _ => fails(r, n, BuildError::UnexpectedEvent),
        },
        Stage::Fetching => match event {
            Event::Fetched(d) => match d {
                Some(dir) => {
                    &&& r is CheckFile
                    &&& r->CheckFile_0@ == manifest_of(dir@)
                    &&& n.stage is CheckingFetched
                    &&& n.stage->CheckingFetched_0@ == dir@
                },
                None => fails(r, n, BuildError::SourceNotFound),
            },
            _ => fails(r, n, BuildError::UnexpectedEvent),
        },
        Stage::CheckingFetched(src) => match event {
            Event::Exists(b) => if b {
                source_found(ctx, src@, r, n)
            } else {
                fails(r, n, BuildError::SourceNotFound)
            },
            _ => fails(r, n, BuildError::UnexpectedEvent),
        },
        Stage::FindingTool(src) => match event {
            Event::Exists(b) => launches_build(ctx, tool_choice(ctx, b), src@, r, n),
            _ => fails(r, n, BuildError::UnexpectedEvent),
        },
        Stage::Building(src) => match event {
            Event::StartFailed => fails(r, n, BuildError::ToolchainResolutionFailed),
            Event::Exited(ok) => if ok {
                &&& r is Canonicalize
                &&& r->Canonicalize_0@ == artifact_dir_of(
                    ctx.out_dir@,
                    ctx.target_arch@,
                    ctx.profile@,
                )
                &&& n.stage is Linking
                &&& n.stage->Linking_0@ == src@
            } else {
                fails(r, n, BuildError::NestedBuildFailed)
            },
            _ => fails(r, n, BuildError::UnexpectedEvent),
        },
        Stage::Linking(src) => match event {
            Event::Resolved(p) => match p {
                Some(dir) => {
                    &&& r is RunListing
                    &&& is_listing_command(r->RunListing_0, ctx, o.program@, manifest_of(src@))
                    &&& n.stage is Listing
                    &&& n.stage->Listing_0@ == src@
                    &&& n.stage->Listing_1 == 0
                    &&& dviews(n.directives@) == dviews(o.directives@) + seq![
                        (DirectiveKind::LinkSearchNative, dir@),
                        (DirectiveKind::LinkStatic, archive_name()),
                    ]
                },
                None => fails(r, n, BuildError::ArtifactMissing),
            },
            _ => fails(r, n, BuildError::UnexpectedEvent),
        },
        Stage::Listing(src, k) => match event {
            Event::Listed(out) => match out {
                Some(t) => if !valid_utf8(t@) {
                    fails(r, n, BuildError::DependencyListingFailed)
                } else {
                    &&& r is CheckFiles
                    &&& views(r->CheckFiles_0@) == probes(local_paths(lines(t@)))
                    &&& n.stage is Probing
                    &&& n.stage->Probing_0@ == src@
                    &&& n.stage->Probing_1 == k
                    &&& views(n.stage->Probing_2@) == local_paths(lines(t@))
                    &&& dviews(n.directives@) == dviews(o.directives@)
                },
                None => fails(r, n, BuildError::DependencyListingFailed),
            },
            _ => fails(r, n, BuildError::UnexpectedEvent),
        },
        Stage::Probing(src, k, deps) => match event {
            Event::Found(found) => {
                let added = seq![(DirectiveKind::RerunIfChanged, listed_manifest(src@, k as nat))]
                    + reruns(watched_all(views(deps@), found@));
                if k == 0 {
                    &&& r is RunListing
                    &&& is_listing_command(
                        r->RunListing_0,
                        ctx,
                        o.program@,
                        listed_manifest(src@, 1),
                    )
                    &&& n.stage is Listing
                    &&& n.stage->Listing_0@ == src@
                    &&& n.stage->Listing_1 == 1
                    &&& dviews(n.directives@) == dviews(o.directives@) + added
                } else {
                    &&& r is Finish
                    &&& n.stage is Finished
                    &&& dviews(r->Finish_0@) == dviews(o.directives@) + added + seq![
                        (DirectiveKind::RerunIfChanged, toolchain_file(src@)),
                        (DirectiveKind::RerunIfEnvChanged, log_filter_var()),
                    ]
                }
            },
            _ => fails(r, n, BuildError::UnexpectedEvent),
        },
        Stage::Finished => fails(r, n, BuildError::UnexpectedEvent),
        Stage::Failed => fails(r, n, BuildError::UnexpectedEvent),
    }
}

impl Orchestrator {
    /// Whether the stage is consistent with what has been launched: nothing
    /// runs before the sources and the build tool are found.
    pub open spec fn wf(&self) -> bool {
        match self.stage {
            Stage::Start => !self.launched@,
            Stage::CheckingLocal => !self.launched@,
            Stage::Fetching => !self.launched@,
            Stage::CheckingFetched(_) => !self.launched@,
            Stage::FindingTool(_) => !self.launched@,
            Stage::Listing(_, k) => k <= 1,
            Stage::Probing(_, k, _) => k <= 1,
            _ => true,
        }
    }

    /// An orchestrator for a run of `ctx`, before it starts.
    pub fn new(ctx: BuildContext) -> (r: Orchestrator)
        ensures
            r.wf(),
            r.ctx == ctx,
            r.stage is Start,
            r.directives@.len() == 0,
            !r.launched@,
    {
        Orchestrator {
            ctx,
            stage: Stage::Start,
            program: Vec::new(),
            directives: Vec::new(),
            launched: Ghost(false),
        }
    }

    /// Moves on once the sources are found in `src`.
    fn found_source(&mut self, src: Vec<u8>) -> (r: Action)
        ensures
            source_found(old(self).ctx, src@, r, *final(self)),
            final(self).ctx == old(self).ctx,
            !(r is RunBuild) ==> final(self).program == old(self).program,
            final(self).directives == old(self).directives,
            final(self).launched@ == (old(self).launched@ || r is RunBuild),
    {
        match &self.ctx.tool_home {
            Some(home) => {
                let candidate = home_tool_path(home.as_slice(), self.ctx.exe_suffix.as_slice());
                self.stage = Stage::FindingTool(src);
                Action::CheckFile(candidate)
            },
            None => {
                let program = tool_name(self.ctx.exe_suffix.as_slice());
                self.launch_build(program, src)
            },
        }
    }

    /// Launches the kernel build of `src` with `program`.
    fn launch_build(&mut self, program: Vec<u8>, src: Vec<u8>) -> (r: Action)
        ensures
            launches_build(old(self).ctx, program@, src@, r, *final(self)),
            final(self).ctx == old(self).ctx,
            final(self).directives == old(self).directives,
            final(self).launched@,
    {
        let cmd = Command {
            program: concat(program.as_slice(), &[]),
            dir: concat(src.as_slice(), &[]),
            args: kernel_build_args(
                self.ctx.out_dir.as_slice(),
                self.ctx.target_arch.as_slice(),
                self.ctx.profile.as_slice(),
                &self.ctx.env_names,
            ),
            env_remove: removed_env_vars(&self.ctx.env_names),
        };
        self.program = program;
        self.stage = Stage::Building(src);
        self.launched = Ghost(true);
        Action::RunBuild(cmd)
    }

    /// The command that lists the dependencies of `manifest`.
    fn listing_command(&self, manifest: Vec<u8>) -> (r: Command)
        ensures
            is_listing_command(r, self.ctx, self.program@, manifest@),
    {
        Command {
            program: concat(self.program.as_slice(), &[]),
            dir: Vec::new(),
            args: listing_command_args(manifest.as_slice()),
            env_remove: removed_env_vars(&self.ctx.env_names),
        }
    }

    /// Takes the outcome of the last action and says what to do next.
    pub fn step(&mut self, event: Event) -> (r: Action)
        requires
            old(self).wf(),
        ensures
            final(self).wf(),
            final(self).ctx == old(self).ctx,
            transition(*old(self), event, r, *final(self)),
            final(self).launched@ == (old(self).launched@ || r is RunBuild || r is RunListing),
            r is Fail ==> final(self).stage is Failed,
            !(r is RunBuild) ==> final(self).program == old(self).program,
            !(old(self).stage is Linking || old(self).stage is Probing) ==> final(self).directives
                == old(self).directives,
    {
        proof {
            reveal_strlit("Cargo.toml");
            reveal_strlit("kernel-0.6.7");
            reveal_strlit("https://github.com/hermitcore/kernel/archive/refs/tags/v0.6.7.tar.gz");
            reveal_strlit("hermit");
            reveal_strlit("hermit-builtins/Cargo.toml");
            reveal_strlit("rust-toolchain.toml");
            reveal_strlit("HERMIT_LOG_LEVEL_FILTER");
        }
        let mut stage = Stage::Failed;
        core::mem::swap(&mut stage, &mut self.stage);
        let unexpected = Action::Fail(BuildError::UnexpectedEvent);
        match stage {
            Stage::Start => match event {
                Event::Begin => {
                    if self.ctx.needs_kernel() {
                        self.stage = Stage::CheckingLocal;
                        Action::CheckFile(
                            join_path(self.ctx.kernel_dir.as_slice(), lit("Cargo.toml").as_slice()),
                        )
                    } else {
                        self.stage = Stage::Finished;
                        Action::Finish(Vec::new())
                    }
                },
                _ => unexpected,
            },
            Stage::CheckingLocal => match event {
                Event::Exists(b) => {
                    if b {
                        let src = concat(self.ctx.kernel_dir.as_slice(), &[]);
                        self.found_source(src)
                    } else {
                        self.stage = Stage::Fetching;
                        Action::Fetch(
                            join_path(self.ctx.out_dir.as_slice(), lit("kernel-0.6.7").as_slice()),
                            lit("https://github.com/hermitcore/kernel/archive/refs/tags/v0.6.7.tar.gz"),
                        )
                    }
                },
                _ => unexpected,
            },
            Stage::Fetching => match event {
                Event::Fetched(d) => match d {
                    Some(dir) => {
                        let manifest = join_path(dir.as_slice(), lit("Cargo.toml").as_slice());
                        self.stage = Stage::CheckingFetched(dir);
                        Action::CheckFile(manifest)
                    },
                    None => Action::Fail(BuildError::SourceNotFound),
                },
                _ => unexpected,
            },
            Stage::CheckingFetched(src) => match event {
                Event::Exists(b) => {
                    if b {
                        self.found_source(src)
                    } else {
                        Action::Fail(BuildError::SourceNotFound)
                    }
                },
                _ => unexpected,
            },
            Stage::FindingTool(src) => match event {
                Event::Exists(b) => {
                    let program = match &self.ctx.tool_home {
                        Some(home) => tool_program(
                            home.as_slice(),
                            self.ctx.exe_suffix.as_slice(),
                            b,
                        ),
                        None => tool_name(self.ctx.exe_suffix.as_slice()),
                    };
                    self.launch_build(program, src)
                },
                _ => unexpected,
            },
            Stage::Building(src) => match event {
                Event::StartFailed => Action::Fail(BuildError::ToolchainResolutionFailed),
                Event::Exited(ok) => {
                    if ok {
                        let dir = artifact_dir(
                            self.ctx.out_dir.as_slice(),
                            self.ctx.target_arch.as_slice(),
                            self.ctx.profile.as_slice(),
                        );
                        self.stage = Stage::Linking(src);
                        Action::Canonicalize(dir)
                    } else {
                        Action::Fail(BuildError::NestedBuildFailed)
                    }
                },
                _ => unexpected,
            },
            Stage::Linking(src) => match event {
                Event::Resolved(p) => match p {
                    Some(dir) => {
                        let ghost before = dviews(self.directives@);
                        self.directives.push(Directive::new(DirectiveKind::LinkSearchNative, dir));
                        self.directives.push(
                            Directive::new(DirectiveKind::LinkStatic, lit("hermit")),
                        );
                        assert(dviews(self.directives@) =~= before + seq![
                            (DirectiveKind::LinkSearchNative, dir@),
                            (DirectiveKind::LinkStatic, archive_name()),
                        ]);
                        let manifest = join_path(src.as_slice(), lit("Cargo.toml").as_slice());
                        let cmd = self.listing_command(manifest);
                        self.stage = Stage::Listing(src, 0);
                        self.launched = Ghost(true);
                        Action::RunListing(cmd)
                    },
                    None => Action::Fail(BuildError::ArtifactMissing),
                },
                _ => unexpected,
            },
            Stage::Listing(src, k) => match event {
                Event::Listed(out) => match out {
                    Some(t) => {
                        if !is_utf8(t.as_slice()) {
                            return Action::Fail(BuildError::DependencyListingFailed);
                        }
                        let deps = local_dependency_paths(t.as_slice());
                        let files = probe_paths(&deps);
                        self.stage = Stage::Probing(src, k, deps);
                        Action::CheckFiles(files)
                    },
                    None => Action::Fail(BuildError::DependencyListingFailed),
                },
                _ => unexpected,
            },
            Stage::Probing(src, k, deps) => match event {
                Event::Found(found) => {
                    let ghost before = dviews(self.directives@);
                    let manifest = if k == 0 {
                        join_path(src.as_slice(), lit("Cargo.toml").as_slice())
                    } else {
                        join_path(src.as_slice(), lit("hermit-builtins/Cargo.toml").as_slice())
                    };
                    self.directives.push(Directive::new(DirectiveKind::RerunIfChanged, manifest));
                    let watched = watch_all(&deps, &found);
                    push_reruns(&mut self.directives, &watched);
                    assert(dviews(self.directives@) =~= before + (seq![
                        (DirectiveKind::RerunIfChanged, listed_manifest(src@, k as nat)),
                    ] + reruns(watched_all(views(deps@), found@))));
                    if k == 0 {
                        let next = join_path(
                            src.as_slice(),
                            lit("hermit-builtins/Cargo.toml").as_slice(),
                        );
                        let cmd = self.listing_command(next);
                        self.stage = Stage::Listing(src, 1);
                        self.launched = Ghost(true);
                        Action::RunListing(cmd)
                    } else {
                        let ghost mid = dviews(self.directives@);
                        self.directives.push(
                            Directive::new(
                                DirectiveKind::RerunIfChanged,
                                join_path(src.as_slice(), lit("rust-toolchain.toml").as_slice()),
                            ),
                        );
                        self.directives.push(
                            Directive::new(
                                DirectiveKind::RerunIfEnvChanged,
                                lit("HERMIT_LOG_LEVEL_FILTER"),
                            ),
                        );
                        assert(dviews(self.directives@) =~= mid + seq![
                            (DirectiveKind::RerunIfChanged, toolchain_file(src@)),
                            (DirectiveKind::RerunIfEnvChanged, log_filter_var()),
                        ]);
                        let mut all: Vec<Directive> = Vec::new();
                        core::mem::swap(&mut all, &mut self.directives);
                        self.stage = Stage::Finished;
                        Action::Finish(all)
                    }
                },
                _ => unexpected,
            },
            Stage::Finished => unexpected,
            Stage::Failed => unexpected,
        }
    }
}

/// A build that does not need the kernel finishes on its first step, with
/// nothing to emit and nothing checked, fetched or launched, and every later
/// event is refused.
pub proof fn law_skip_when_not_needed(
    o: Orchestrator,
    r: Action,
    n: Orchestrator,
    e2: Event,
    r2: Action,
    n2: Orchestrator,
)
    requires
        o.stage is Start,
        !o.ctx.wants_kernel(),
        transition(o, Event::Begin, r, n),
        transition(n, e2, r2, n2),
    ensures
        r is Finish,
        r->Finish_0@.len() == 0,
        n.stage is Finished,
        r2 == Action::Fail(BuildError::UnexpectedEvent),
{
}

/// Missing sources are only ever reported before any command was launched.
pub proof fn law_missing_source_before_launch(o: Orchestrator, e: Event, r: Action, n: Orchestrator)
    requires
        o.wf(),
        transition(o, e, r, n),
        r == Action::Fail(BuildError::SourceNotFound),
    ensures
        !o.launched@,
        o.stage is Fetching || o.stage is CheckingFetched,
{
}

/// A failed kernel build fails the run; a failed run emits nothing, since
/// it answers every later event with a failure.
pub proof fn law_failed_build_links_nothing(
    o: Orchestrator,
    r: Action,
    n: Orchestrator,
    e2: Event,
    r2: Action,
    n2: Orchestrator,
)
    requires
        o.stage is Building,
        transition(o, Event::Exited(false), r, n),
        transition(n, e2, r2, n2),
    ensures
        r == Action::Fail(BuildError::NestedBuildFailed),
        n.stage is Failed,
        r2 == Action::Fail(BuildError::UnexpectedEvent),
{
}

/// Once the local sources are found the kernel build is launched: at once
/// when no toolchain home is known, else right after the home is checked for
/// the build tool, whatever that check finds.
pub proof fn law_found_sources_get_built(
    o: Orchestrator,
    r: Action,
    n: Orchestrator,
    found: bool,
    r2: Action,
    n2: Orchestrator,
)
    requires
        o.stage is CheckingLocal,
        transition(o, Event::Exists(true), r, n),
        n.ctx == o.ctx,
        n.stage is FindingTool ==> transition(n, Event::Exists(found), r2, n2),
    ensures
        o.ctx.tool_home is None ==> r is RunBuild && is_build_command(
            r->RunBuild_0,
            o.ctx,
            exe_name(o.ctx.exe_suffix@),
            o.ctx.kernel_dir@,
        ),
        o.ctx.tool_home is Some ==> r is CheckFile && r2 is RunBuild && is_build_command(
            r2->RunBuild_0,
            o.ctx,
            tool_choice(o.ctx, found),
            o.ctx.kernel_dir@,
        ),
{
}

/// A kernel build that succeeds, whose library directory resolves to `dir`
/// and whose two dependency listings are UTF-8, finishes the run; the first
/// directives add `dir` to the native search path, link the kernel library
/// and watch the kernel's manifest.
pub proof fn law_successful_build_finishes(
    o0: Orchestrator,
    r0: Action,
    o1: Orchestrator,
    dir: Vec<u8>,
    r1: Action,
    o2: Orchestrator,
    t1: Vec<u8>,
    r2: Action,
    o3: Orchestrator,
    f1: Vec<bool>,
    r3: Action,
    o4: Orchestrator,
    t2: Vec<u8>,
    r4: Action,
    o5: Orchestrator,
    f2: Vec<bool>,
    r5: Action,
    o6: Orchestrator,
)
    requires
        o0.stage is Building,
        o0.directives@.len() == 0,
        valid_utf8(t1@),
        valid_utf8(t2@),
        transition(o0, Event::Exited(true), r0, o1),
        o1.ctx == o0.ctx && o1.directives == o0.directives && o1.program == o0.program,
        transition(o1, Event::Resolved(Some(dir)), r1, o2),
        o2.ctx == o0.ctx && o2.program == o0.program,
        transition(o2, Event::Listed(Some(t1)), r2, o3),
        o3.ctx == o0.ctx && o3.directives == o2.directives && o3.program == o0.program,
        transition(o3, Event::Found(f1), r3, o4),
        o4.ctx == o0.ctx && o4.program == o0.program,
        transition(o4, Event::Listed(Some(t2)), r4, o5),
        o5.ctx == o0.ctx && o5.directives == o4.directives && o5.program == o0.program,
        transition(o5, Event::Found(f2), r5, o6),
    ensures
        r0 is Canonicalize,
        r1 is RunListing,
        r3 is RunListing,
        r5 is Finish,
        o6.stage is Finished,
        r5->Finish_0@.len() >= 3,
        dview(r5->Finish_0@[0]) == (DirectiveKind::LinkSearchNative, dir@),
        dview(r5->Finish_0@[1]) == (DirectiveKind::LinkStatic, archive_name()),
        dview(r5->Finish_0@[2]) == (
            DirectiveKind::RerunIfChanged,
            manifest_of(o0.stage->Building_0@),
        ),
{
    let src = o0.stage->Building_0@;
    assert(o1.stage->Linking_0@ == src);
    assert(o2.stage->Listing_0@ == src && o2.stage->Listing_1 == 0);
    assert(o3.stage->Probing_0@ == src && o3.stage->Probing_1 == 0);
    assert(o4.stage->Listing_0@ == src && o4.stage->Listing_1 == 1);
    assert(o5.stage->Probing_0@ == src && o5.stage->Probing_1 == 1);
    let d = dviews(r5->Finish_0@);
    assert(d.len() == r5->Finish_0@.len());
    assert(d[0] == dview(r5->Finish_0@[0]));
    assert(d[1] == dview(r5->Finish_0@[1]));
    assert(d[2] == dview(r5->Finish_0@[2]));
}

} // verus!
