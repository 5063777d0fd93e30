//! The build pipeline as a state machine.  The machine decides; the caller
//! performs.  `next_action` says which external step to run in the current
//! phase, the caller runs it and reports the outcome through `step`, and
//! the machine advances: an optional Rust eBPF cross-build, then the
//! include directory, the libbpf header install, the source listing, and
//! one C compilation per discovered `.c` file, in order.  Any failure
//! moves the machine to a final failed phase from which no further action
//! is ever issued.

use vstd::prelude::*;
use vstd::string::StringExecFns;
use crate::arch::Architecture;
use crate::options::Options;
use crate::cmd::{
    Cmd,
    spec_rust_build_args,
    spec_header_install_args,
    spec_clang_args,
    spec_clang_executable,
    clang_executable,
    rust_build_command,
    header_install_command,
    clang_command,
};
use crate::paths::{
    spec_rust_project_dir,
    spec_c_source_dir,
    spec_output_dir,
    spec_include_dir,
    spec_libbpf_src_dir,
    rust_project_dir,
    c_source_dir,
    output_dir,
    include_dir,
};
use crate::units::{CompilationUnit, spec_units, compilation_units};

verus! {

/// Why the pipeline stopped before completing.  Every external failure is
/// a typed value here — the entry point decides which ones terminate the
/// process and which are reported as ordinary errors.
#[derive(Debug)]
pub enum BuildError {
    /// The Rust eBPF cross-build exited non-zero.
    RustBuildFailed,
    /// The include directory could not be created.
    IncludeDirFailed,
    /// The libbpf header-install step exited non-zero.
    HeaderInstallFailed,
    /// The C compiler exited non-zero on one source file; the compiler's
    /// own diagnostic output is attached verbatim.
    CompileFailed { source: String, stdout: String, stderr: String },
}

/// The spec-level value of a `BuildError`.
pub enum BuildErrorView {
    RustBuildFailed,
    IncludeDirFailed,
    HeaderInstallFailed,
    CompileFailed { source: Seq<char>, stdout: Seq<char>, stderr: Seq<char> },
}

impl View for BuildError {
    type V = BuildErrorView;

    open spec fn view(&self) -> BuildErrorView {
        match self {
            BuildError::RustBuildFailed => BuildErrorView::RustBuildFailed,
            BuildError::IncludeDirFailed => BuildErrorView::IncludeDirFailed,
            BuildError::HeaderInstallFailed => BuildErrorView::HeaderInstallFailed,
            BuildError::CompileFailed { source, stdout, stderr } => BuildErrorView::CompileFailed {
                source: source@,
                stdout: stdout@,
                stderr: stderr@,
            },
        }
    }
}

/// The report of an error, as one string.
pub open spec fn spec_message(e: BuildErrorView) -> Seq<char> {
    match e {
        BuildErrorView::RustBuildFailed => "failed to build bpf program"@,
        BuildErrorView::IncludeDirFailed => "failed to create the include directory"@,
        BuildErrorView::HeaderInstallFailed => "failed to install libbpf headers"@,
        BuildErrorView::CompileFailed { source, stdout, stderr } => "failed to compile eBPF programs\nstdout=\n"@
            + stdout + "\nstderr=\n"@ + stderr,
    }
}

impl BuildError {
    /// Renders the error for reporting; a compile failure carries the
    /// compiler's stdout and stderr verbatim.
    pub fn message(&self) -> (r: String)
        ensures
            r@ == spec_message(self@),
    {
        match self {
            BuildError::RustBuildFailed => String::from_str("failed to build bpf program"),
            BuildError::IncludeDirFailed => String::from_str(
                "failed to create the include directory",
            ),
            BuildError::HeaderInstallFailed => String::from_str("failed to install libbpf headers"),
            BuildError::CompileFailed { source, stdout, stderr } => String::from_str(
                "failed to compile eBPF programs\nstdout=\n",
            ).concat(stdout.as_str()).concat("\nstderr=\n").concat(stderr.as_str()),
        }
    }
}

/// One external step the caller is asked to perform.
#[derive(Debug)]
pub enum Action {
    /// Create this directory and all missing ancestors.
    CreateDir { path: String },
    /// List the file names inside this directory.
    ReadDir { path: String },
    /// Run this command to completion, inheriting its output.
    Run { command: Cmd },
    /// Run this command to completion, capturing stdout and stderr.
    RunCaptured { command: Cmd },
}

/// The spec-level value of a `Cmd`.
pub struct CmdView {
    pub program: Seq<char>,
    pub args: Seq<Seq<char>>,
    pub cwd: Option<Seq<char>>,
}

impl View for Cmd {
    type V = CmdView;

    open spec fn view(&self) -> CmdView {
        CmdView {
            program: self.program@,
            args: self.args.deep_view(),
            cwd: match self.cwd {
                Some(d) => Some(d@),
                None => None,
            },
        }
    }
}

impl DeepView for Cmd {
    type V = CmdView;

    open spec fn deep_view(&self) -> CmdView {
        self@
    }
}

/// The spec-level value of an `Action`.
pub enum ActionView {
    CreateDir { path: Seq<char> },
    ReadDir { path: Seq<char> },
    Run { command: CmdView },
    RunCaptured { command: CmdView },
}

impl View for Action {
    type V = ActionView;

    open spec fn view(&self) -> ActionView {
        match self {
            Action::CreateDir { path } => ActionView::CreateDir { path: path@ },
            Action::ReadDir { path } => ActionView::ReadDir { path: path@ },
            Action::Run { command } => ActionView::Run { command: command@ },
            Action::RunCaptured { command } => ActionView::RunCaptured { command: command@ },
        }
    }
}

impl DeepView for Action {
    type V = ActionView;

    open spec fn deep_view(&self) -> ActionView {
        self@
    }
}

/// The outcome of one performed action, reported back to the machine.
#[derive(Debug)]
pub enum Event {
    /// A `CreateDir` or `Run` action finished; whether it succeeded.
    Finished { success: bool },
    /// A `RunCaptured` action finished, with the captured output.
    FinishedCaptured { success: bool, stdout: String, stderr: String },
    /// A `ReadDir` action finished, with the file names it found.
    Listed { names: Vec<String> },
}

/// The spec-level value of an `Event`.
pub enum EventView {
    Finished { success: bool },
    FinishedCaptured { success: bool, stdout: Seq<char>, stderr: Seq<char> },
    Listed { names: Seq<Seq<char>> },
}

impl View for Event {
    type V = EventView;

    open spec fn view(&self) -> EventView {
        match self {
            Event::Finished { success } => EventView::Finished { success: *success },
            Event::FinishedCaptured { success, stdout, stderr } => EventView::FinishedCaptured {
                success: *success,
                stdout: stdout@,
                stderr: stderr@,
            },
            Event::Listed { names } => EventView::Listed { names: names.deep_view() },
        }
    }
}

/// Where the pipeline stands: which external step it is waiting on.
#[derive(Debug)]
pub enum Phase {
    /// Waiting for the Rust eBPF cross-build.
    RustBuild,
    /// Waiting for the include directory to be created.
    CreateIncludeDir,
    /// Waiting for the libbpf header install.
    InstallHeaders,
    /// Waiting for the listing of the C source directory.
    ListSources,
    /// Waiting for the compilation of the unit at `next`; the earlier
    /// units already compiled.
    CompileSources { units: Vec<CompilationUnit>, next: usize },
    /// Every step completed.
    Done,
    /// A step failed; the pipeline issues no further action.
    Failed { error: BuildError },
}

/// The spec-level value of a `Phase`.
pub enum PhaseView {
    RustBuild,
    CreateIncludeDir,
    InstallHeaders,
    ListSources,
    CompileSources { units: Seq<(Seq<char>, Seq<char>)>, next: int },
    Done,
    Failed { error: BuildErrorView },
}

impl View for Phase {
    type V = PhaseView;

    open spec fn view(&self) -> PhaseView {
        match self {
            Phase::RustBuild => PhaseView::RustBuild,
            Phase::CreateIncludeDir => PhaseView::CreateIncludeDir,
            Phase::InstallHeaders => PhaseView::InstallHeaders,
            Phase::ListSources => PhaseView::ListSources,
            Phase::CompileSources { units, next } => PhaseView::CompileSources {
                units: units@.map_values(|u: CompilationUnit| u@),
                next: *next as int,
            },
            Phase::Done => PhaseView::Done,
            Phase::Failed { error } => PhaseView::Failed { error: error@ },
        }
    }
}

/// The build pipeline: the configuration it was started with, the
/// directories derived from the workspace root, and the current phase.
#[derive(Debug)]
pub struct Pipeline {
    pub target: Architecture,
    pub libbpf_dir: String,
    pub clang: String,
    pub host_arch: String,
    pub rust_dir: String,
    pub src_dir: String,
    pub out_dir: String,
    pub include_dir: String,
    pub phase: Phase,
}

/// The spec-level value of a `Pipeline`.
pub struct PipelineView {
    pub target: Architecture,
    pub libbpf_dir: Seq<char>,
    pub clang: Seq<char>,
    pub host_arch: Seq<char>,
    pub rust_dir: Seq<char>,
    pub src_dir: Seq<char>,
    pub out_dir: Seq<char>,
    pub include_dir: Seq<char>,
    pub phase: PhaseView,
}

impl View for Pipeline {
    type V = PipelineView;

    open spec fn view(&self) -> PipelineView {
        PipelineView {
            target: self.target,
            libbpf_dir: self.libbpf_dir@,
            clang: self.clang@,
            host_arch: self.host_arch@,
            rust_dir: self.rust_dir@,
            src_dir: self.src_dir@,
            out_dir: self.out_dir@,
            include_dir: self.include_dir@,
            phase: self.phase@,
        }
    }
}

/// The initial pipeline for a configuration: directories derived from the
/// workspace root and target, the C compiler resolved from the optional
/// override, and the first phase chosen by the Rust-build flag.
pub open spec fn spec_init(
    target: Architecture,
    compile_rust_ebpf: bool,
    libbpf_dir: Seq<char>,
    root: Seq<char>,
    clang_override: Option<Seq<char>>,
    host_arch: Seq<char>,
) -> PipelineView {
    PipelineView {
        target,
        libbpf_dir,
        clang: spec_clang_executable(clang_override),
        host_arch,
        rust_dir: spec_rust_project_dir(root),
        src_dir: spec_c_source_dir(root),
        out_dir: spec_output_dir(root, target),
        include_dir: spec_include_dir(root, target),
        phase: if compile_rust_ebpf {
            PhaseView::RustBuild
        } else {
            PhaseView::CreateIncludeDir
        },
    }
}

/// The transition relation, one event at a time.  An event that does not
/// answer the current phase leaves the pipeline unchanged; the two final
/// phases absorb every event.
pub open spec fn spec_step(v: PipelineView, ev: EventView) -> PipelineView {
    match (v.phase, ev) {
        (PhaseView::RustBuild, EventView::Finished { success }) => PipelineView {
            phase: if success {
                PhaseView::CreateIncludeDir
            } else {
                PhaseView::Failed { error: BuildErrorView::RustBuildFailed }
            },
            ..v
        },
        (PhaseView::CreateIncludeDir, EventView::Finished { success }) => PipelineView {
            phase: if success {
                PhaseView::InstallHeaders
            } else {
                PhaseView::Failed { error: BuildErrorView::IncludeDirFailed }
            },
            ..v
        },
        (PhaseView::InstallHeaders, EventView::Finished { success }) => PipelineView {
            phase: if success {
                PhaseView::ListSources
            } else {
                PhaseView::Failed { error: BuildErrorView::HeaderInstallFailed }
            },
            ..v
        },
        (PhaseView::ListSources, EventView::Listed { names }) => PipelineView {
            phase: ({
                let units = spec_units(names, v.src_dir, v.out_dir);
                if units.len() == 0 {
                    PhaseView::Done
                } else {
                    PhaseView::CompileSources { units, next: 0 }
                }
            }),
            ..v
        },
        (
            PhaseView::CompileSources { units, next },
            EventView::FinishedCaptured { success, stdout, stderr },
        ) => PipelineView {
            phase: if 0 <= next < units.len() {
                if success {
                    if next + 1 < units.len() {
                        PhaseView::CompileSources { units, next: next + 1 }
                    } else {
                        PhaseView::Done
                    }
                } else {
                    PhaseView::Failed {
                        error: BuildErrorView::CompileFailed {
                            source: units[next].0,
                            stdout,
                            stderr,
                        },
                    }
                }
            } else {
                PhaseView::CompileSources { units, next }
            },
            ..v
        },
        (_, _) => v,
    }
}

/// The action the pipeline asks for in its current phase, if any: the
/// compiler command appears only in the compile phase, the Rust build
/// command only in the Rust-build phase, and the final phases ask for
/// nothing.
pub open spec fn spec_action(v: PipelineView) -> Option<ActionView> {
    match v.phase {
        PhaseView::RustBuild => Some(
            ActionView::Run {
                command: CmdView {
                    program: "cargo"@,
                    args: spec_rust_build_args(v.target),
                    cwd: Some(v.rust_dir),
                },
            },
        ),
        PhaseView::CreateIncludeDir => Some(ActionView::CreateDir { path: v.include_dir }),
        PhaseView::InstallHeaders => Some(
            ActionView::Run {
                command: CmdView {
                    program: "make"@,
                    args: spec_header_install_args(v.include_dir),
                    cwd: Some(spec_libbpf_src_dir(v.libbpf_dir)),
                },
            },
        ),
        PhaseView::ListSources => Some(ActionView::ReadDir { path: v.src_dir }),
        PhaseView::CompileSources { units, next } => if 0 <= next < units.len() {
            Some(
                ActionView::RunCaptured {
                    command: CmdView {
                        program: v.clang,
                        args: spec_clang_args(
                            v.host_arch,
                            v.include_dir,
                            units[next].0,
                            units[next].1,
                        ),
                        cwd: None,
                    },
                },
            )
        } else {
            None
        },
        PhaseView::Done => None,
        PhaseView::Failed { .. } => None,
    }
}

/// Starts the build pipeline for a configuration.  The caller supplies
/// the plain values only it can know: the workspace root it resolved, the
/// compiler override from the environment if any, and the host
/// architecture name.
pub fn build_ebpf(
    opts: Options,
    workspace_root: String,
    clang_override: Option<String>,
    host_arch: String,
) -> (p: Pipeline)
    ensures
        p@ == spec_init(
            opts.target,
            opts.compile_rust_ebpf,
            opts.libbpf_dir@,
            workspace_root@,
            match clang_override {
                Some(c) => Some(c@),
                None => None,
            },
            host_arch@,
        ),
{
    let root = workspace_root.as_str();
    let rust_dir = rust_project_dir(root);
    let src_dir = c_source_dir(root);
    let out_dir = output_dir(root, opts.target);
    let include_dir = include_dir(root, opts.target);
    Pipeline {
        target: opts.target,
        libbpf_dir: opts.libbpf_dir,
        clang: clang_executable(clang_override),
        host_arch,
        rust_dir,
        src_dir,
        out_dir,
        include_dir,
        phase: if opts.compile_rust_ebpf {
            Phase::RustBuild
        } else {
            Phase::CreateIncludeDir
        },
    }
}

impl Pipeline {
    /// The next external step to perform, or nothing when the pipeline
    /// has finished or failed.
    pub fn next_action(&self) -> (a: Option<Action>)
        ensures
            a.deep_view() == spec_action(self@),
    {
        match &self.phase {
            Phase::RustBuild => Some(
                Action::Run { command: rust_build_command(self.rust_dir.as_str(), self.target) },
            ),
            Phase::CreateIncludeDir => Some(Action::CreateDir { path: self.include_dir.clone() }),
            Phase::InstallHeaders => Some(
                Action::Run {
                    command: header_install_command(
                        self.libbpf_dir.as_str(),
                        self.include_dir.as_str(),
                    ),
                },
            ),
            Phase::ListSources => Some(Action::ReadDir { path: self.src_dir.clone() }),
            Phase::CompileSources { units, next } => if *next < units.len() {
                let unit = &units[*next];
                Some(
                    Action::RunCaptured {
                        command: clang_command(
                            self.clang.as_str(),
                            self.host_arch.as_str(),
                            self.include_dir.as_str(),
                            unit.source.as_str(),
                            unit.object.as_str(),
                        ),
                    },
                )
            } else {
                None
            },
            Phase::Done => None,
            Phase::Failed { .. } => None,
        }
    }

    /// Advances the pipeline by the outcome of the performed step.
    pub fn step(self, ev: Event) -> (r: Pipeline)
        ensures
            r@ == spec_step(self@, ev@),
    {
        let Pipeline { target, libbpf_dir, clang, host_arch, rust_dir, src_dir, out_dir, include_dir, phase } =
            self;
        let next_phase = match (phase, ev) {
            (Phase::RustBuild, Event::Finished { success }) => if success {
                Phase::CreateIncludeDir
            } else {
                Phase::Failed { error: BuildError::RustBuildFailed }
            },
            (Phase::CreateIncludeDir, Event::Finished { success }) => if success {
                Phase::InstallHeaders
            } else {
                Phase::Failed { error: BuildError::IncludeDirFailed }
            },
            (Phase::InstallHeaders, Event::Finished { success }) => if success {
                Phase::ListSources
            } else {
                Phase::Failed { error: BuildError::HeaderInstallFailed }
            },
            (Phase::ListSources, Event::Listed { names }) => {
                let units = compilation_units(&names, src_dir.as_str(), out_dir.as_str());
                if units.len() == 0 {
                    Phase::Done
                } else {
                    Phase::CompileSources { units, next: 0 }
                }
            },
            (
                Phase::CompileSources { units, next },
                Event::FinishedCaptured { success, stdout, stderr },
            ) => {
                if next < units.len() {
                    if success {
                        if next + 1 < units.len() {
                            Phase::CompileSources { units, next: next + 1 }
                        } else {
                            Phase::Done
                        }
                    } else {
                        let source = units[next].source.clone();
                        Phase::Failed {
                            error: BuildError::CompileFailed { source, stdout, stderr },
                        }
                    }
                } else {
                    Phase::CompileSources { units, next }
                }
            },
            (other, _) => other,
        };
        Pipeline {
            target,
            libbpf_dir,
            clang,
            host_arch,
            rust_dir,
            src_dir,
            out_dir,
            include_dir,
            phase: next_phase,
        }
    }

    /// The error the pipeline failed with, if it failed.
    pub fn error(&self) -> (r: Option<&BuildError>)
        ensures
            r matches Some(e) ==> self@.phase == (PhaseView::Failed { error: e@ }),
            r is None <==> !(self@.phase is Failed),
    {
        match &self.phase {
            Phase::Failed { error } => Some(error),
            _ => None,
        }
    }
}

/// The pipeline after a whole sequence of reported outcomes.
pub open spec fn spec_run(v: PipelineView, evs: Seq<EventView>) -> PipelineView
    decreases evs.len(),
{
    if evs.len() == 0 {
        v
    } else {
        spec_run(spec_step(v, evs[0]), evs.drop_first())
    }
}

/// A failed pipeline stays failed: every later event leaves it unchanged,
/// so it never issues another action.
pub proof fn lemma_failed_is_absorbing(v: PipelineView, evs: Seq<EventView>)
    requires
        v.phase is Failed,
    ensures
        spec_run(v, evs) == v,
        spec_action(v) is None,
    decreases evs.len(),
{
    if evs.len() > 0 {
        assert(spec_step(v, evs[0]) == v);
        lemma_failed_is_absorbing(v, evs.drop_first());
    }
}

/// A completed pipeline stays completed: every later event leaves it
/// unchanged, and it issues no further action.
pub proof fn lemma_done_is_absorbing(v: PipelineView, evs: Seq<EventView>)
    requires
        v.phase is Done,
    ensures
        spec_run(v, evs) == v,
        spec_action(v) is None,
    decreases evs.len(),
{
    if evs.len() > 0 {
        assert(spec_step(v, evs[0]) == v);
        lemma_done_is_absorbing(v, evs.drop_first());
    }
}

/// One compiler invocation per unit: in the compile phase, each
/// successful outcome advances to the next unit, so after `i` successful
/// outcomes the pipeline stands at unit `next + i` — whose compilation is
/// the one action it asks for — and once every unit is compiled it is
/// done and asks for nothing more.
pub proof fn lemma_one_invocation_per_unit(v: PipelineView, evs: Seq<EventView>)
    requires
        v.phase is CompileSources,
        0 <= v.phase->CompileSources_next < v.phase->CompileSources_units.len(),
        forall|j: int|
            0 <= j < evs.len() ==> (#[trigger] evs[j]) matches EventView::FinishedCaptured {
                success: true,
                ..
            },
    ensures
        forall|i: int|
            0 <= i <= evs.len() ==> ({
                let units = v.phase->CompileSources_units;
                let next = v.phase->CompileSources_next;
                let w = #[trigger] spec_run(v, evs.take(i));
                &&& next + i < units.len() ==> w.phase == (PhaseView::CompileSources {
                    units,
                    next: next + i,
                })
                &&& next + i >= units.len() && i > 0 ==> w.phase is Done
            }),
    decreases evs.len(),
{
    let units = v.phase->CompileSources_units;
    let next = v.phase->CompileSources_next;
    assert forall|i: int| 0 <= i <= evs.len() implies ({
        let w = #[trigger] spec_run(v, evs.take(i));
        &&& next + i < units.len() ==> w.phase == (PhaseView::CompileSources {
            units,
            next: next + i,
        })
        &&& next + i >= units.len() && i > 0 ==> w.phase is Done
    }) by {
        if i == 0 {
            assert(evs.take(0) =~= Seq::<EventView>::empty());
            assert(spec_run(v, evs.take(0)) == v);
        } else {
            assert(evs[0] matches EventView::FinishedCaptured { success: true, .. });
            let v1 = spec_step(v, evs[0]);
            assert(evs.take(i).drop_first() =~= evs.drop_first().take(i - 1));
            assert(evs.take(i)[0] == evs[0]);
            assert(spec_run(v, evs.take(i)) == spec_run(v1, evs.drop_first().take(i - 1)));
            if next + 1 < units.len() {
                assert(v1.phase == (PhaseView::CompileSources { units, next: next + 1 }));
                lemma_one_invocation_per_unit(v1, evs.drop_first());
            } else {
                assert(v1.phase is Done);
                lemma_done_is_absorbing(v1, evs.drop_first().take(i - 1));
            }
        }
    }
}

/// When the header-install step fails, the pipeline fails for good: no
/// later event revives it, and in particular it never reaches the compile
/// phase, so no C compiler invocation occurs afterward — `spec_action`
/// issues the compiler command only in the compile phase.
pub proof fn lemma_header_install_failure_halts(
    v: PipelineView,
    ev: EventView,
    evs: Seq<EventView>,
)
    requires
        v.phase is InstallHeaders,
        ev matches EventView::Finished { success: false },
    ensures
        spec_step(v, ev).phase == (PhaseView::Failed { error: BuildErrorView::HeaderInstallFailed }),
        spec_run(spec_step(v, ev), evs) == spec_step(v, ev),
        spec_action(spec_run(spec_step(v, ev), evs)) is None,
{
    lemma_failed_is_absorbing(spec_step(v, ev), evs);
}

/// No transition enters the Rust-build phase: it can only be the initial
/// phase, and only when the configuration asks for it.
pub proof fn lemma_step_never_enters_rust_build(v: PipelineView, ev: EventView)
    requires
        !(v.phase is RustBuild),
    ensures
        !(spec_step(v, ev).phase is RustBuild),
{
}

/// When the Rust-build flag is absent, the Rust builder is never invoked:
/// the pipeline starts past the Rust-build phase, never returns to it in
/// any later state, and still performs the header install and the C
/// compilation, beginning with the include directory.
pub proof fn lemma_no_rust_build_without_flag(
    target: Architecture,
    libbpf_dir: Seq<char>,
    root: Seq<char>,
    clang_override: Option<Seq<char>>,
    host_arch: Seq<char>,
    evs: Seq<EventView>,
)
    ensures
        spec_init(target, false, libbpf_dir, root, clang_override, host_arch).phase
            == PhaseView::CreateIncludeDir,
        forall|i: int|
            0 <= i <= evs.len() ==> !((#[trigger] spec_run(
                spec_init(target, false, libbpf_dir, root, clang_override, host_arch),
                evs.take(i),
            )).phase is RustBuild),
{
    lemma_rust_build_unreachable(
        spec_init(target, false, libbpf_dir, root, clang_override, host_arch),
        evs,
    );
}

/// Without the Rust-build flag the pipeline still performs the header
/// install and the C compilation: successful steps lead from the initial
/// phase through the include directory and the header install to the
/// source listing, and a listing that holds a C source enters the compile
/// phase.
pub proof fn lemma_pipeline_without_flag_still_compiles(
    target: Architecture,
    libbpf_dir: Seq<char>,
    root: Seq<char>,
    clang_override: Option<Seq<char>>,
    host_arch: Seq<char>,
    names: Seq<Seq<char>>,
)
    requires
        spec_units(names, spec_c_source_dir(root), spec_output_dir(root, target)).len() > 0,
    ensures
        ({
            let v0 = spec_init(target, false, libbpf_dir, root, clang_override, host_arch);
            let v1 = spec_step(v0, EventView::Finished { success: true });
            let v2 = spec_step(v1, EventView::Finished { success: true });
            let v3 = spec_step(v2, EventView::Listed { names });
            &&& v0.phase is CreateIncludeDir
            &&& v1.phase is InstallHeaders
            &&& v2.phase is ListSources
            &&& v3.phase is CompileSources
            &&& spec_action(v1) matches Some(ActionView::Run { command }) && command.program
                == "make"@
        }),
{
}

/// From any state outside the Rust-build phase, no run of events ever
/// reaches the Rust-build phase.
pub proof fn lemma_rust_build_unreachable(v: PipelineView, evs: Seq<EventView>)
    requires
        !(v.phase is RustBuild),
    ensures
        forall|i: int|
            0 <= i <= evs.len() ==> !((#[trigger] spec_run(v, evs.take(i))).phase is RustBuild),
    decreases evs.len(),
{
    assert forall|i: int|
        0 <= i <= evs.len() implies !((#[trigger] spec_run(v, evs.take(i))).phase
        is RustBuild) by {
        if i == 0 {
            assert(evs.take(0) =~= Seq::<EventView>::empty());
            assert(spec_run(v, evs.take(0)) == v);
        } else {
            let w = spec_step(v, evs[0]);
            lemma_step_never_enters_rust_build(v, evs[0]);
            lemma_rust_build_unreachable(w, evs.drop_first());
            assert(evs.take(i).drop_first() =~= evs.drop_first().take(i - 1));
            assert(evs.take(i)[0] == evs[0]);
            assert(spec_run(v, evs.take(i)) == spec_run(w, evs.drop_first().take(i - 1)));
        }
    }
}

} // verus!
