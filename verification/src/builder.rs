//! The staged build orchestrator's decision core.  Three stages run in fixed
//! order — generate the configure script, generate the build files, compile
//! and install — and each is skipped only when its marker output already
//! exists, no force flag demands it, and no earlier stage ran: re-running an
//! earlier stage invalidates the skip decision of every later one.  The
//! commands themselves are plain data; an adapter runs them and hands the
//! captured outcomes back.

use vstd::prelude::*;

use crate::text::{contains_seq, contains_str, str_eq};
use crate::version::{spec_parse_version, Version, VersionParseError};
use crate::{ExecOutput, Ruby};

verus! {

/// One discrete external-tool step of the build sequence.
#[derive(Clone, Copy, Debug, PartialEq, Eq, Structural)]
pub enum BuildStage {
    /// Generating the configure script (`autoconf`).
    GenerateConfigureScript,
    /// Generating the build files (the `configure` run).
    GenerateMakefile,
    /// Compiling and installing (`make install`).
    CompileAndInstall,
}

/// The filesystem evidence the skip predicates read: whether each stage's
/// marker output already exists.
#[derive(Clone, Copy, Debug)]
pub struct StageEvidence {
    /// The configure script exists in the source tree.
    pub configure_exists: bool,
    /// The Makefile exists in the source tree.
    pub makefile_exists: bool,
    /// The installed `ruby` binary exists under the output directory.
    pub bin_exists: bool,
}

/// Which stages one build invocation runs.
#[derive(Clone, Copy, Debug, PartialEq, Eq, Structural)]
pub struct StagePlan {
    /// Whether the configure-script stage runs.
    pub run_autoconf: bool,
    /// Whether the build-file stage runs.
    pub run_configure: bool,
    /// Whether the compile-and-install stage runs.
    pub run_make: bool,
}

/// The stage-skip rule: a stage runs when its marker is missing, its force
/// flag is set, or an earlier stage runs; on an MSVC-style toolchain the
/// configure-script stage never runs.
pub open spec fn spec_plan(
    msvc: bool,
    force_autoconf: bool,
    force_configure: bool,
    force_make: bool,
    evidence: StageEvidence,
) -> StagePlan {
    let run_autoconf = !msvc && (force_autoconf || !evidence.configure_exists);
    let run_configure = run_autoconf || force_configure || !evidence.makefile_exists;
    let run_make = run_configure || force_make || !evidence.bin_exists;
    StagePlan { run_autoconf, run_configure, run_make }
}

/// The cascade is mandatory: whenever a stage runs, every later stage runs.
pub proof fn lemma_stage_cascade(
    msvc: bool,
    force_autoconf: bool,
    force_configure: bool,
    force_make: bool,
    evidence: StageEvidence,
)
    ensures
        spec_plan(msvc, force_autoconf, force_configure, force_make, evidence).run_autoconf
            ==> spec_plan(msvc, force_autoconf, force_configure, force_make, evidence).run_configure,
        spec_plan(msvc, force_autoconf, force_configure, force_make, evidence).run_configure
            ==> spec_plan(msvc, force_autoconf, force_configure, force_make, evidence).run_make,
{
}

/// With every marker already present and no force flag set, no stage runs:
/// the whole build is a no-op.
pub proof fn lemma_satisfied_build_runs_nothing(msvc: bool, evidence: StageEvidence)
    requires
        evidence.configure_exists,
        evidence.makefile_exists,
        evidence.bin_exists,
    ensures
        spec_plan(msvc, false, false, false, evidence) == (StagePlan {
            run_autoconf: false,
            run_configure: false,
            run_make: false,
        }),
{
}

/// With only the installed binary missing, exactly the compile-and-install
/// stage runs.
pub proof fn lemma_missing_binary_runs_make_alone(msvc: bool, evidence: StageEvidence)
    requires
        evidence.configure_exists,
        evidence.makefile_exists,
        !evidence.bin_exists,
    ensures
        spec_plan(msvc, false, false, false, evidence) == (StagePlan {
            run_autoconf: false,
            run_configure: false,
            run_make: true,
        }),
{
}

/// One external command, as plain data: the program, its arguments, and the
/// extra environment entries it runs with.  Every build command runs with
/// the source tree as its working directory.
#[derive(Debug)]
pub struct CommandSpec {
    /// The program to run.
    pub program: String,
    /// Its arguments, in order.
    pub args: Vec<String>,
    /// Extra environment entries, as key/value pairs.
    pub env: Vec<(String, String)>,
}

/// The error returned when a build fails.
#[derive(Debug)]
pub enum RubyBuildError {
    /// Failed to spawn a process for `autoconf`; the payload describes why.
    AutoconfSpawnFail(String),
    /// `autoconf` exited unsuccessfully.
    AutoconfFail(ExecOutput),
    /// Failed to spawn a process for `configure`.
    ConfigureSpawnFail(String),
    /// `configure` exited unsuccessfully.
    ConfigureFail(ExecOutput),
    /// Failed to spawn a process for `make`.
    MakeSpawnFail(String),
    /// `make` exited unsuccessfully.
    MakeFail(ExecOutput),
    /// Failed to spawn a process for the installed `ruby`.
    RubySpawnFail(String),
    /// The installed runtime's version output is not UTF-8.
    RubyVersionUtf8Fail(Vec<u8>),
    /// The installed runtime's version output does not parse as a version.
    RubyVersionParseFail(VersionParseError),
}

/// Interprets one stage's captured outcome: a successful exit lets the build
/// go on, and a failing exit is that stage's failure, carrying the whole
/// captured output.
pub fn stage_outcome(stage: BuildStage, output: ExecOutput) -> (r: Result<(), RubyBuildError>)
    ensures
        match r {
            Ok(_) => output.success,
            Err(e) => !output.success && match stage {
                BuildStage::GenerateConfigureScript => e matches RubyBuildError::AutoconfFail(o)
                    && o == output,
                BuildStage::GenerateMakefile => e matches RubyBuildError::ConfigureFail(o) && o
                    == output,
                BuildStage::CompileAndInstall => e matches RubyBuildError::MakeFail(o) && o
                    == output,
            },
        },
{
    if output.success {
        Ok(())
    } else {
        match stage {
            BuildStage::GenerateConfigureScript => Err(RubyBuildError::AutoconfFail(output)),
            BuildStage::GenerateMakefile => Err(RubyBuildError::ConfigureFail(output)),
            BuildStage::CompileAndInstall => Err(RubyBuildError::MakeFail(output)),
        }
    }
}

/// Names the stage whose tool could not be spawned, keeping the reason.
pub fn spawn_failure(stage: BuildStage, message: String) -> (r: RubyBuildError)
    ensures
        match stage {
            BuildStage::GenerateConfigureScript => r matches RubyBuildError::AutoconfSpawnFail(m)
                && m == message,
            BuildStage::GenerateMakefile => r matches RubyBuildError::ConfigureSpawnFail(m) && m
                == message,
            BuildStage::CompileAndInstall => r matches RubyBuildError::MakeSpawnFail(m) && m
                == message,
        },
{
    match stage {
        BuildStage::GenerateConfigureScript => RubyBuildError::AutoconfSpawnFail(message),
        BuildStage::GenerateMakefile => RubyBuildError::ConfigureSpawnFail(message),
        BuildStage::CompileAndInstall => RubyBuildError::MakeSpawnFail(message),
    }
}

/// Maps a Rust target triple to the triple Ruby's build system accepts.
pub open spec fn spec_ruby_target(t: Seq<char>) -> Seq<char> {
    if t == "x86_64-pc-windows-msvc"@ {
        "x84_64-mswin64"@
    } else if t == "x86_64-pc-windows-gnu"@ {
        "x86_64-pc-mingw32"@
    } else if t == "i686-pc-windows-msvc"@ {
        "x86-mswin32"@
    } else if t == "i686-pc-windows-gnu"@ {
        "x86-pc-mingw32"@
    } else {
        t
    }
}

/// Processes `target` to make it usable with building Ruby for Windows.
pub fn convert_to_ruby(target: &str) -> (r: &str)
    ensures
        r@ == spec_ruby_target(target@),
{
    if str_eq(target, "x86_64-pc-windows-msvc") {
        "x84_64-mswin64"
    } else if str_eq(target, "x86_64-pc-windows-gnu") {
        "x86_64-pc-mingw32"
    } else if str_eq(target, "i686-pc-windows-msvc") {
        "x86-mswin32"
    } else if str_eq(target, "i686-pc-windows-gnu") {
        "x86-pc-mingw32"
    } else {
        target
    }
}

/// Maps a Ruby-style Windows triple back to the Rust triple that locates the
/// vendor toolchain.
pub open spec fn spec_rust_target(t: Seq<char>) -> Seq<char> {
    if contains_seq(t, "mswin"@) {
        if contains_seq(t, "64"@) {
            "x86_64-pc-windows-msvc"@
        } else {
            "i686-pc-windows-msvc"@
        }
    } else {
        t
    }
}

/// Processes `target` to make it usable with the vendor-toolchain lookup.
pub fn convert_to_rust(target: &str) -> (r: &str)
    ensures
        r@ == spec_rust_target(target@),
{
    if contains_str(target, "mswin") {
        if contains_str(target, "64") {
            "x86_64-pc-windows-msvc"
        } else {
            "i686-pc-windows-msvc"
        }
    } else {
        target
    }
}

/// Configures and builds Ruby: a plain configuration record, accumulated
/// freely and consumed by one build invocation.
#[derive(Debug)]
pub struct RubyBuilder {
    /// The unpacked source tree the stages run in.
    pub src_dir: String,
    /// Where the built runtime is installed.
    pub out_dir: String,
    /// The Ruby-style target triple handed to `configure`.
    pub ruby_target: String,
    /// Whether the toolchain is MSVC-style: the configure-script stage is
    /// then never run, and the vendor's make substitute compiles.
    pub target_msvc: bool,
    /// Run the configure-script stage even when the script exists.
    pub force_autoconf: bool,
    /// Extra arguments for `autoconf`.
    pub autoconf_args: Vec<String>,
    /// Run `configure` even when the Makefile exists.
    pub force_configure: bool,
    /// Extra arguments for `configure`.
    pub configure_args: Vec<String>,
    /// Run `make install` even when the installed binary exists.
    pub force_make: bool,
    /// Extra arguments for `make install`.
    pub make_args: Vec<String>,
}

impl RubyBuilder {
    /// Creates a builder over `src_dir` installing into `out_dir`, for the
    /// given Rust target triple; `target_msvc` says whether the vendor
    /// toolchain drives the build.
    pub fn new(src_dir: String, out_dir: String, target: &str, target_msvc: bool) -> (r: Self)
        ensures
            r.src_dir == src_dir,
            r.out_dir == out_dir,
            r.ruby_target@ == spec_ruby_target(target@),
            r.target_msvc == target_msvc,
            !r.force_autoconf && !r.force_configure && !r.force_make,
            r.autoconf_args@ =~= Seq::<String>::empty(),
            r.configure_args@ =~= Seq::<String>::empty(),
            r.make_args@ =~= Seq::<String>::empty(),
    {
        let ruby_target = String::from_str(convert_to_ruby(target));
        RubyBuilder {
            src_dir,
            out_dir,
            ruby_target,
            target_msvc,
            force_autoconf: false,
            autoconf_args: Vec::new(),
            force_configure: false,
            configure_args: Vec::new(),
            force_make: false,
            make_args: Vec::new(),
        }
    }

    /// Run the configure-script stage, even when the script already exists.
    pub fn force_autoconf(self) -> (r: Self)
        ensures
            r == (RubyBuilder { force_autoconf: true, ..self }),
    {
        RubyBuilder { force_autoconf: true, ..self }
    }

    /// Pass `args` into `autoconf` when generating the configure script.
    pub fn autoconf_args(self, args: Vec<String>) -> (r: Self)
        ensures
            r.autoconf_args@ == self.autoconf_args@ + args@,
            r == (RubyBuilder { autoconf_args: r.autoconf_args, ..self }),
    {
        let mut out = self;
        let mut args = args;
        out.autoconf_args.append(&mut args);
        out
    }

    /// Run `configure`, even when the Makefile already exists.
    pub fn force_configure(self) -> (r: Self)
        ensures
            r == (RubyBuilder { force_configure: true, ..self }),
    {
        RubyBuilder { force_configure: true, ..self }
    }

    /// Pass `args` into the `configure` script.
    pub fn configure_args(self, args: Vec<String>) -> (r: Self)
        ensures
            r.configure_args@ == self.configure_args@ + args@,
            r == (RubyBuilder { configure_args: r.configure_args, ..self }),
    {
        let mut out = self;
        let mut args = args;
        out.configure_args.append(&mut args);
        out
    }

    /// Run `make install`, even when the installed binary already exists.
    pub fn force_make(self) -> (r: Self)
        ensures
            r == (RubyBuilder { force_make: true, ..self }),
    {
        RubyBuilder { force_make: true, ..self }
    }

    /// Pass `args` into `make install`.
    pub fn make_args(self, args: Vec<String>) -> (r: Self)
        ensures
            r.make_args@ == self.make_args@ + args@,
            r == (RubyBuilder { make_args: r.make_args, ..self }),
    {
        let mut out = self;
        let mut args = args;
        out.make_args.append(&mut args);
        out
    }

    /// Decides which stages this invocation runs, from the filesystem
    /// evidence: exactly [`spec_plan`].
    pub fn plan(&self, evidence: StageEvidence) -> (p: StagePlan)
        ensures
            p == spec_plan(
                self.target_msvc,
                self.force_autoconf,
                self.force_configure,
                self.force_make,
                evidence,
            ),
    {
        let run_autoconf = !self.target_msvc && (self.force_autoconf || !evidence.configure_exists);
        let run_configure = run_autoconf || self.force_configure || !evidence.makefile_exists;
        let run_make = run_configure || self.force_make || !evidence.bin_exists;
        StagePlan { run_autoconf, run_configure, run_make }
    }

    /// The command of the configure-script stage: `autoconf` with the
    /// accumulated arguments.
    pub fn autoconf_command(&self) -> (r: CommandSpec)
        ensures
            r.program@ == "autoconf"@,
            r.args@ == self.autoconf_args@,
            r.env@ =~= Seq::<(String, String)>::empty(),
    {
        let mut args: Vec<String> = Vec::new();
        let mut extra = clone_strings(&self.autoconf_args);
        args.append(&mut extra);
        proof {
            assert(args@ =~= self.autoconf_args@);
        }
        CommandSpec { program: String::from_str("autoconf"), args, env: Vec::new() }
    }

    /// The command of the build-file stage: the source tree's configure
    /// script, handed the install prefix, the target triple, and the
    /// accumulated arguments.
    pub fn configure_command(&self) -> (r: CommandSpec)
        ensures
            r.program@ == self.src_dir@ + (if self.target_msvc {
                "/win32/configure.bat"@
            } else {
                "/configure"@
            }),
            r.args@.len() == 2 + self.configure_args@.len(),
            r.args@[0]@ == "--prefix="@ + self.out_dir@,
            r.args@[1]@ == "--target="@ + self.ruby_target@,
            r.args@.skip(2) == self.configure_args@,
            r.env@ =~= Seq::<(String, String)>::empty(),
    {
        let program = if self.target_msvc {
            self.src_dir.clone().concat("/win32/configure.bat")
        } else {
            self.src_dir.clone().concat("/configure")
        };
        let mut args: Vec<String> = Vec::new();
        args.push(String::from_str("--prefix=").concat(self.out_dir.as_str()));
        args.push(String::from_str("--target=").concat(self.ruby_target.as_str()));
        let mut extra = clone_strings(&self.configure_args);
        args.append(&mut extra);
        proof {
            assert(args@.skip(2) =~= self.configure_args@);
        }
        CommandSpec { program, args, env: Vec::new() }
    }

    /// The command of the compile-and-install stage: `make install` (or the
    /// vendor substitute `nmake install`), with the accumulated arguments,
    /// and `PREFIX` set to the output directory.
    pub fn make_command(&self) -> (r: CommandSpec)
        ensures
            r.program@ == (if self.target_msvc {
                "nmake"@
            } else {
                "make"@
            }),
            r.args@.len() == 1 + self.make_args@.len(),
            r.args@[0]@ == "install"@,
            r.args@.skip(1) == self.make_args@,
            r.env@.len() == 1,
            r.env@[0].0@ == "PREFIX"@,
            r.env@[0].1@ == self.out_dir@,
    {
        let program = if self.target_msvc {
            String::from_str("nmake")
        } else {
            String::from_str("make")
        };
        let mut args: Vec<String> = Vec::new();
        args.push(String::from_str("install"));
        let mut extra = clone_strings(&self.make_args);
        args.append(&mut extra);
        let mut env: Vec<(String, String)> = Vec::new();
        env.push((String::from_str("PREFIX"), self.out_dir.clone()));
        proof {
            assert(args@.skip(1) =~= self.make_args@);
        }
        CommandSpec { program, args, env }
    }

    /// The terminal step of a successful stage sequence: reads the installed
    /// runtime's self-reported version from the bytes it printed, under the
    /// strictest grammar, and packages the installation handle.
    pub fn finish_build(self, version_stdout: Vec<u8>) -> (r: Result<Ruby, RubyBuildError>)
        ensures
            match r {
                Ok(ruby) => vstd::utf8::valid_utf8(version_stdout@) && spec_parse_version(
                    true,
                    true,
                    vstd::utf8::decode_utf8(version_stdout@),
                ) == Ok::<crate::version::VersionView, VersionParseError>(ruby.spec_version())
                    && ruby.spec_out_dir() == self.out_dir@ && ruby.spec_lib_dir() == self.out_dir@
                    + "/lib"@ && ruby.spec_bin_path() == self.out_dir@ + "/bin/ruby"@
                    && ruby.spec_config() =~= Seq::<(Seq<char>, Seq<char>)>::empty(),
                Err(e) => match e {
                    RubyBuildError::RubyVersionUtf8Fail(b) => !vstd::utf8::valid_utf8(
                        version_stdout@,
                    ) && b@ == version_stdout@,
                    RubyBuildError::RubyVersionParseFail(pe) => vstd::utf8::valid_utf8(
                        version_stdout@,
                    ) && spec_parse_version(true, true, vstd::utf8::decode_utf8(version_stdout@))
                        == Err::<crate::version::VersionView, VersionParseError>(pe),
                    _ => false,
                },
            },
    {
        let utf8 = match crate::utf8_vec_to_string(version_stdout) {
            Ok(s) => s,
            Err(b) => {
                return Err(RubyBuildError::RubyVersionUtf8Fail(b));
            },
        };
        let mut parser = Version::parser();
        parser.require_all();
        match parser.parse(utf8.as_str()) {
            Ok(version) => Ok(Ruby::new(version, self.out_dir)),
            Err(e) => Err(RubyBuildError::RubyVersionParseFail(e)),
        }
    }
}

/// A fresh copy of a list of strings.
fn clone_strings(v: &Vec<String>) -> (r: Vec<String>)
    ensures
        r@ == v@,
{
    let mut out: Vec<String> = Vec::new();
    let n = v.len();
    let mut i: usize = 0;
    while i < n
        invariant
            n == v.len(),
            0 <= i <= n,
            out@ =~= v@.subrange(0, i as int),
        decreases n - i,
    {
        out.push(v[i].clone());
        proof {
            assert(out@ =~= v@.subrange(0, i + 1));
        }
        i += 1;
    }
    proof {
        assert(v@.subrange(0, n as int) =~= v@);
    }
    out
}

} // verus!
