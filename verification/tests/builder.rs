use aloxide::builder::{BuildStage, RubyBuilder, RubyBuildError, StageEvidence, StagePlan};
use aloxide::version::Version;
use aloxide::ExecOutput;

fn builder() -> RubyBuilder {
    RubyBuilder::new(
        "/work/src/ruby-2.6.0".to_string(),
        "/work/out".to_string(),
        "x86_64-unknown-linux-gnu",
        false,
    )
}

#[test]
fn satisfied_build_runs_nothing() {
    let plan = builder().plan(StageEvidence {
        configure_exists: true,
        makefile_exists: true,
        bin_exists: true,
    });
    assert_eq!(
        plan,
        StagePlan { run_autoconf: false, run_configure: false, run_make: false }
    );
}

#[test]
fn missing_binary_runs_make_alone() {
    let plan = builder().plan(StageEvidence {
        configure_exists: true,
        makefile_exists: true,
        bin_exists: false,
    });
    assert_eq!(
        plan,
        StagePlan { run_autoconf: false, run_configure: false, run_make: true }
    );
}

#[test]
fn missing_configure_cascades() {
    let plan = builder().plan(StageEvidence {
        configure_exists: false,
        makefile_exists: true,
        bin_exists: true,
    });
    assert_eq!(
        plan,
        StagePlan { run_autoconf: true, run_configure: true, run_make: true }
    );
}

#[test]
fn force_flags_override_markers() {
    let evidence = StageEvidence {
        configure_exists: true,
        makefile_exists: true,
        bin_exists: true,
    };
    let plan = builder().force_configure().plan(evidence);
    assert_eq!(
        plan,
        StagePlan { run_autoconf: false, run_configure: true, run_make: true }
    );
    let plan = builder().force_make().plan(evidence);
    assert_eq!(
        plan,
        StagePlan { run_autoconf: false, run_configure: false, run_make: true }
    );
}

#[test]
fn msvc_never_runs_autoconf() {
    let msvc = RubyBuilder::new(
        "C:/src/ruby".to_string(),
        "C:/out".to_string(),
        "x86_64-pc-windows-msvc",
        true,
    );
    let plan = msvc.force_autoconf().plan(StageEvidence {
        configure_exists: false,
        makefile_exists: true,
        bin_exists: true,
    });
    assert_eq!(
        plan,
        StagePlan { run_autoconf: false, run_configure: false, run_make: false }
    );
}

#[test]
fn commands_carry_configuration() {
    let b = builder()
        .autoconf_args(vec!["-f".to_string()])
        .configure_args(vec!["--disable-install-doc".to_string()])
        .make_args(vec!["-j4".to_string()]);

    let autoconf = b.autoconf_command();
    assert_eq!(autoconf.program, "autoconf");
    assert_eq!(autoconf.args, vec!["-f".to_string()]);
    assert!(autoconf.env.is_empty());

    let configure = b.configure_command();
    assert_eq!(configure.program, "/work/src/ruby-2.6.0/configure");
    assert_eq!(
        configure.args,
        vec![
            "--prefix=/work/out".to_string(),
            "--target=x86_64-unknown-linux-gnu".to_string(),
            "--disable-install-doc".to_string(),
        ]
    );

    let make = b.make_command();
    assert_eq!(make.program, "make");
    assert_eq!(make.args, vec!["install".to_string(), "-j4".to_string()]);
    assert_eq!(
        make.env,
        vec![("PREFIX".to_string(), "/work/out".to_string())]
    );
}

#[test]
fn target_triples_convert() {
    assert_eq!(
        aloxide::builder::convert_to_ruby("x86_64-pc-windows-msvc"),
        "x84_64-mswin64"
    );
    assert_eq!(
        aloxide::builder::convert_to_ruby("i686-pc-windows-gnu"),
        "x86-pc-mingw32"
    );
    assert_eq!(
        aloxide::builder::convert_to_ruby("aarch64-apple-darwin"),
        "aarch64-apple-darwin"
    );
    assert_eq!(
        aloxide::builder::convert_to_rust("x64-mswin64_140"),
        "x86_64-pc-windows-msvc"
    );
    assert_eq!(
        aloxide::builder::convert_to_rust("x86-mswin32"),
        "i686-pc-windows-msvc"
    );
    assert_eq!(
        aloxide::builder::convert_to_rust("aarch64-apple-darwin"),
        "aarch64-apple-darwin"
    );
}

#[test]
fn stage_outcome_maps_failures() {
    let ok = ExecOutput { success: true, stdout: Vec::new(), stderr: Vec::new() };
    assert!(aloxide::builder::stage_outcome(BuildStage::GenerateMakefile, ok).is_ok());

    let bad = ExecOutput { success: false, stdout: Vec::new(), stderr: b"no cc".to_vec() };
    match aloxide::builder::stage_outcome(BuildStage::GenerateMakefile, bad).unwrap_err() {
        RubyBuildError::ConfigureFail(o) => assert_eq!(o.stderr, b"no cc".to_vec()),
        other => panic!("expected ConfigureFail, got {other:?}"),
    }

    let bad = ExecOutput { success: false, stdout: Vec::new(), stderr: Vec::new() };
    assert!(matches!(
        aloxide::builder::stage_outcome(BuildStage::GenerateConfigureScript, bad).unwrap_err(),
        RubyBuildError::AutoconfFail(_)
    ));
    let bad = ExecOutput { success: false, stdout: Vec::new(), stderr: Vec::new() };
    assert!(matches!(
        aloxide::builder::stage_outcome(BuildStage::CompileAndInstall, bad).unwrap_err(),
        RubyBuildError::MakeFail(_)
    ));
}

#[test]
fn spawn_failure_names_the_stage() {
    assert!(matches!(
        aloxide::builder::spawn_failure(BuildStage::GenerateConfigureScript, "gone".to_string()),
        RubyBuildError::AutoconfSpawnFail(_)
    ));
    assert!(matches!(
        aloxide::builder::spawn_failure(BuildStage::GenerateMakefile, "gone".to_string()),
        RubyBuildError::ConfigureSpawnFail(_)
    ));
    assert!(matches!(
        aloxide::builder::spawn_failure(BuildStage::CompileAndInstall, "gone".to_string()),
        RubyBuildError::MakeSpawnFail(_)
    ));
}

#[test]
fn finish_build_reads_version() {
    let ruby = builder().finish_build(b"2.6.0".to_vec()).unwrap();
    assert_eq!(ruby.version(), &Version::new(2, 6, 0));
    assert_eq!(ruby.out_dir(), "/work/out");
    assert_eq!(ruby.lib_dir(), "/work/out/lib");
    assert_eq!(ruby.bin_path(), "/work/out/bin/ruby");
}

#[test]
fn finish_build_rejects_bad_version_output() {
    assert!(matches!(
        builder().finish_build(vec![0xff]).unwrap_err(),
        RubyBuildError::RubyVersionUtf8Fail(_)
    ));
    assert!(matches!(
        builder().finish_build(b"2.6".to_vec()).unwrap_err(),
        RubyBuildError::RubyVersionParseFail(_)
    ));
}
