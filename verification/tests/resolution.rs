use binbundle::command::{compile_command, compress_command};
use binbundle::driver::{pipeline_plan, PipelineStage};
use binbundle::report::{size_report, SizeStage};
use binbundle::resolve::{
    resolve, BuildConfig, BuildUnit, PackageMeta, ResolveError, WorkspaceMetadata,
};
use binbundle::Language;

fn config(bin: Option<&str>) -> BuildConfig {
    BuildConfig {
        manifest_path: None,
        output: "main.rs".to_owned(),
        bin: bin.map(|b| b.to_owned()),
        target: "x86_64-unknown-linux-gnu".to_owned(),
        use_cross: false,
        panic_unwind: false,
        no_opt_size: false,
        no_upx: false,
        language: Language::Rust,
    }
}

fn unit(name: &str, is_bin: bool) -> BuildUnit {
    BuildUnit {
        name: name.to_owned(),
        is_bin,
        src_path: format!("/ws/src/{name}.rs"),
    }
}

fn workspace(units: Vec<BuildUnit>) -> WorkspaceMetadata {
    WorkspaceMetadata {
        root_package: Some(PackageMeta {
            manifest_dir: "/ws".to_owned(),
            units,
        }),
        target_directory: "/ws/target".to_owned(),
    }
}

#[test]
fn resolve_fails_without_root_package() {
    let meta = WorkspaceMetadata {
        root_package: None,
        target_directory: "/ws/target".to_owned(),
    };
    assert!(matches!(resolve(&config(None), &meta), Err(ResolveError::NoRootPackage)));
}

#[test]
fn resolve_fails_with_zero_executable_units() {
    let meta = workspace(vec![unit("lib", false), unit("bench", false)]);
    assert!(matches!(resolve(&config(None), &meta), Err(ResolveError::NoBinUnit)));
}

#[test]
fn resolve_fails_when_named_unit_is_absent() {
    let meta = workspace(vec![unit("app", true)]);
    assert!(matches!(resolve(&config(Some("other")), &meta), Err(ResolveError::NoBinUnit)));
}

#[test]
fn resolve_picks_named_unit() {
    let meta = workspace(vec![unit("first", true), unit("second", true)]);
    let t = resolve(&config(Some("second")), &meta).unwrap();
    assert_eq!(t.bin_name, "second");
    assert_eq!(t.compile_dir, "/ws");
    assert_eq!(t.src_path, "/ws/src/second.rs");
    assert_eq!(t.binary_path, "/ws/target/x86_64-unknown-linux-gnu/release/second");
}

#[test]
fn resolve_takes_first_executable_without_selector() {
    let meta = workspace(vec![unit("lib", false), unit("first", true), unit("second", true)]);
    let t = resolve(&config(None), &meta).unwrap();
    assert_eq!(t.bin_name, "first");
}

#[test]
fn compile_command_default_flags() {
    let cfg = config(None);
    let meta = workspace(vec![unit("app", true)]);
    let target = resolve(&cfg, &meta).unwrap();
    let cmd = compile_command(&cfg, &target);
    assert_eq!(cmd.program, "cargo");
    assert_eq!(cmd.dir.as_deref(), Some("/ws"));
    let expected = vec![
        "+nightly",
        "build",
        "--target=x86_64-unknown-linux-gnu",
        "-Zbuild-std=std,panic_abort",
        "-Zbuild-std-features=panic_immediate_abort",
        "--config=profile.release.panic=\"abort\"",
        "--config=profile.release.opt-level=\"s\"",
        "--config=profile.release.codegen-units=1",
        "--config=profile.release.lto=true",
        "--config=profile.release.strip=true",
        "--release",
        "--bin",
        "app",
    ];
    assert_eq!(cmd.args, expected);
}

#[test]
fn compile_command_honours_toggles() {
    let mut cfg = config(None);
    cfg.use_cross = true;
    cfg.panic_unwind = true;
    cfg.no_opt_size = true;
    let meta = workspace(vec![unit("app", true)]);
    let target = resolve(&cfg, &meta).unwrap();
    let cmd = compile_command(&cfg, &target);
    assert_eq!(cmd.program, "cross");
    let expected = vec![
        "+nightly",
        "build",
        "--target=x86_64-unknown-linux-gnu",
        "--config=profile.release.codegen-units=1",
        "--config=profile.release.lto=true",
        "--config=profile.release.strip=true",
        "--release",
        "--bin",
        "app",
    ];
    assert_eq!(cmd.args, expected);
}

#[test]
fn compress_command_targets_artifact_in_place() {
    let meta = workspace(vec![unit("app", true)]);
    let target = resolve(&config(None), &meta).unwrap();
    let cmd = compress_command(&target);
    assert_eq!(cmd.program, "upx");
    assert_eq!(
        cmd.args,
        vec!["--best", "--lzma", "-qq", "/ws/target/x86_64-unknown-linux-gnu/release/app"],
    );
    assert!(cmd.dir.is_none());
}

#[test]
fn plan_runs_compressor_exactly_when_not_opted_out() {
    let cfg = config(None);
    assert_eq!(
        pipeline_plan(&cfg),
        vec![
            PipelineStage::Resolve,
            PipelineStage::Build,
            PipelineStage::Compress,
            PipelineStage::Embed,
            PipelineStage::WriteOutput,
        ],
    );
    let mut cfg = config(None);
    cfg.no_upx = true;
    assert_eq!(
        pipeline_plan(&cfg),
        vec![
            PipelineStage::Resolve,
            PipelineStage::Build,
            PipelineStage::Embed,
            PipelineStage::WriteOutput,
        ],
    );
}

#[test]
fn size_report_lines() {
    let expected = format!("{}", bytesize::ByteSize::b(512));
    assert_eq!(size_report(SizeStage::Built, 512), format!("Built binary size: {expected}"));
    let expected = format!("{}", bytesize::ByteSize::b(1_536_000));
    assert_eq!(
        size_report(SizeStage::Compressed, 1_536_000),
        format!("Compressed binary size: {expected}"),
    );
    let expected = format!("{}", bytesize::ByteSize::b(7));
    assert_eq!(size_report(SizeStage::Bundled, 7), format!("Bundled code size: {expected}"));
}
