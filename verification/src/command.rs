//! The exact external commands the pipeline drives: the release build of the
//! resolved unit, and the optional in-place compression pass. Both are
//! described as plain data — program, arguments, working directory — so the
//! caller that spawns them adds no logic of its own.

use vstd::prelude::*;

use crate::resolve::{BuildConfig, ResolvedTarget};

verus! {

/// An external command to run to completion; success is its exit status.
pub struct CommandSpec {
    /// The program to invoke.
    pub program: String,
    /// Its arguments, in order.
    pub args: Vec<String>,
    /// The directory to run it from, when one is prescribed.
    pub dir: Option<String>,
}

/// The build arguments: a nightly release build of the single resolved unit
/// for the configured triple, with abort-on-panic and size-first
/// optimization each independently toggleable, and single codegen unit,
/// whole-program link-time optimization and stripping always applied.
pub open spec fn compile_args(cfg: BuildConfig, bin_name: Seq<char>) -> Seq<Seq<char>> {
    seq!["+nightly"@, "build"@, "--target="@ + cfg.target@] + (if !cfg.panic_unwind {
        seq![
            "-Zbuild-std=std,panic_abort"@,
            "-Zbuild-std-features=panic_immediate_abort"@,
            "--config=profile.release.panic=\"abort\""@,
        ]
    } else {
        Seq::empty()
    }) + (if !cfg.no_opt_size {
        seq!["--config=profile.release.opt-level=\"s\""@]
    } else {
        Seq::empty()
    }) + seq![
        "--config=profile.release.codegen-units=1"@,
        "--config=profile.release.lto=true"@,
        "--config=profile.release.strip=true"@,
        "--release"@,
        "--bin"@,
        bin_name,
    ]
}

/// Builds the external build invocation for the resolved unit: the cross
/// wrapper or the native toolchain, the exact argument list, run from the
/// unit's package directory.
pub fn compile_command(cfg: &BuildConfig, target: &ResolvedTarget) -> (r: CommandSpec)
    ensures
        r.program@ == if cfg.use_cross {
            "cross"@
        } else {
            "cargo"@
        },
        r.args.deep_view() == compile_args(*cfg, target.bin_name@),
        r.dir matches Some(d) && d@ == target.compile_dir@,
{
    let program = if cfg.use_cross {
        "cross".to_owned()
    } else {
        "cargo".to_owned()
    };
    let mut args: Vec<String> = Vec::new();
    args.push("+nightly".to_owned());
    args.push("build".to_owned());
    let mut target_arg = "--target=".to_owned();
    target_arg.append(cfg.target.as_str());
    args.push(target_arg);
    if !cfg.panic_unwind {
        args.push("-Zbuild-std=std,panic_abort".to_owned());
        args.push("-Zbuild-std-features=panic_immediate_abort".to_owned());
        args.push("--config=profile.release.panic=\"abort\"".to_owned());
    }
    if !cfg.no_opt_size {
        args.push("--config=profile.release.opt-level=\"s\"".to_owned());
    }
    args.push("--config=profile.release.codegen-units=1".to_owned());
    args.push("--config=profile.release.lto=true".to_owned());
    args.push("--config=profile.release.strip=true".to_owned());
    args.push("--release".to_owned());
    args.push("--bin".to_owned());
    args.push(target.bin_name.clone());
    proof {
        assert(args.deep_view() =~~= compile_args(*cfg, target.bin_name@));
    }
    CommandSpec { program, args, dir: Some(target.compile_dir.clone()) }
}

/// The compression arguments: a best-effort, maximum-ratio, quiet pass on
/// the artifact path, in place.
pub open spec fn compress_args(binary_path: Seq<char>) -> Seq<Seq<char>> {
    seq!["--best"@, "--lzma"@, "-qq"@, binary_path]
}

/// Builds the external compression invocation for the resolved artifact.
pub fn compress_command(target: &ResolvedTarget) -> (r: CommandSpec)
    ensures
        r.program@ == "upx"@,
        r.args.deep_view() == compress_args(target.binary_path@),
        r.dir is None,
{
    let mut args: Vec<String> = Vec::new();
    args.push("--best".to_owned());
    args.push("--lzma".to_owned());
    args.push("-qq".to_owned());
    args.push(target.binary_path.clone());
    proof {
        assert(args.deep_view() =~~= compress_args(target.binary_path@));
    }
    CommandSpec { program: "upx".to_owned(), args, dir: None }
}

} // verus!
