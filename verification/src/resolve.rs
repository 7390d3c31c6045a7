//! Target resolution: from workspace metadata and the build configuration to
//! exactly one buildable unit — its name, the directory to build from, its
//! original source path, and the expected path of the compiled artifact.

use vstd::prelude::*;

use crate::lang::Language;

verus! {

/// The immutable run configuration.
pub struct BuildConfig {
    /// Optional location of the workspace manifest.
    pub manifest_path: Option<String>,
    /// Path the generated source file is written to.
    pub output: String,
    /// Optional name of the executable unit to build.
    pub bin: Option<String>,
    /// The compilation target triple.
    pub target: String,
    /// Build through the cross-compilation wrapper instead of the native
    /// toolchain.
    pub use_cross: bool,
    /// Keep unwinding panics; when false the build aborts on panic.
    pub panic_unwind: bool,
    /// Leave the size-first optimization level off.
    pub no_opt_size: bool,
    /// Skip the compression stage.
    pub no_upx: bool,
    /// Output dialect of the generated file.
    pub language: Language,
}

/// One buildable unit of the root package, as the metadata collaborator
/// reports it.
pub struct BuildUnit {
    /// The unit's name.
    pub name: String,
    /// Whether the unit is an executable.
    pub is_bin: bool,
    /// Path of the unit's original source file.
    pub src_path: String,
}

/// The root package's description.
pub struct PackageMeta {
    /// Directory holding the package manifest; builds run from here.
    pub manifest_dir: String,
    /// The package's buildable units, in the order the metadata collaborator
    /// reports them.
    pub units: Vec<BuildUnit>,
}

/// A snapshot of the workspace description the metadata collaborator
/// returned.
pub struct WorkspaceMetadata {
    /// The workspace's primary package, when one is identifiable.
    pub root_package: Option<PackageMeta>,
    /// The workspace's target output directory.
    pub target_directory: String,
}

/// Why resolution failed.
#[derive(Clone, Copy, Debug, PartialEq, Eq, Structural)]
pub enum ResolveError {
    /// The metadata describes no identifiable root package.
    NoRootPackage,
    /// No executable unit matches the configuration.
    NoBinUnit,
}

/// The resolved unit: what the later stages build, compress and embed.
pub struct ResolvedTarget {
    /// Name of the chosen executable unit.
    pub bin_name: String,
    /// Directory the build is invoked from.
    pub compile_dir: String,
    /// Path of the unit's original source file.
    pub src_path: String,
    /// Expected path of the compiled artifact for the chosen triple.
    pub binary_path: String,
}

/// The unit is executable and, when a name was configured, carries that
/// name.
pub open spec fn unit_matches(u: BuildUnit, selected: Option<Seq<char>>) -> bool {
    u.is_bin && match selected {
        None => true,
        Some(b) => u.name@ == b,
    }
}

/// Index of the first matching unit at or after position `i`, in the order
/// the metadata reports the units.
pub open spec fn first_unit_from(
    units: Seq<BuildUnit>,
    selected: Option<Seq<char>>,
    i: nat,
) -> Option<int>
    decreases units.len() - i,
    when i <= units.len()
{
    if i >= units.len() {
        None
    } else if unit_matches(units[i as int], selected) {
        Some(i as int)
    } else {
        first_unit_from(units, selected, (i + 1) as nat)
    }
}

/// Index of the first matching unit.
pub open spec fn first_unit(units: Seq<BuildUnit>, selected: Option<Seq<char>>) -> Option<int> {
    first_unit_from(units, selected, 0)
}

/// The configured unit name, when one was given.
pub open spec fn selected_name(cfg: BuildConfig) -> Option<Seq<char>> {
    match cfg.bin {
        None => None,
        Some(b) => Some(b@),
    }
}

/// The expected artifact path: the workspace target directory, the
/// compilation triple, the release directory and the unit name, joined by
/// path separators.
pub open spec fn artifact_path_of(
    target_directory: Seq<char>,
    triple: Seq<char>,
    name: Seq<char>,
) -> Seq<char> {
    target_directory + "/"@ + triple + "/release/"@ + name
}

/// Without an executable unit among `units`, nothing matches: resolution
/// must fail rather than build some other unit.
pub proof fn lemma_no_bin_unit_no_match(
    units: Seq<BuildUnit>,
    selected: Option<Seq<char>>,
    k: nat,
)
    requires
        k <= units.len(),
        forall|j: int| 0 <= j < units.len() ==> !(#[trigger] units[j]).is_bin,
    ensures
        first_unit_from(units, selected, k) is None,
    decreases units.len() - k,
{
    if k < units.len() {
        lemma_no_bin_unit_no_match(units, selected, (k + 1) as nat);
    }
}

/// Resolves exactly one buildable unit. Fails when the metadata names no
/// root package, and when no executable unit matches the configured name;
/// with several matches it takes the first in the order the metadata
/// reports.
pub fn resolve(cfg: &BuildConfig, meta: &WorkspaceMetadata) -> (r: Result<
    ResolvedTarget,
    ResolveError,
>)
    ensures
        meta.root_package is None ==> r == Err::<ResolvedTarget, ResolveError>(
            ResolveError::NoRootPackage,
        ),
        meta.root_package matches Some(pkg) ==> match first_unit(pkg.units@, selected_name(*cfg)) {
            None => r == Err::<ResolvedTarget, ResolveError>(ResolveError::NoBinUnit),
            Some(i) => r matches Ok(t) && t.bin_name@ == pkg.units@[i].name@ && t.compile_dir@
                == pkg.manifest_dir@ && t.src_path@ == pkg.units@[i].src_path@ && t.binary_path@
                == artifact_path_of(meta.target_directory@, cfg.target@, pkg.units@[i].name@),
        },
{
    let pkg = match &meta.root_package {
        None => {
            return Err(ResolveError::NoRootPackage);
        },
        Some(p) => p,
    };
    let n = pkg.units.len();
    let mut i: usize = 0;
    loop
        invariant
            i <= n,
            n == pkg.units@.len(),
            meta.root_package matches Some(q) && q == *pkg,
            first_unit(pkg.units@, selected_name(*cfg)) == first_unit_from(
                pkg.units@,
                selected_name(*cfg),
                i as nat,
            ),
        decreases n - i,
    {
        if i == n {
            return Err(ResolveError::NoBinUnit);
        }
        let u = &pkg.units[i];
        let is_match = u.is_bin && (match &cfg.bin {
            None => true,
            Some(b) => u.name == *b,
        });
        if is_match {
            let mut binary_path = meta.target_directory.clone();
            binary_path.append("/");
            binary_path.append(cfg.target.as_str());
            binary_path.append("/release/");
            binary_path.append(u.name.as_str());
            return Ok(
                ResolvedTarget {
                    bin_name: u.name.clone(),
                    compile_dir: pkg.manifest_dir.clone(),
                    src_path: u.src_path.clone(),
                    binary_path,
                },
            );
        }
        i += 1;
    }
}

} // verus!
