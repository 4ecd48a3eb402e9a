//! Command-line options and project settings as plain values, and the rules
//! by which a project's packages and targets are chosen.

use crate::path::{
    components, extended, join, joined, parsed, path_fault_text, path_from, path_text, unbased,
    with_extension, without_last_parts, written, PathBufExt, PathError, PathErrorKind, PathExt,
};
use crate::search::{
    count_true, first_true, lemma_count_zero, lemma_first_true, lemma_first_true_found,
};
use crate::text::{
    contains_text, copy_texts, decimal, decimal_text, holds, pair_text, same_text, to_underscores,
    underscored, wrap_text,
};
use camino::Utf8PathBuf;
use vstd::prelude::*;

verus! {

/// A dependency whose logs can be shown.
#[derive(Copy, Clone, Debug, PartialEq, Eq, PartialOrd, Ord, Structural)]
pub enum Log {
    /// The WebAssembly build.
    Wasm,
    /// The reload server.
    Server,
}

/// Options that the building commands share.
#[derive(Clone, Debug, PartialEq, Eq)]
pub struct Opts {
    /// Build artifacts in release mode, with optimizations.
    pub release: bool,
    /// Verbosity: 0 shows info, warnings and errors, more shows more.
    pub verbose: u8,
    /// Features of the server package to build with.
    pub bin_features: Vec<String>,
    /// Features of the browser package to build with.
    pub lib_features: Vec<String>,
}

/// What the program is asked to do.
#[derive(Clone, Debug, PartialEq, Eq)]
pub enum Commands {
    /// Print the settings that a project needs.
    Config,
    /// Build the server and the browser bundle.
    Build(Opts),
    /// Run the tests of server and browser code.
    Test(Opts),
    /// Start the server and run the end-to-end tests against it.
    EndToEnd(Opts),
    /// Build, then run the server.
    Serve(Opts),
    /// Serve, and rebuild and reload when files change.
    Watch(Opts),
    /// Set up a new project.
    New,
}

/// The parsed command line.
#[derive(Clone, Debug, PartialEq, Eq)]
pub struct Cli {
    /// Path to the manifest of the project.
    pub manifest_path: Option<String>,
    /// Dependencies whose logs are shown.
    pub log: Vec<Log>,
    pub command: Commands,
}

/// The three names that make up a project.
#[derive(Clone, Debug, PartialEq, Eq)]
pub struct ProjectDefinition {
    pub name: String,
    pub bin_package: String,
    pub lib_package: String,
}

/// Why a project could not be resolved.
#[derive(Clone, Debug, PartialEq, Eq)]
pub enum ConfigError {
    /// No workspace member of this name has a bin target.
    BinPackageNotFound(String),
    /// No workspace member has this name.
    LibPackageNotFound(String),
    /// The bin target asked for is not among the package's bin targets.
    TargetNotFound(String),
    /// The member has no bin target at all.
    NoBinTargets(String),
    /// The member has several bin targets and none was asked for.
    ManyTargets(String),
    /// The package with this manifest has settings of its own but no
    /// library target that a browser can load.
    MissingCdylib(String),
    /// The package with this manifest has settings of its own but no bin
    /// target.
    MissingBin(String),
    /// The directory of a package does not lie in the workspace.
    Path(PathError),
}

/// The view of a `ConfigError`: the same variants over plain text.
pub enum ConfigFault {
    BinPackageNotFound(Seq<char>),
    LibPackageNotFound(Seq<char>),
    TargetNotFound(Seq<char>),
    NoBinTargets(Seq<char>),
    ManyTargets(Seq<char>),
    MissingCdylib(Seq<char>),
    MissingBin(Seq<char>),
    Path { kind: PathErrorKind, path: Seq<char>, base: Seq<char> },
}

impl View for ConfigError {
    type V = ConfigFault;

    open spec fn view(&self) -> ConfigFault {
        match self {
            ConfigError::BinPackageNotFound(name) => ConfigFault::BinPackageNotFound(name@),
            ConfigError::LibPackageNotFound(name) => ConfigFault::LibPackageNotFound(name@),
            ConfigError::TargetNotFound(name) => ConfigFault::TargetNotFound(name@),
            ConfigError::NoBinTargets(name) => ConfigFault::NoBinTargets(name@),
            ConfigError::ManyTargets(name) => ConfigFault::ManyTargets(name@),
            ConfigError::MissingCdylib(manifest) => ConfigFault::MissingCdylib(manifest@),
            ConfigError::MissingBin(manifest) => ConfigFault::MissingBin(manifest@),
            ConfigError::Path(error) => ConfigFault::Path {
                kind: error.kind,
                path: written(error.path),
                base: written(error.base),
            },
        }
    }
}

/// The text that tells a user of the fault.
pub open spec fn fault_text(fault: ConfigFault) -> Seq<char> {
    match fault {
        ConfigFault::BinPackageNotFound(name) => "Could not find the project bin-package \""@
            + name + "\""@,
        ConfigFault::LibPackageNotFound(name) => "Could not find the project lib-package \""@
            + name + "\""@,
        ConfigFault::TargetNotFound(name) =>
            "Could not find the target specified: [[workspace.metadata.leptos]] bin-target = \""@
            + name + "\""@,
        ConfigFault::NoBinTargets(name) => "No bin targets found for member "@ + name,
        ConfigFault::MissingCdylib(manifest) =>
            "Cargo.toml has leptos metadata but is missing a cdylib library target. "@ + manifest,
        ConfigFault::MissingBin(manifest) =>
            "Cargo.toml has leptos metadata but is missing a bin target. "@ + manifest,
        ConfigFault::Path { kind, path, base } => path_fault_text(kind, path, base),
        ConfigFault::ManyTargets(name) => "Several bin targets found for member \""@ + name
            + "\", please specify which one to use with: [[workspace.metadata.leptos]] bin-target = \"name\""@,
    }
}

impl ConfigError {
    /// The text that tells a user what went wrong.
    pub fn message(&self) -> (r: String)
        ensures
            r@ == fault_text(self@),
    {
        match self {
            ConfigError::BinPackageNotFound(name) => wrap_text(
                "Could not find the project bin-package \"",
                name.as_str(),
                "\"",
            ),
            ConfigError::LibPackageNotFound(name) => wrap_text(
                "Could not find the project lib-package \"",
                name.as_str(),
                "\"",
            ),
            ConfigError::TargetNotFound(name) => wrap_text(
                "Could not find the target specified: [[workspace.metadata.leptos]] bin-target = \"",
                name.as_str(),
                "\"",
            ),
            ConfigError::NoBinTargets(name) => pair_text(
                "No bin targets found for member ",
                name.as_str(),
            ),
            ConfigError::MissingCdylib(manifest) => pair_text(
                "Cargo.toml has leptos metadata but is missing a cdylib library target. ",
                manifest.as_str(),
            ),
            ConfigError::MissingBin(manifest) => pair_text(
                "Cargo.toml has leptos metadata but is missing a bin target. ",
                manifest.as_str(),
            ),
            ConfigError::Path(error) => error.message(),
            ConfigError::ManyTargets(name) => wrap_text(
                "Several bin targets found for member \"",
                name.as_str(),
                "\", please specify which one to use with: [[workspace.metadata.leptos]] bin-target = \"name\"",
            ),
        }
    }
}

/// The fault of a member with several bin targets of which none was chosen.
pub fn many_targets_found(pkg: &str) -> (r: ConfigError)
    ensures
        r@ == ConfigFault::ManyTargets(pkg@),
{
    ConfigError::ManyTargets(String::from_str(pkg))
}

/// The fault of a bin target that was asked for and is not there.
pub fn target_not_found(target: &str) -> (r: ConfigError)
    ensures
        r@ == ConfigFault::TargetNotFound(target@),
{
    ConfigError::TargetNotFound(String::from_str(target))
}

/// The port on which reload signals are served unless another is set.
pub fn default_reload_port() -> (r: u16)
    ensures
        r == 3001,
{
    3001
}

/// The browser query used unless another is set.
pub fn default_browserquery() -> (r: String)
    ensures
        r@ == "defaults"@,
{
    String::from_str("defaults")
}

/// What is read of a target of a package.
#[derive(Clone, Debug, PartialEq, Eq)]
pub struct TargetInfo {
    pub name: String,
    /// The target is a binary.
    pub is_bin: bool,
    /// The target is a library that can be loaded by a browser.
    pub is_cdylib: bool,
}

/// What is read of a member of the workspace.
#[derive(Clone, Debug, PartialEq, Eq)]
pub struct PackageInfo {
    pub name: String,
    pub manifest_path: Utf8PathBuf,
    pub targets: Vec<TargetInfo>,
}

/// For each target, whether it is a binary.
pub open spec fn bin_hits(targets: Seq<TargetInfo>) -> Seq<bool> {
    Seq::new(targets.len(), |i: int| targets[i].is_bin)
}

/// For each target, whether it is a binary of the name wanted.
pub open spec fn named_bin_hits(targets: Seq<TargetInfo>, wanted: Seq<char>) -> Seq<bool> {
    Seq::new(targets.len(), |i: int| targets[i].is_bin && targets[i].name@ == wanted)
}

/// For each target, whether a browser can load it.
pub open spec fn cdylib_hits(targets: Seq<TargetInfo>) -> Seq<bool> {
    Seq::new(targets.len(), |i: int| targets[i].is_cdylib)
}

/// For each package, whether it has the name wanted and, where a binary is
/// needed, a binary target.
pub open spec fn package_hits(packages: Seq<PackageInfo>, name: Seq<char>, need_bin: bool) -> Seq<
    bool,
> {
    Seq::new(
        packages.len(),
        |i: int|
            packages[i].name@ == name && (!need_bin || count_true(bin_hits(packages[i].targets@))
                > 0),
    )
}

/// The binary target of a package that is built as the server.
///
/// Where a name is wanted, it is the first binary target of that name. Else
/// the package must have exactly one binary target, which is then taken.
pub open spec fn chosen_target(package: PackageInfo, wanted: Seq<char>) -> Result<
    int,
    ConfigFault,
> {
    let targets = package.targets@;
    if wanted.len() > 0 {
        if first_true(named_bin_hits(targets, wanted)) < targets.len() {
            Ok(first_true(named_bin_hits(targets, wanted)))
        } else {
            Err(ConfigFault::TargetNotFound(wanted))
        }
    } else if count_true(bin_hits(targets)) == 1 {
        Ok(first_true(bin_hits(targets)))
    } else if count_true(bin_hits(targets)) == 0 {
        Err(ConfigFault::NoBinTargets(package.name@))
    } else {
        Err(ConfigFault::ManyTargets(package.name@))
    }
}

proof fn lemma_count_step(hits: Seq<bool>, i: int)
    requires
        0 <= i < hits.len(),
    ensures
        count_true(hits.take(i + 1)) == count_true(hits.take(i)) + if hits[i] {
            1nat
        } else {
            0nat
        },
{
    assert(hits.take(i + 1).drop_last() =~= hits.take(i));
}

fn count_bins(targets: &Vec<TargetInfo>) -> (r: usize)
    ensures
        r == count_true(bin_hits(targets@)),
{
    let ghost hits = bin_hits(targets@);
    let mut count: usize = 0;
    let mut i: usize = 0;
    while i < targets.len()
        invariant
            0 <= i <= targets.len(),
            hits == bin_hits(targets@),
            count == count_true(hits.take(i as int)),
            count <= i,
        decreases targets.len() - i,
    {
        proof {
            lemma_count_step(hits, i as int);
        }
        if targets[i].is_bin {
            count += 1;
        }
        i += 1;
    }
    proof {
        assert(hits.take(targets.len() as int) =~= hits);
    }
    count
}

fn first_bin(targets: &Vec<TargetInfo>) -> (r: usize)
    ensures
        r == first_true(bin_hits(targets@)),
        r <= targets.len(),
{
    let mut i: usize = 0;
    while i < targets.len()
        invariant
            0 <= i <= targets.len(),
            forall|j: int| 0 <= j < i ==> !bin_hits(targets@)[j],
        decreases targets.len() - i,
    {
        if targets[i].is_bin {
            proof {
                lemma_first_true(bin_hits(targets@), i as int);
            }
            return i;
        }
        i += 1;
    }
    proof {
        lemma_first_true(bin_hits(targets@), i as int);
    }
    i
}

fn first_named_bin(targets: &Vec<TargetInfo>, wanted: &str) -> (r: usize)
    ensures
        r == first_true(named_bin_hits(targets@, wanted@)),
        r <= targets.len(),
{
    let mut i: usize = 0;
    while i < targets.len()
        invariant
            0 <= i <= targets.len(),
            forall|j: int| 0 <= j < i ==> !named_bin_hits(targets@, wanted@)[j],
        decreases targets.len() - i,
    {
        if targets[i].is_bin && same_text(targets[i].name.as_str(), wanted) {
            proof {
                lemma_first_true(named_bin_hits(targets@, wanted@), i as int);
            }
            return i;
        }
        i += 1;
    }
    proof {
        lemma_first_true(named_bin_hits(targets@, wanted@), i as int);
    }
    i
}

impl PackageInfo {
    /// Whether the package has a binary target.
    pub fn has_bin_target(&self) -> (r: bool)
        ensures
            r == (count_true(bin_hits(self.targets@)) > 0),
    {
        let first = first_bin(&self.targets);
        proof {
            lemma_count_zero(bin_hits(self.targets@));
        }
        first < self.targets.len()
    }

    /// The first target of the package that a browser can load.
    pub fn cdylib_target(&self) -> (r: Option<usize>)
        ensures
            match r {
                Some(i) => i < self.targets@.len() && i == first_true(cdylib_hits(self.targets@)),
                None => first_true(cdylib_hits(self.targets@)) == self.targets@.len(),
            },
    {
        let mut i: usize = 0;
        while i < self.targets.len()
            invariant
                0 <= i <= self.targets.len(),
                forall|j: int| 0 <= j < i ==> !cdylib_hits(self.targets@)[j],
            decreases self.targets.len() - i,
        {
            if self.targets[i].is_cdylib {
                proof {
                    lemma_first_true(cdylib_hits(self.targets@), i as int);
                }
                return Some(i);
            }
            i += 1;
        }
        proof {
            lemma_first_true(cdylib_hits(self.targets@), i as int);
        }
        None
    }
}

/// The name under which a package is known as a library: that of its first
/// target that a browser can load, or its own where it has none.
pub open spec fn lib_name(package: PackageInfo) -> Seq<char> {
    if first_true(cdylib_hits(package.targets@)) < package.targets@.len() {
        package.targets@[first_true(cdylib_hits(package.targets@))].name@
    } else {
        package.name@
    }
}

impl PackageInfo {
    /// The name of the file that the compiler leaves for the package's
    /// library: the name of the library with `_` for `-`.
    pub fn lib_crate_name(&self) -> (r: String)
        ensures
            r@ == underscored(lib_name(*self)),
    {
        match self.cdylib_target() {
            Some(at) => to_underscores(self.targets[at].name.as_str()),
            None => to_underscores(self.name.as_str()),
        }
    }
}

/// The first package of the name wanted; where `need_bin` is set, the first
/// such package that has a binary target.
pub fn find_package(packages: &Vec<PackageInfo>, name: &str, need_bin: bool) -> (r: Option<usize>)
    ensures
        match r {
            Some(i) => i < packages@.len() && i == first_true(
                package_hits(packages@, name@, need_bin),
            ),
            None => first_true(package_hits(packages@, name@, need_bin)) == packages@.len(),
        },
{
    let mut i: usize = 0;
    while i < packages.len()
        invariant
            0 <= i <= packages.len(),
            forall|j: int| 0 <= j < i ==> !package_hits(packages@, name@, need_bin)[j],
        decreases packages.len() - i,
    {
        if same_text(packages[i].name.as_str(), name) && (!need_bin
            || packages[i].has_bin_target()) {
            proof {
                lemma_first_true(package_hits(packages@, name@, need_bin), i as int);
            }
            return Some(i);
        }
        i += 1;
    }
    proof {
        lemma_first_true(package_hits(packages@, name@, need_bin), i as int);
    }
    None
}

/// The binary target of `package` that is built as the server, or why none
/// can be chosen.
pub fn select_bin_target(package: &PackageInfo, wanted: &str) -> (r: Result<usize, ConfigError>)
    ensures
        match r {
            Ok(i) => chosen_target(*package, wanted@) == Ok::<int, ConfigFault>(i as int) && i
                < package.targets@.len() && package.targets@[i as int].is_bin,
            Err(error) => chosen_target(*package, wanted@) == Err::<int, ConfigFault>(error@),
        },
{
    if !wanted.is_empty() {
        let i = first_named_bin(&package.targets, wanted);
        proof {
            lemma_first_true_found(named_bin_hits(package.targets@, wanted@));
        }
        if i < package.targets.len() {
            Ok(i)
        } else {
            Err(target_not_found(wanted))
        }
    } else {
        let count = count_bins(&package.targets);
        if count == 1 {
            let i = first_bin(&package.targets);
            proof {
                lemma_first_true_found(bin_hits(package.targets@));
                lemma_count_zero(bin_hits(package.targets@));
            }
            Ok(i)
        } else if count == 0 {
            Err(ConfigError::NoBinTargets(package.name.clone()))
        } else {
            Err(many_targets_found(package.name.as_str()))
        }
    }
}

/// The settings of a project.
#[derive(Clone, Debug, PartialEq, Eq)]
pub struct ProjectConfig {
    /// The name of the files of the compiled bundle.
    pub output_name: String,
    /// The address that the server listens on.
    pub site_addr: String,
    /// The staging directory.
    pub site_root: Utf8PathBuf,
    /// The directory of the compiled bundle, within the staging directory.
    pub site_pkg_dir: Utf8PathBuf,
    pub style_file: Option<Utf8PathBuf>,
    /// The assets directory, whose content is copied to the staging
    /// directory.
    pub assets_dir: Option<Utf8PathBuf>,
    pub reload_port: u16,
    /// The command that launches the end-to-end tests.
    pub end2end_cmd: Option<String>,
    /// The directory in which the end-to-end tests are launched.
    pub end2end_dir: Option<String>,
    pub browserquery: String,
    /// The bin target that is built as the server.
    pub bin_target: String,
    pub lib_features: Vec<String>,
    pub lib_default_features: bool,
    pub bin_features: Vec<String>,
    pub bin_default_features: bool,
    /// The directory of the settings, relative to the workspace.
    pub config_dir: Utf8PathBuf,
}

/// A project with its packages chosen. A package is named by its place
/// among the members of the workspace, a target by its place among the
/// targets of its package.
#[derive(Clone, Debug, PartialEq, Eq)]
pub struct Project {
    pub name: String,
    pub config: ProjectConfig,
    pub front_package: usize,
    pub front_profile: String,
    pub server_package: usize,
    pub server_target: usize,
    pub server_profile: String,
    pub watch: bool,
}

/// The server package of a project, chosen and placed.
#[derive(Clone, Debug, PartialEq, Eq)]
pub struct BinPackage {
    pub name: String,
    /// The directory of the package, relative to the workspace.
    pub dir: Utf8PathBuf,
    /// The executable that the build leaves.
    pub exe_file: Utf8PathBuf,
    pub package: usize,
    pub target: usize,
    pub features: Vec<String>,
    pub default_features: bool,
}

/// The name of the profile that a project is built with.
pub open spec fn profile_text(release: bool) -> Seq<char> {
    if release {
        "release"@
    } else {
        "dev"@
    }
}

/// The name of the directory that the build writes to.
pub open spec fn profile_dir_text(release: bool) -> Seq<char> {
    if release {
        "release"@
    } else {
        "debug"@
    }
}

/// The features asked for on the command line if there are any, else those
/// of the settings.
pub open spec fn chosen_features(asked: Seq<String>, settled: Seq<String>) -> Seq<String> {
    if asked.len() > 0 {
        asked
    } else {
        settled
    }
}

/// The place of the server package of a project: the first member of that
/// name that has a bin target.
pub open spec fn server_place(packages: Seq<PackageInfo>, def: ProjectDefinition) -> int {
    first_true(package_hits(packages, def.bin_package@, true))
}

/// The place of the browser package of a project: the first member of that
/// name.
pub open spec fn front_place(packages: Seq<PackageInfo>, def: ProjectDefinition) -> int {
    first_true(package_hits(packages, def.lib_package@, false))
}

/// Why a project cannot be resolved, if it cannot: its server package is
/// missing, or its browser package is, or no server target can be chosen.
pub open spec fn project_fault(
    packages: Seq<PackageInfo>,
    def: ProjectDefinition,
    config: ProjectConfig,
) -> Option<ConfigFault> {
    if server_place(packages, def) >= packages.len() {
        Some(ConfigFault::BinPackageNotFound(def.bin_package@))
    } else if front_place(packages, def) >= packages.len() {
        Some(ConfigFault::LibPackageNotFound(def.lib_package@))
    } else {
        match chosen_target(packages[server_place(packages, def)], config.bin_target@) {
            Ok(_) => None,
            Err(fault) => Some(fault),
        }
    }
}

/// `project` is what the definition and the settings resolve to.
///
/// Features asked for on the command line take the place of those of the
/// settings. An output name that is not set becomes the name of the browser
/// package with `_` for `-`. The bin target is the one chosen. All else is
/// taken over from the settings as it stands.
#[verifier::opaque]
pub open spec fn resolves(
    project: Project,
    cli: Opts,
    packages: Seq<PackageInfo>,
    def: ProjectDefinition,
    config: ProjectConfig,
    watch: bool,
) -> bool {
    let server = server_place(packages, def);
    let front = front_place(packages, def);
    &&& project.name@ == def.name@
    &&& project.server_package == server < packages.len()
    &&& project.front_package == front < packages.len()
    &&& chosen_target(packages[server], config.bin_target@) == Ok::<int, ConfigFault>(
        project.server_target as int,
    )
    &&& project.server_target < packages[server].targets@.len()
    &&& project.front_profile@ == profile_text(cli.release)
    &&& project.server_profile@ == profile_text(cli.release)
    &&& project.watch == watch
    &&& project.config.bin_features@ == chosen_features(cli.bin_features@, config.bin_features@)
    &&& project.config.lib_features@ == chosen_features(cli.lib_features@, config.lib_features@)
    &&& project.config.output_name@ == if config.output_name@.len() == 0 {
        underscored(packages[front].name@)
    } else {
        config.output_name@
    }
    &&& project.config.bin_target@ == packages[server].targets@[project.server_target as int].name@
    &&& project.config == (ProjectConfig {
        bin_features: project.config.bin_features,
        lib_features: project.config.lib_features,
        output_name: project.config.output_name,
        bin_target: project.config.bin_target,
        ..config
    })
}

/// The project is what the entry resolves to, which it does without fault.
pub open spec fn settled(
    project: Project,
    cli: Opts,
    packages: Seq<PackageInfo>,
    entry: (ProjectDefinition, ProjectConfig),
    watch: bool,
) -> bool {
    project_fault(packages, entry.0, entry.1) is None && resolves(
        project,
        cli,
        packages,
        entry.0,
        entry.1,
        watch,
    )
}

/// The projects are what the entries resolve to, one for one.
pub open spec fn settled_all(
    resolved: Seq<Project>,
    cli: Opts,
    packages: Seq<PackageInfo>,
    entries: Seq<(ProjectDefinition, ProjectConfig)>,
    watch: bool,
) -> bool {
    resolved.len() == entries.len() && forall|i: int|
        0 <= i < entries.len() ==> settled(#[trigger] resolved[i], cli, packages, entries[i], watch)
}

impl Default for Opts {
    /// A debug build, quiet, with the features of the settings.
    fn default() -> (r: Opts)
        ensures
            !r.release,
            r.verbose == 0,
            r.bin_features@.len() == 0,
            r.lib_features@.len() == 0,
    {
        Opts { release: false, verbose: 0, bin_features: Vec::new(), lib_features: Vec::new() }
    }
}

impl Opts {
    /// The name of the directory that the build writes to: `release` for a
    /// release build, else `debug`.
    pub fn profile(&self) -> (r: &'static str)
        ensures
            r@ == profile_dir_text(self.release),
    {
        if self.release {
            "release"
        } else {
            "debug"
        }
    }
}

impl Project {
    /// Resolves one project: chooses its packages and its server target and
    /// settles its settings.
    pub fn resolve_one(
        cli: &Opts,
        packages: &Vec<PackageInfo>,
        def: &ProjectDefinition,
        config: ProjectConfig,
        watch: bool,
    ) -> (r: Result<Project, ConfigError>)
        ensures
            match r {
                Ok(project) => project_fault(packages@, *def, config) is None && resolves(
                    project,
                    *cli,
                    packages@,
                    *def,
                    config,
                    watch,
                ),
                Err(error) => project_fault(packages@, *def, config) == Some(error@),
            },
    {
        let mut config = config;
        if !cli.bin_features.is_empty() {
            config.bin_features = copy_texts(&cli.bin_features);
        }
        if !cli.lib_features.is_empty() {
            config.lib_features = copy_texts(&cli.lib_features);
        }
        let server = match find_package(packages, def.bin_package.as_str(), true) {
            Some(i) => i,
            None => {
                return Err(ConfigError::BinPackageNotFound(def.bin_package.clone()));
            },
        };
        let front = match find_package(packages, def.lib_package.as_str(), false) {
            Some(i) => i,
            None => {
                return Err(ConfigError::LibPackageNotFound(def.lib_package.clone()));
            },
        };
        if config.output_name.as_str().is_empty() {
            config.output_name = to_underscores(packages[front].name.as_str());
        }
        let target = match select_bin_target(&packages[server], config.bin_target.as_str()) {
            Ok(i) => i,
            Err(error) => {
                return Err(error);
            },
        };
        proof {
            reveal(resolves);
            lemma_first_true_found(
                named_bin_hits(packages@[server as int].targets@, config.bin_target@),
            );
        }
        if config.bin_target.as_str().is_empty() {
            config.bin_target = packages[server].targets[target].name.clone();
        }
        let profile = if cli.release {
            "release"
        } else {
            "dev"
        };
        Ok(
            Project {
                name: def.name.clone(),
                config,
                front_package: front,
                front_profile: String::from_str(profile),
                server_package: server,
                server_target: target,
                server_profile: String::from_str(profile),
                watch,
            },
        )
    }

    /// Resolves the projects of a workspace in order. The first project that
    /// cannot be resolved decides the fault.
    pub fn resolve(
        cli: &Opts,
        packages: &Vec<PackageInfo>,
        projects: Vec<(ProjectDefinition, ProjectConfig)>,
        watch: bool,
    ) -> (r: Result<Vec<Project>, ConfigError>)
        ensures
            match r {
                Ok(resolved) => settled_all(resolved@, *cli, packages@, projects@, watch),
                Err(error) => exists|k: int|
                    0 <= k < projects@.len() && project_fault(
                        packages@,
                        (#[trigger] projects@[k]).0,
                        projects@[k].1,
                    ) == Some(error@) && forall|i: int|
                        0 <= i < k ==> project_fault(
                            packages@,
                            (#[trigger] projects@[i]).0,
                            projects@[i].1,
                        ) is None,
            },
    {
        let ghost all = projects@;
        let mut resolved: Vec<Project> = Vec::new();
        for entry in it: projects.into_iter()
            invariant
                it.seq() == all,
                settled_all(resolved@, *cli, packages@, all.take(it.index() as int), watch),
        {
            let ghost k = it.index() as int;
            let ghost before = resolved@;
            assert(entry == all[k]);
            let (def, config) = entry;
            match Project::resolve_one(cli, packages, &def, config, watch) {
                Ok(project) => {
                    resolved.push(project);
                    proof {
                        let now = all.take(k + 1);
                        assert forall|i: int| 0 <= i < now.len() implies settled(
                            #[trigger] resolved@[i],
                            *cli,
                            packages@,
                            now[i],
                            watch,
                        ) by {
                            if i < k {
                                assert(resolved@[i] == before[i]);
                                assert(now[i] == all.take(k)[i]);
                            }
                        }
                    }
                },
                Err(error) => {
                    proof {
                        assert forall|i: int| 0 <= i < k implies project_fault(
                            packages@,
                            (#[trigger] all[i]).0,
                            all[i].1,
                        ) is None by {
                            assert(all[i] == all.take(k)[i]);
                            assert(settled(before[i], *cli, packages@, all.take(k)[i], watch));
                        }
                    }
                    return Err(error);
                },
            }
        }
        proof {
            assert(all.take(all.len() as int) == all);
        }
        Ok(resolved)
    }

    /// Whether the browser package is built with optimizations.
    pub fn optimise_front(&self) -> (r: bool)
        ensures
            r == holds(self.front_profile@, "release"@),
    {
        contains_text(self.front_profile.as_str(), "release")
    }

    /// Whether the server package is built with optimizations.
    pub fn optimise_server(&self) -> (r: bool)
        ensures
            r == holds(self.server_profile@, "release"@),
    {
        contains_text(self.server_profile.as_str(), "release")
    }
}

/// How the placing of a server package ends.
pub enum Placing {
    /// The package or its target cannot be chosen.
    Fault(ConfigFault),
    /// The directory of the package does not lie in the workspace.
    Stray(PathErrorKind),
    /// The package is placed.
    Placed,
}

/// How the placing of the server package of a project ends.
pub open spec fn placing(
    workspace_root: Utf8PathBuf,
    packages: Seq<PackageInfo>,
    def: ProjectDefinition,
    config: ProjectConfig,
) -> Placing {
    let server = server_place(packages, def);
    if server >= packages.len() {
        Placing::Fault(ConfigFault::BinPackageNotFound(def.bin_package@))
    } else {
        match chosen_target(packages[server], config.bin_target@) {
            Err(fault) => Placing::Fault(fault),
            Ok(_) => match unbased(
                without_last_parts(components(packages[server].manifest_path)),
                components(workspace_root),
            ) {
                Err(kind) => Placing::Stray(kind),
                Ok(_) => Placing::Placed,
            },
        }
    }
}

/// The features of the settings if there are any, else those asked for on
/// the command line.
pub open spec fn bin_features_of(settled: Seq<String>, asked: Seq<String>) -> Seq<String> {
    if settled.len() > 0 {
        settled
    } else {
        asked
    }
}

/// The extension of an executable: `exe` on Windows, none elsewhere.
pub open spec fn exe_extension(windows: bool) -> Seq<char> {
    if windows {
        "exe"@
    } else {
        ""@
    }
}

/// `bin` is the server package of the project, placed: its directory is
/// that of its manifest, relative to the workspace, and its executable is
/// `server/<profile>/<name>` under the target directory, with the extension
/// of executables.
pub open spec fn places(
    bin: BinPackage,
    cli: Opts,
    workspace_root: Utf8PathBuf,
    rel_target_dir: Utf8PathBuf,
    packages: Seq<PackageInfo>,
    def: ProjectDefinition,
    config: ProjectConfig,
    windows: bool,
) -> bool {
    let server = server_place(packages, def);
    &&& bin.name@ == def.bin_package@
    &&& bin.package == server < packages.len()
    &&& chosen_target(packages[server], config.bin_target@) == Ok::<int, ConfigFault>(
        bin.target as int,
    )
    &&& unbased(
        without_last_parts(components(packages[server].manifest_path)),
        components(workspace_root),
    ) == Ok::<Seq<Seq<char>>, PathErrorKind>(components(bin.dir))
    &&& components(bin.exe_file) == extended(
        joined(
            joined(
                joined(components(rel_target_dir), parsed("server"@)),
                parsed(profile_dir_text(cli.release)),
            ),
            parsed(def.bin_package@),
        ),
        exe_extension(windows),
    )
    &&& bin.features@ == bin_features_of(config.bin_features@, cli.bin_features@)
    &&& bin.default_features == config.bin_default_features
}

impl BinPackage {
    /// Chooses and places the server package of a project. `windows` says
    /// whether the server is to run on Windows.
    pub fn resolve(
        cli: &Opts,
        workspace_root: &Utf8PathBuf,
        rel_target_dir: &Utf8PathBuf,
        packages: &Vec<PackageInfo>,
        project: &ProjectDefinition,
        config: &ProjectConfig,
        windows: bool,
    ) -> (r: Result<BinPackage, ConfigError>)
        ensures
            match r {
                Ok(bin) => placing(*workspace_root, packages@, *project, *config) is Placed
                    && places(
                    bin,
                    *cli,
                    *workspace_root,
                    *rel_target_dir,
                    packages@,
                    *project,
                    *config,
                    windows,
                ),
                Err(error) => match placing(*workspace_root, packages@, *project, *config) {
                    Placing::Fault(fault) => error@ == fault,
                    Placing::Stray(kind) => error matches ConfigError::Path(stray) && stray.kind
                        == kind && stray.base == *workspace_root && components(stray.path)
                        == without_last_parts(
                        components(packages@[server_place(packages@, *project)].manifest_path),
                    ),
                    Placing::Placed => false,
                },
            },
    {
        let features = if !config.bin_features.is_empty() {
            copy_texts(&config.bin_features)
        } else {
            copy_texts(&cli.bin_features)
        };
        let name = project.bin_package.clone();
        let at = match find_package(packages, name.as_str(), true) {
            Some(i) => i,
            None => {
                return Err(ConfigError::BinPackageNotFound(name));
            },
        };
        let package = &packages[at];
        let target = match select_bin_target(package, config.bin_target.as_str()) {
            Ok(i) => i,
            Err(error) => {
                return Err(error);
            },
        };
        let dir = match package.manifest_path.clone().without_last().unbase(workspace_root) {
            Ok(dir) => dir,
            Err(error) => {
                return Err(ConfigError::Path(error));
            },
        };
        let exe_ext = if windows {
            "exe"
        } else {
            ""
        };
        proof {
            reveal_strlit("exe");
            reveal_strlit("");
        }
        let exe_file = with_extension(
            &join(
                &join(&join(rel_target_dir, &path_from("server")), &path_from(cli.profile())),
                &path_from(name.as_str()),
            ),
            exe_ext,
        );
        Ok(
            BinPackage {
                name,
                dir,
                exe_file,
                package: at,
                target,
                features,
                default_features: config.bin_default_features,
            },
        )
    }
}

/// The directory of a package relative to the workspace: that of its
/// manifest, with the root of the workspace taken from its front.
pub fn package_dir(manifest_path: &Utf8PathBuf, workspace_root: &Utf8PathBuf) -> (r: Result<
    Utf8PathBuf,
    PathError,
>)
    ensures
        match r {
            Ok(dir) => match unbased(components(*manifest_path), components(*workspace_root)) {
                Ok(rest) => components(dir) == without_last_parts(rest),
                Err(_) => false,
            },
            Err(error) => unbased(components(*manifest_path), components(*workspace_root))
                == Err::<Seq<Seq<char>>, PathErrorKind>(error.kind),
        },
{
    match manifest_path.unbase(workspace_root) {
        Ok(rest) => Ok(rest.without_last()),
        Err(error) => Err(error),
    }
}

impl ProjectDefinition {
    /// The definition of a project that is a single package with settings of
    /// its own: the package must have a library target that a browser can
    /// load and a bin target, and it gives the project its three names.
    pub fn from_project(package: &PackageInfo, conf: ProjectConfig) -> (r: Result<
        (ProjectDefinition, ProjectConfig),
        ConfigError,
    >)
        ensures
            match r {
                Ok((def, settings)) => first_true(cdylib_hits(package.targets@))
                    < package.targets@.len() && count_true(bin_hits(package.targets@)) > 0
                    && def.name@ == package.name@ && def.bin_package@ == package.name@
                    && def.lib_package@ == package.name@ && settings == conf,
                Err(error) => if first_true(cdylib_hits(package.targets@))
                    >= package.targets@.len() {
                    error@ == ConfigFault::MissingCdylib(written(package.manifest_path))
                } else {
                    count_true(bin_hits(package.targets@)) == 0 && error@
                        == ConfigFault::MissingBin(written(package.manifest_path))
                },
            },
    {
        if package.cdylib_target().is_none() {
            return Err(ConfigError::MissingCdylib(path_text(&package.manifest_path)));
        }
        if !package.has_bin_target() {
            return Err(ConfigError::MissingBin(path_text(&package.manifest_path)));
        }
        Ok(
            (
                ProjectDefinition {
                    name: package.name.clone(),
                    bin_package: package.name.clone(),
                    lib_package: package.name.clone(),
                },
                conf,
            ),
        )
    }
}

/// The variables that a command run for the project finds in its
/// environment, each with its value.
pub open spec fn envs_of(project: Project) -> Seq<(Seq<char>, Seq<char>)> {
    seq![
        ("OUTPUT_NAME"@, project.config.output_name@),
        ("LEPTOS_SITE_ROOT"@, written(project.config.site_root)),
        ("LEPTOS_SITE_PKG_DIR"@, written(project.config.site_pkg_dir)),
        ("LEPTOS_SITE_ADDR"@, project.config.site_addr@),
        ("LEPTOS_RELOAD_PORT"@, decimal(project.config.reload_port as nat)),
    ] + if project.watch {
        seq![("LEPTOS_WATCH"@, "ON"@)]
    } else {
        seq![]
    }
}

/// The names and values of a list of variables.
pub open spec fn env_texts(envs: Seq<(&'static str, String)>) -> Seq<(Seq<char>, Seq<char>)> {
    envs.map_values(|e: (&'static str, String)| (e.0@, e.1@))
}

impl Project {
    /// The variables to set in the environment of a command that is run for
    /// the project.
    pub fn to_envs(&self) -> (r: Vec<(&'static str, String)>)
        ensures
            env_texts(r@) == envs_of(*self),
    {
        let mut envs: Vec<(&'static str, String)> = Vec::new();
        envs.push(("OUTPUT_NAME", self.config.output_name.clone()));
        envs.push(("LEPTOS_SITE_ROOT", path_text(&self.config.site_root)));
        envs.push(("LEPTOS_SITE_PKG_DIR", path_text(&self.config.site_pkg_dir)));
        envs.push(("LEPTOS_SITE_ADDR", self.config.site_addr.clone()));
        envs.push(("LEPTOS_RELOAD_PORT", decimal_text(self.config.reload_port)));
        if self.watch {
            envs.push(("LEPTOS_WATCH", String::from_str("ON")));
        }
        proof {
            assert(env_texts(envs@) =~= envs_of(*self));
        }
        envs
    }
}

/// The address that the server listens on unless another is set.
pub fn default_site_addr() -> (r: String)
    ensures
        r@ == "127.0.0.1:3000"@,
{
    String::from_str("127.0.0.1:3000")
}

/// The directory of the compiled bundle unless another is set.
pub fn default_pkg_dir() -> (r: Utf8PathBuf)
    ensures
        components(r) == parsed("pkg"@),
{
    path_from("pkg")
}

/// The staging directory unless another is set.
pub fn default_site_root() -> (r: Utf8PathBuf)
    ensures
        components(r) == parsed("target/site"@),
{
    path_from("target/site")
}

/// The arguments of the program without the word `leptos` in second place,
/// which is there when the program is run as a subcommand of cargo.
pub open spec fn own_args(args: Seq<String>) -> Seq<String> {
    if args.len() > 1 && args[1]@ == "leptos"@ {
        args.remove(1)
    } else {
        args
    }
}

/// Drops the word `leptos` from second place among the arguments, where the
/// program was run as a subcommand of cargo.
pub fn strip_subcommand(args: Vec<String>) -> (r: Vec<String>)
    ensures
        r@ == own_args(args@),
{
    let mut args = args;
    if args.len() > 1 && same_text(args[1].as_str(), "leptos") {
        let _ = args.remove(1);
    }
    args
}

impl Commands {
    /// The options of the command, for the commands that build.
    pub fn opts(&self) -> (r: Option<&Opts>)
        ensures
            match self {
                Commands::Build(opts)
                | Commands::Serve(opts)
                | Commands::Test(opts)
                | Commands::EndToEnd(opts)
                | Commands::Watch(opts) => r == Some(opts),
                Commands::Config | Commands::New => r is None,
            },
    {
        match self {
            Commands::Build(opts)
            | Commands::Serve(opts)
            | Commands::Test(opts)
            | Commands::EndToEnd(opts)
            | Commands::Watch(opts) => Some(opts),
            Commands::Config | Commands::New => None,
        }
    }
}

} // verus!
