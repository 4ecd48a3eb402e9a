use camino::Utf8PathBuf;
use cargo_leptos::config::{
    default_browserquery, default_pkg_dir, default_reload_port, default_site_addr,
    default_site_root, find_package, many_targets_found, package_dir, select_bin_target,
    strip_subcommand, target_not_found, BinPackage, Cli, Commands, ConfigError, Log, Opts,
    PackageInfo, Project, ProjectConfig, ProjectDefinition, TargetInfo,
};
use cargo_leptos::path::PathErrorKind;

fn p(text: &str) -> Utf8PathBuf {
    Utf8PathBuf::from(text)
}

fn s(text: &str) -> String {
    text.to_string()
}

fn bin(name: &str) -> TargetInfo {
    TargetInfo { name: s(name), is_bin: true, is_cdylib: false }
}

fn lib(name: &str) -> TargetInfo {
    TargetInfo { name: s(name), is_bin: false, is_cdylib: true }
}

fn package(name: &str, targets: Vec<TargetInfo>) -> PackageInfo {
    PackageInfo {
        name: s(name),
        manifest_path: p(&format!("/ws/{name}/Cargo.toml")),
        targets,
    }
}

fn opts() -> Opts {
    Opts { release: false, verbose: 0, bin_features: Vec::new(), lib_features: Vec::new() }
}

fn config() -> ProjectConfig {
    ProjectConfig {
        output_name: String::new(),
        site_addr: default_site_addr(),
        site_root: default_site_root(),
        site_pkg_dir: default_pkg_dir(),
        style_file: Some(p("style/main.scss")),
        assets_dir: Some(p("assets")),
        reload_port: default_reload_port(),
        end2end_cmd: None,
        end2end_dir: None,
        browserquery: default_browserquery(),
        bin_target: String::new(),
        lib_features: vec![s("hydrate")],
        lib_default_features: false,
        bin_features: vec![s("ssr")],
        bin_default_features: true,
        config_dir: p(""),
    }
}

fn def(name: &str, bin_package: &str, lib_package: &str) -> ProjectDefinition {
    ProjectDefinition { name: s(name), bin_package: s(bin_package), lib_package: s(lib_package) }
}

fn workspace() -> Vec<PackageInfo> {
    vec![
        package("shared", vec![lib("shared")]),
        package("my-front", vec![lib("my_front")]),
        package("server", vec![lib("server"), bin("server")]),
        package("tools", vec![bin("gen"), bin("lint")]),
    ]
}

#[test]
fn defaults_are_as_documented() {
    assert_eq!(default_reload_port(), 3001);
    assert_eq!(default_browserquery(), "defaults");
    assert_eq!(default_site_addr(), "127.0.0.1:3000");
    assert_eq!(default_pkg_dir(), p("pkg"));
    assert_eq!(default_site_root(), p("target/site"));
}

#[test]
fn faults_carry_their_message() {
    assert_eq!(many_targets_found("app"), ConfigError::ManyTargets(s("app")));
    assert_eq!(
        many_targets_found("app").message(),
        "Several bin targets found for member \"app\", please specify which one to use with: [[workspace.metadata.leptos]] bin-target = \"name\""
    );
    assert_eq!(target_not_found("srv"), ConfigError::TargetNotFound(s("srv")));
    assert_eq!(
        target_not_found("srv").message(),
        "Could not find the target specified: [[workspace.metadata.leptos]] bin-target = \"srv\""
    );
    assert_eq!(
        ConfigError::BinPackageNotFound(s("srv")).message(),
        "Could not find the project bin-package \"srv\""
    );
    assert_eq!(
        ConfigError::LibPackageNotFound(s("front")).message(),
        "Could not find the project lib-package \"front\""
    );
    assert_eq!(
        ConfigError::NoBinTargets(s("front")).message(),
        "No bin targets found for member front"
    );
    assert_eq!(
        ConfigError::MissingCdylib(s("/ws/app/Cargo.toml")).message(),
        "Cargo.toml has leptos metadata but is missing a cdylib library target. /ws/app/Cargo.toml"
    );
    assert_eq!(
        ConfigError::MissingBin(s("/ws/app/Cargo.toml")).message(),
        "Cargo.toml has leptos metadata but is missing a bin target. /ws/app/Cargo.toml"
    );
}

#[test]
fn a_path_fault_carries_the_message_of_the_path_error() {
    let error = package_dir(&p("/elsewhere/app/Cargo.toml"), &p("/ws")).unwrap_err();
    assert_eq!(
        ConfigError::Path(error).message(),
        "Cannot remove base \"/ws\" from \"/elsewhere/app/Cargo.toml\" because base doesn't match"
    );
}

#[test]
fn package_dir_is_relative_to_the_workspace() {
    assert_eq!(package_dir(&p("/ws/app/Cargo.toml"), &p("/ws")), Ok(p("app")));
    assert_eq!(package_dir(&p("/ws/Cargo.toml"), &p("/ws")), Ok(p("")));
    assert_eq!(
        package_dir(&p("/ws"), &p("/ws/app")).unwrap_err().kind,
        PathErrorKind::BaseLonger
    );
}

#[test]
fn packages_are_found_by_name() {
    let packages = workspace();
    assert_eq!(find_package(&packages, "server", true), Some(2));
    assert_eq!(find_package(&packages, "server", false), Some(2));
    assert_eq!(find_package(&packages, "my-front", false), Some(1));
    assert_eq!(find_package(&packages, "my-front", true), None);
    assert_eq!(find_package(&packages, "missing", false), None);
    assert_eq!(find_package(&Vec::new(), "server", false), None);
}

#[test]
fn the_first_package_of_a_name_with_a_bin_target_is_taken() {
    let packages = vec![
        package("app", vec![lib("app")]),
        package("app", vec![bin("one")]),
        package("app", vec![bin("two")]),
    ];
    assert_eq!(find_package(&packages, "app", false), Some(0));
    assert_eq!(find_package(&packages, "app", true), Some(1));
}

#[test]
fn packages_tell_their_targets() {
    let packages = workspace();
    assert!(!packages[0].has_bin_target());
    assert!(packages[2].has_bin_target());
    assert_eq!(packages[2].cdylib_target(), Some(0));
    assert_eq!(packages[3].cdylib_target(), None);
    assert_eq!(package("empty", Vec::new()).cdylib_target(), None);
    assert!(!package("empty", Vec::new()).has_bin_target());
}

#[test]
fn the_library_of_a_package_is_named_with_underscores() {
    assert_eq!(package("my-front", vec![lib("front-lib")]).lib_crate_name(), "front_lib");
    assert_eq!(package("my-front", vec![bin("x-y"), lib("a-b"), lib("c")]).lib_crate_name(), "a_b");
    assert_eq!(package("my-front", vec![bin("srv")]).lib_crate_name(), "my_front");
    assert_eq!(package("plain", Vec::new()).lib_crate_name(), "plain");
}

#[test]
fn the_only_bin_target_is_chosen() {
    let packages = workspace();
    assert_eq!(select_bin_target(&packages[2], ""), Ok(1));
}

#[test]
fn a_named_bin_target_is_chosen() {
    let packages = workspace();
    assert_eq!(select_bin_target(&packages[3], "lint"), Ok(1));
    assert_eq!(select_bin_target(&packages[3], "gen"), Ok(0));
    assert_eq!(select_bin_target(&packages[2], "server"), Ok(1));
}

#[test]
fn a_named_target_that_is_missing_is_a_fault() {
    let packages = workspace();
    assert_eq!(
        select_bin_target(&packages[3], "nope"),
        Err(ConfigError::TargetNotFound(s("nope")))
    );
    assert_eq!(
        select_bin_target(&packages[0], "shared"),
        Err(ConfigError::TargetNotFound(s("shared")))
    );
}

#[test]
fn no_bin_target_is_a_fault() {
    let packages = workspace();
    assert_eq!(
        select_bin_target(&packages[0], ""),
        Err(ConfigError::NoBinTargets(s("shared")))
    );
}

#[test]
fn several_bin_targets_without_a_choice_are_a_fault() {
    let packages = workspace();
    assert_eq!(
        select_bin_target(&packages[3], ""),
        Err(ConfigError::ManyTargets(s("tools")))
    );
}

#[test]
fn a_project_resolves_to_its_packages_and_target() {
    let packages = workspace();
    let project =
        Project::resolve_one(&opts(), &packages, &def("site", "server", "my-front"), config(), true)
            .unwrap();
    let mut settled = config();
    settled.output_name = s("my_front");
    settled.bin_target = s("server");
    assert_eq!(
        project,
        Project {
            name: s("site"),
            config: settled,
            front_package: 1,
            front_profile: s("dev"),
            server_package: 2,
            server_target: 1,
            server_profile: s("dev"),
            watch: true,
        }
    );
    assert!(!project.optimise_front());
    assert!(!project.optimise_server());
}

#[test]
fn the_command_line_overrides_features_and_profile() {
    let packages = workspace();
    let cli = Opts {
        release: true,
        verbose: 2,
        bin_features: vec![s("ssr"), s("tls")],
        lib_features: vec![s("csr")],
    };
    let mut given = config();
    given.output_name = s("site");
    let project =
        Project::resolve_one(&cli, &packages, &def("site", "server", "my-front"), given, false)
            .unwrap();
    assert_eq!(project.config.bin_features, vec![s("ssr"), s("tls")]);
    assert_eq!(project.config.lib_features, vec![s("csr")]);
    assert_eq!(project.config.output_name, "site");
    assert_eq!(project.front_profile, "release");
    assert_eq!(project.server_profile, "release");
    assert!(project.optimise_front());
    assert!(project.optimise_server());
    assert!(!project.watch);
}

#[test]
fn a_project_that_cannot_be_resolved_tells_why() {
    let packages = workspace();
    assert_eq!(
        Project::resolve_one(&opts(), &packages, &def("x", "missing", "my-front"), config(), false),
        Err(ConfigError::BinPackageNotFound(s("missing")))
    );
    assert_eq!(
        Project::resolve_one(&opts(), &packages, &def("x", "my-front", "my-front"), config(), false),
        Err(ConfigError::BinPackageNotFound(s("my-front")))
    );
    assert_eq!(
        Project::resolve_one(&opts(), &packages, &def("x", "server", "missing"), config(), false),
        Err(ConfigError::LibPackageNotFound(s("missing")))
    );
    assert_eq!(
        Project::resolve_one(&opts(), &packages, &def("x", "tools", "my-front"), config(), false),
        Err(ConfigError::ManyTargets(s("tools")))
    );
    let mut wanted = config();
    wanted.bin_target = s("nope");
    assert_eq!(
        Project::resolve_one(&opts(), &packages, &def("x", "tools", "my-front"), wanted, false),
        Err(ConfigError::TargetNotFound(s("nope")))
    );
}

#[test]
fn projects_resolve_in_order_and_the_first_fault_decides() {
    let packages = workspace();
    let mut lint = config();
    lint.bin_target = s("lint");
    let resolved = Project::resolve(
        &opts(),
        &packages,
        vec![
            (def("a", "server", "my-front"), config()),
            (def("b", "tools", "shared"), lint.clone()),
        ],
        true,
    )
    .unwrap();
    assert_eq!(resolved.len(), 2);
    assert_eq!(resolved[0].name, "a");
    assert_eq!(resolved[1].name, "b");
    assert_eq!(resolved[1].server_package, 3);
    assert_eq!(resolved[1].server_target, 1);
    assert_eq!(resolved[1].config.output_name, "shared");
    assert_eq!(
        Project::resolve(
            &opts(),
            &packages,
            vec![
                (def("a", "server", "my-front"), config()),
                (def("b", "tools", "shared"), config()),
                (def("c", "missing", "shared"), config()),
            ],
            true,
        ),
        Err(ConfigError::ManyTargets(s("tools")))
    );
    assert_eq!(Project::resolve(&opts(), &packages, Vec::new(), true), Ok(Vec::new()));
}

#[test]
fn the_environment_names_the_settings() {
    let packages = workspace();
    let mut project =
        Project::resolve_one(&opts(), &packages, &def("site", "server", "my-front"), config(), true)
            .unwrap();
    assert_eq!(
        project.to_envs(),
        vec![
            ("OUTPUT_NAME", s("my_front")),
            ("LEPTOS_SITE_ROOT", s("target/site")),
            ("LEPTOS_SITE_PKG_DIR", s("pkg")),
            ("LEPTOS_SITE_ADDR", s("127.0.0.1:3000")),
            ("LEPTOS_RELOAD_PORT", s("3001")),
            ("LEPTOS_WATCH", s("ON")),
        ]
    );
    project.watch = false;
    project.config.reload_port = 0;
    let envs = project.to_envs();
    assert_eq!(envs.len(), 5);
    assert_eq!(envs[4], ("LEPTOS_RELOAD_PORT", s("0")));
    project.config.reload_port = 65535;
    assert_eq!(project.to_envs()[4], ("LEPTOS_RELOAD_PORT", s("65535")));
}

#[test]
fn the_server_package_is_placed() {
    let packages = workspace();
    let placed = BinPackage::resolve(
        &opts(),
        &p("/ws"),
        &p("target"),
        &packages,
        &def("site", "server", "my-front"),
        &config(),
        false,
    )
    .unwrap();
    assert_eq!(
        placed,
        BinPackage {
            name: s("server"),
            dir: p("server"),
            exe_file: p("target/server/debug/server"),
            package: 2,
            target: 1,
            features: vec![s("ssr")],
            default_features: true,
        }
    );
}

#[test]
fn the_executable_follows_profile_and_machine() {
    let packages = workspace();
    let cli = Opts { release: true, verbose: 0, bin_features: vec![s("tls")], lib_features: Vec::new() };
    let mut settings = config();
    settings.bin_features = Vec::new();
    settings.bin_default_features = false;
    let placed = BinPackage::resolve(
        &cli,
        &p("/ws"),
        &p("target"),
        &packages,
        &def("site", "server", "my-front"),
        &settings,
        true,
    )
    .unwrap();
    assert_eq!(placed.exe_file, p("target/server/release/server.exe"));
    assert_eq!(placed.features, vec![s("tls")]);
    assert!(!placed.default_features);
}

#[test]
fn placing_the_server_package_tells_why_it_fails() {
    let packages = workspace();
    assert_eq!(
        BinPackage::resolve(
            &opts(),
            &p("/ws"),
            &p("target"),
            &packages,
            &def("site", "missing", "my-front"),
            &config(),
            false,
        ),
        Err(ConfigError::BinPackageNotFound(s("missing")))
    );
    assert_eq!(
        BinPackage::resolve(
            &opts(),
            &p("/ws"),
            &p("target"),
            &packages,
            &def("site", "tools", "my-front"),
            &config(),
            false,
        ),
        Err(ConfigError::ManyTargets(s("tools")))
    );
    match BinPackage::resolve(
        &opts(),
        &p("/other"),
        &p("target"),
        &packages,
        &def("site", "server", "my-front"),
        &config(),
        false,
    ) {
        Err(ConfigError::Path(error)) => {
            assert_eq!(error.kind, PathErrorKind::BaseMismatch);
            assert_eq!(error.base, p("/other"));
            assert_eq!(error.path, p("/ws/server"));
        }
        other => panic!("unexpected result {other:?}"),
    }
}

#[test]
fn a_single_package_project_takes_its_names_from_the_package() {
    let app = package("app", vec![lib("app"), bin("app")]);
    assert_eq!(
        ProjectDefinition::from_project(&app, config()),
        Ok((def("app", "app", "app"), config()))
    );
}

#[test]
fn a_single_package_project_needs_both_targets() {
    assert_eq!(
        ProjectDefinition::from_project(&package("app", vec![bin("app")]), config()),
        Err(ConfigError::MissingCdylib(s("/ws/app/Cargo.toml")))
    );
    assert_eq!(
        ProjectDefinition::from_project(&package("app", vec![lib("app")]), config()),
        Err(ConfigError::MissingBin(s("/ws/app/Cargo.toml")))
    );
    assert_eq!(
        ProjectDefinition::from_project(&package("app", Vec::new()), config()),
        Err(ConfigError::MissingCdylib(s("/ws/app/Cargo.toml")))
    );
}

#[test]
fn default_options_ask_for_a_quiet_debug_build() {
    assert_eq!(Opts::default(), opts());
    assert!(Log::Wasm < Log::Server);
}

#[test]
fn the_profile_names_the_build_directory() {
    assert_eq!(opts().profile(), "debug");
    let release = Opts { release: true, ..opts() };
    assert_eq!(release.profile(), "release");
}

#[test]
fn the_subcommand_word_is_dropped_from_second_place_only() {
    let args = |words: &[&str]| words.iter().map(|w| w.to_string()).collect::<Vec<String>>();
    assert_eq!(
        strip_subcommand(args(&["cargo-leptos", "leptos", "watch"])),
        args(&["cargo-leptos", "watch"])
    );
    assert_eq!(
        strip_subcommand(args(&["cargo-leptos", "watch", "leptos"])),
        args(&["cargo-leptos", "watch", "leptos"])
    );
    assert_eq!(
        strip_subcommand(args(&["cargo-leptos", "leptos", "leptos"])),
        args(&["cargo-leptos", "leptos"])
    );
    assert_eq!(strip_subcommand(args(&["leptos"])), args(&["leptos"]));
    assert_eq!(strip_subcommand(Vec::new()), Vec::<String>::new());
}

#[test]
fn building_commands_have_options() {
    let release = Opts { release: true, ..opts() };
    assert_eq!(Commands::Build(release.clone()).opts(), Some(&release));
    assert_eq!(Commands::Serve(opts()).opts(), Some(&opts()));
    assert_eq!(Commands::Test(opts()).opts(), Some(&opts()));
    assert_eq!(Commands::EndToEnd(opts()).opts(), Some(&opts()));
    assert_eq!(Commands::Watch(opts()).opts(), Some(&opts()));
    assert_eq!(Commands::Config.opts(), None);
    assert_eq!(Commands::New.opts(), None);
    let cli = Cli { manifest_path: None, log: vec![Log::Wasm, Log::Server], command: Commands::Config };
    assert_eq!(cli.command.opts(), None);
    assert_ne!(Log::Wasm, Log::Server);
}
