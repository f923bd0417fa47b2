//! The resolution and synthesis pipeline on concrete values.

use cargo_docs_rs::args::Doc;
use cargo_docs_rs::command::{
    cargo_program, command_echo_line, exit_code_for, metadata_command_args, rustdoc_command_args,
    shell_quote, SpawnError, ToolchainProbeFailed,
};
use cargo_docs_rs::flags::{compose_rustc_flags, compose_rustdoc_flags};
use cargo_docs_rs::metadata::{
    DocumentationOptions, Metadata, MetadataParseError, Package, PackageId, Resolve, Target,
};
use cargo_docs_rs::resolver::{resolve_package, ResolveError};
use cargo_docs_rs::storage::Storage;
use cargo_docs_rs::strutil::{join, split_char, split_ws, str_eq, starts_with, u64_to_string};
use cargo_docs_rs::targets::{
    fallback_probe_needed, fallback_targets, host_triple, probe_command_args, probe_program,
    probe_stdin_directive, probe_targets, resolve_targets,
};

fn strings(items: &[&str]) -> Vec<String> {
    items.iter().map(|s| s.to_string()).collect()
}

fn no_options() -> DocumentationOptions {
    DocumentationOptions {
        features: Vec::new(),
        all_features: false,
        no_default_features: false,
        default_target: None,
        targets: None,
        rustc_args: Vec::new(),
        rustdoc_args: Vec::new(),
        cargo_args: Vec::new(),
    }
}

fn package(name: &str, id: &str, kinds: &[&[&str]]) -> Package {
    Package {
        name: name.to_string(),
        id: PackageId { repr: id.to_string() },
        targets: kinds.iter().map(|k| Target { kind: strings(k) }).collect(),
        metadata: Ok(no_options()),
    }
}

fn plain_doc() -> Doc {
    Doc {
        open_mode: false,
        verbose: false,
        version: false,
        package: None,
        jobs: None,
        target: Vec::new(),
        target_dir: None,
        manifest_path: None,
        frozen: false,
        locked: false,
        offline: false,
    }
}

#[test]
fn unknown_selector_is_package_not_found() {
    let m = Metadata {
        packages: vec![package("alpha", "id-alpha", &[&["lib"]])],
        workspace_members: vec![PackageId { repr: "id-alpha".to_string() }],
        resolve: Resolve { root: None },
    };
    match resolve_package(&m, &Some("nope".to_string())) {
        Err(ResolveError::PackageNotFound { name }) => assert_eq!(name, "nope"),
        _ => panic!("expected PackageNotFound"),
    }
}

#[test]
fn ambiguous_selection_lists_members_in_order() {
    let m = Metadata {
        packages: vec![
            package("alpha", "id-alpha", &[&["lib"]]),
            package("beta", "id-beta", &[&["lib"]]),
        ],
        workspace_members: vec![
            PackageId { repr: "id-alpha".to_string() },
            PackageId { repr: "id-beta".to_string() },
        ],
        resolve: Resolve { root: None },
    };
    match resolve_package(&m, &None) {
        Err(ResolveError::AmbiguousPackageSelection { choices }) => {
            assert_eq!(choices, "alpha | beta");
        },
        _ => panic!("expected AmbiguousPackageSelection"),
    }
}

#[test]
fn selector_picks_matching_member() {
    let m = Metadata {
        packages: vec![
            package("alpha", "id-alpha", &[&["lib"]]),
            package("beta", "id-beta", &[&["lib"]]),
        ],
        workspace_members: vec![
            PackageId { repr: "id-alpha".to_string() },
            PackageId { repr: "id-beta".to_string() },
        ],
        resolve: Resolve { root: None },
    };
    let i = resolve_package(&m, &Some("beta".to_string())).unwrap();
    assert_eq!(i, 1);
    assert_eq!(m.packages[i].name, "beta");
}

#[test]
fn root_is_used_without_selector() {
    let m = Metadata {
        packages: vec![
            package("alpha", "id-alpha", &[&["lib"]]),
            package("beta", "id-beta", &[&["lib"]]),
        ],
        workspace_members: vec![PackageId { repr: "id-alpha".to_string() }],
        resolve: Resolve { root: Some(PackageId { repr: "id-beta".to_string() }) },
    };
    let i = resolve_package(&m, &None).unwrap();
    assert_eq!(i, 1);
}

#[test]
fn malformed_block_surfaces_only_when_selected() {
    let mut broken = package("alpha", "id-alpha", &[&["lib"]]);
    broken.metadata = Err(MetadataParseError {
        path: "features".to_string(),
        message: "expected an array".to_string(),
    });
    let m = Metadata {
        packages: vec![broken, package("beta", "id-beta", &[&["lib"]])],
        workspace_members: vec![
            PackageId { repr: "id-alpha".to_string() },
            PackageId { repr: "id-beta".to_string() },
        ],
        resolve: Resolve { root: None },
    };
    // Selecting the healthy member works in spite of the broken one.
    assert_eq!(resolve_package(&m, &Some("beta".to_string())).unwrap(), 1);
    // Selecting the broken member surfaces its deferred error.
    match resolve_package(&m, &Some("alpha".to_string())) {
        Err(ResolveError::InvalidOptions { error }) => {
            assert_eq!(error.path, "features");
            assert_eq!(error.message, "expected an array");
        },
        _ => panic!("expected InvalidOptions"),
    }
}

#[test]
fn proc_macro_only_means_every_kind() {
    assert!(package("a", "i", &[&["proc-macro"]]).is_proc_macro());
    assert!(package("a", "i", &[&["proc-macro"], &["proc-macro"]]).is_proc_macro());
    assert!(!package("a", "i", &[&["lib"]]).is_proc_macro());
    assert!(!package("a", "i", &[&["proc-macro", "lib"]]).is_proc_macro());
}

#[test]
fn proc_macro_package_gets_no_target_flag() {
    let mut opts = no_options();
    opts.targets = Some(strings(&["wasm32-unknown-unknown"]));
    let resolved = resolve_targets(&opts, true, &Vec::new(), false).unwrap();
    assert!(resolved.is_empty());
    let args = rustdoc_command_args(&plain_doc(), &opts, &resolved, &None, &None, &None, &None);
    assert!(!args.iter().any(|a| a == "--target"));
}

#[test]
fn encoded_environment_wins_over_plain() {
    let author = strings(&["-O"]);
    let r = compose_rustc_flags(
        &author,
        &Some("A\u{1f}B".to_string()),
        &Some("C D".to_string()),
    );
    assert_eq!(r, strings(&["A", "B", "-O"]));
    let d = compose_rustdoc_flags(
        &author,
        &Some("A\u{1f}B".to_string()),
        &Some("C D".to_string()),
    );
    assert!(!d.iter().any(|t| t == "C" || t == "D"));
}

#[test]
fn composition_is_deterministic() {
    let author = strings(&["--x", "--y"]);
    let enc = Some("E1\u{1f}E2".to_string());
    let plain = Some("W1 W2".to_string());
    assert_eq!(
        compose_rustc_flags(&author, &enc, &plain),
        compose_rustc_flags(&author, &enc, &plain)
    );
    assert_eq!(
        compose_rustdoc_flags(&author, &enc, &plain),
        compose_rustdoc_flags(&author, &enc, &plain)
    );
}

#[test]
fn rustdoc_flag_ordering_is_fixed() {
    let author = strings(&["--author-flag"]);
    let r = compose_rustdoc_flags(&author, &Some("E1\u{1f}E2".to_string()), &None);
    assert_eq!(
        r,
        strings(&[
            "-Zunstable-options",
            "--cfg=docsrs",
            "E1",
            "E2",
            "--author-flag",
            "--extern-html-root-takes-precedence",
        ])
    );
}

#[test]
fn configured_wasm_target_is_probed() {
    let mut opts = no_options();
    opts.targets = Some(strings(&["wasm32-unknown-unknown"]));
    let resolved = resolve_targets(&opts, false, &Vec::new(), false).unwrap();
    assert_eq!(resolved, strings(&["wasm32-unknown-unknown"]));
    let probes = probe_targets(&resolved, "x86_64-unknown-linux-gnu");
    assert_eq!(probes, strings(&["wasm32-unknown-unknown"]));
    assert_eq!(
        probe_command_args("wasm32-unknown-unknown"),
        strings(&["-", "--target", "wasm32-unknown-unknown", "-Zunpretty=expanded"])
    );
    assert_eq!(probe_program(), "rustc");
    assert_eq!(probe_stdin_directive(), "#![no_std]\n");
}

#[test]
fn open_mode_on_native_host_skips_probe() {
    let opts = no_options();
    assert!(resolve_targets(&opts, false, &Vec::new(), true).is_none());
    assert!(!fallback_probe_needed("x86_64-unknown-linux-gnu"));
    let targets = fallback_targets("x86_64-unknown-linux-gnu", false);
    assert_eq!(targets, strings(&["x86_64-unknown-linux-gnu"]));
    assert!(probe_targets(&targets, "x86_64-unknown-linux-gnu").is_empty());
}

#[test]
fn failed_fallback_probe_degrades_to_host() {
    let opts = no_options();
    assert!(resolve_targets(&opts, false, &Vec::new(), false).is_none());
    assert!(fallback_probe_needed("aarch64-apple-darwin"));
    assert_eq!(
        fallback_targets("aarch64-apple-darwin", false),
        strings(&["aarch64-apple-darwin"])
    );
    assert_eq!(
        fallback_targets("aarch64-apple-darwin", true),
        strings(&["x86_64-unknown-linux-gnu"])
    );
}

#[test]
fn open_mode_prefers_default_target() {
    let mut opts = no_options();
    opts.default_target = Some("t-default".to_string());
    opts.targets = Some(strings(&["t-first", "t-second"]));
    assert_eq!(
        resolve_targets(&opts, false, &Vec::new(), true).unwrap(),
        strings(&["t-default"])
    );
    opts.default_target = None;
    assert_eq!(
        resolve_targets(&opts, false, &Vec::new(), true).unwrap(),
        strings(&["t-first"])
    );
    let explicit = strings(&["t-explicit"]);
    assert_eq!(
        resolve_targets(&opts, true, &explicit, true).unwrap(),
        strings(&["t-explicit"])
    );
}

#[test]
fn configured_list_beats_default_target() {
    let mut opts = no_options();
    opts.default_target = Some("t-default".to_string());
    opts.targets = Some(strings(&["t-a", "t-b"]));
    assert_eq!(
        resolve_targets(&opts, false, &Vec::new(), false).unwrap(),
        strings(&["t-a", "t-b"])
    );
    opts.targets = None;
    assert_eq!(
        resolve_targets(&opts, false, &Vec::new(), false).unwrap(),
        strings(&["t-default"])
    );
}

#[test]
fn metadata_command_arguments() {
    let mut d = plain_doc();
    d.manifest_path = Some("dir/Cargo.toml".to_string());
    d.frozen = true;
    d.offline = true;
    assert_eq!(
        metadata_command_args(&d),
        strings(&[
            "metadata",
            "--format-version=1",
            "--manifest-path",
            "dir/Cargo.toml",
            "--frozen",
            "--offline",
        ])
    );
}

#[test]
fn rustdoc_command_arguments_exact() {
    let mut d = plain_doc();
    d.package = Some("demo".to_string());
    d.jobs = Some(2);
    d.target_dir = Some("out".to_string());
    d.manifest_path = Some("Cargo.toml".to_string());
    d.locked = true;
    let opts = DocumentationOptions {
        features: strings(&["a", "b"]),
        all_features: false,
        no_default_features: true,
        default_target: None,
        targets: None,
        rustc_args: strings(&["-O"]),
        rustdoc_args: strings(&["--author-flag"]),
        cargo_args: strings(&["--quiet"]),
    };
    let targets = strings(&["wasm32-unknown-unknown"]);
    let args = rustdoc_command_args(
        &d,
        &opts,
        &targets,
        &None,
        &Some("-C opt-level=2".to_string()),
        &Some("E1\u{1f}E2".to_string()),
        &None,
    );
    assert_eq!(
        args,
        strings(&[
            "rustdoc",
            "-Zunstable-options",
            "-Zrustdoc-map",
            "-Zhost-config",
            "-Ztarget-applies-to-host",
            "--manifest-path",
            "Cargo.toml",
            "--locked",
            "--lib",
            "--package",
            "demo",
            "--features",
            "a,b",
            "--no-default-features",
            "--target",
            "wasm32-unknown-unknown",
            "--config",
            "build.rustflags=[\"-C\", \"opt-level=2\", \"-O\"]",
            "--config",
            "host.rustflags=[\"-C\", \"opt-level=2\", \"-O\"]",
            "--config",
            "build.rustdocflags=[\"-Zunstable-options\", \"--cfg=docsrs\", \"E1\", \"E2\", \"--author-flag\", \"--extern-html-root-takes-precedence\"]",
            "--config",
            "doc.extern-map.registries.crates-io=\"https://docs.rs\"",
            "--quiet",
            "--jobs",
            "2",
            "--target-dir",
            "out",
        ])
    );
}

#[test]
fn open_and_verbose_are_forwarded() {
    let mut d = plain_doc();
    d.open_mode = true;
    d.verbose = true;
    let args = rustdoc_command_args(&d, &no_options(), &Vec::new(), &None, &None, &None, &None);
    assert_eq!(args[args.len() - 2], "--open");
    assert_eq!(args[args.len() - 1], "--verbose");
}

#[test]
fn cargo_program_defaults() {
    assert_eq!(cargo_program(&None), "cargo");
    assert_eq!(cargo_program(&Some("/usr/bin/cargo-nightly".to_string())), "/usr/bin/cargo-nightly");
}

#[test]
fn exit_codes_mirror_the_subprocess() {
    assert_eq!(exit_code_for(Some(3)), 3);
    assert_eq!(exit_code_for(Some(0)), 0);
    assert_eq!(exit_code_for(None), 1);
}

#[test]
fn error_messages_name_the_command() {
    let s = SpawnError { command: "cargo".to_string() };
    assert_eq!(s.message(), "failed to spawn cargo");
    let p = ToolchainProbeFailed { command: "rustc".to_string() };
    assert_eq!(p.message(), "failed to spawn probe rustc");
}

#[test]
fn resolve_error_messages() {
    let e = ResolveError::AmbiguousPackageSelection { choices: "a | b".to_string() };
    assert_eq!(e.message(), "Pass `-p [a | b]` to select a single workspace member");
    let e = ResolveError::PackageNotFound { name: "x".to_string() };
    assert_eq!(e.message(), "package not found: x");
}

#[test]
fn whitespace_splitting_drops_empty_runs() {
    assert_eq!(split_ws("  a \t b "), strings(&["a", "b"]));
    assert!(split_ws("").is_empty());
    assert!(split_ws(" \t\n").is_empty());
}

#[test]
fn unit_separator_splitting_keeps_empties() {
    assert_eq!(split_char("\u{1f}a\u{1f}", '\u{1f}'), strings(&["", "a", ""]));
    assert_eq!(split_char("", '\u{1f}'), strings(&[""]));
    assert_eq!(split_char("a,b,c", ','), strings(&["a", "b", "c"]));
}

#[test]
fn join_and_compare_helpers() {
    assert_eq!(join(&strings(&["a", "b"]), " | "), "a | b");
    assert_eq!(join(&Vec::new(), ","), "");
    assert!(str_eq("abc", "abc"));
    assert!(!str_eq("abc", "abd"));
    assert!(starts_with("host: arm", "host: "));
    assert!(!starts_with("hos", "host: "));
}

#[test]
fn counts_render_in_decimal() {
    assert_eq!(u64_to_string(0), "0");
    assert_eq!(u64_to_string(42), "42");
    assert_eq!(u64_to_string(18446744073709551615), "18446744073709551615");
}

#[test]
fn host_triple_comes_from_the_version_report() {
    let out = "rustc 1.80.0 (abc 2024-01-01)\nbinary: rustc\nhost: x86_64-unknown-linux-gnu\nrelease: 1.80.0\n";
    assert_eq!(host_triple(out).unwrap(), "x86_64-unknown-linux-gnu");
    assert_eq!(host_triple("host: a\r\nrest\n").unwrap(), "a");
    assert!(host_triple("rustc 1.80.0\n").is_none());
}

#[test]
fn storage_remote_paths() {
    let s = Storage::new("prefix".to_string());
    assert_eq!(s.path, "prefix");
    assert_eq!(
        s.rustdoc_remote_path("serde", "1.0.0", "serde/index.html"),
        "rustdoc/serde/1.0.0/serde/index.html"
    );
}

#[test]
fn shell_quoting_is_minimal_and_safe() {
    assert_eq!(shell_quote("plain-arg_1.0/x=y"), "plain-arg_1.0/x=y");
    assert_eq!(shell_quote("a b"), "'a b'");
    assert_eq!(shell_quote(""), "''");
    assert_eq!(shell_quote("it's"), "'it'\\''s'");
}

#[test]
fn verbose_echo_quotes_each_argument() {
    let args = strings(&["rustdoc", "--config", "build.rustflags=[\"-O\"]"]);
    assert_eq!(
        command_echo_line("cargo", &args),
        "cargo rustdoc --config 'build.rustflags=[\"-O\"]'"
    );
}

#[test]
fn rustdoc_flags_without_environment() {
    let r = compose_rustdoc_flags(&Vec::new(), &None, &None);
    assert_eq!(
        r,
        strings(&["-Zunstable-options", "--cfg=docsrs", "--extern-html-root-takes-precedence"])
    );
    assert_eq!(compose_rustc_flags(&Vec::new(), &None, &None), Vec::<String>::new());
}
