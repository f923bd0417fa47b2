//! Command synthesis: the exact argument vectors of the metadata query and
//! of the final build invocation, and the mapping of a subprocess's end to
//! the tool's own exit code.

use vstd::prelude::*;
use crate::args::{Doc, DocView};
use crate::flags::{
    compose_rustc_flags, compose_rustdoc_flags, spec_rustc_flags, spec_rustdoc_flags,
};
use crate::metadata::{DocumentationOptions, DocumentationOptionsView};
use crate::strutil::{
    join, push_all, push_lit, spec_join, spec_split_char, spec_u64_string, split_char,
    u64_to_string,
};

verus! {

/// The build tool to invoke: the executable the environment names, else
/// the fixed default.
pub fn cargo_program(env_cargo: &Option<String>) -> (r: String)
    ensures
        r@ == match env_cargo.deep_view() {
            Some(s) => s,
            None => "cargo"@,
        },
{
    match env_cargo {
        Some(s) => s.clone(),
        None => "cargo".to_owned(),
    }
}

/// Arguments meaningful to both the metadata query and the build
/// invocation.
pub open spec fn spec_common_args(d: DocView) -> Seq<Seq<char>> {
    (match d.manifest_path {
        Some(p) => seq!["--manifest-path"@, p],
        None => Seq::<Seq<char>>::empty(),
    }) + (if d.frozen {
        seq!["--frozen"@]
    } else {
        Seq::<Seq<char>>::empty()
    }) + (if d.locked {
        seq!["--locked"@]
    } else {
        Seq::<Seq<char>>::empty()
    }) + (if d.offline {
        seq!["--offline"@]
    } else {
        Seq::<Seq<char>>::empty()
    })
}

/// Appends the arguments that both invocations share.
pub fn propagate_common_args(v: &mut Vec<String>, d: &Doc)
    ensures
        final(v).deep_view() == old(v).deep_view() + spec_common_args(d@),
{
    let ghost base = v.deep_view();
    match &d.manifest_path {
        Some(p) => {
            push_lit(v, "--manifest-path");
            push_lit(v, p.as_str());
            proof {
                assert(base + seq!["--manifest-path"@] + seq![p@] =~= base + seq![
                    "--manifest-path"@,
                    p@,
                ]);
            }
        },
        None => {
            proof {
                assert(base + Seq::<Seq<char>>::empty() =~= base);
            }
        },
    }
    if d.frozen {
        push_lit(v, "--frozen");
    } else {
        proof {
            assert(v.deep_view() + Seq::<Seq<char>>::empty() =~= v.deep_view());
        }
    }
    if d.locked {
        push_lit(v, "--locked");
    } else {
        proof {
            assert(v.deep_view() + Seq::<Seq<char>>::empty() =~= v.deep_view());
        }
    }
    if d.offline {
        push_lit(v, "--offline");
    } else {
        proof {
            assert(v.deep_view() + Seq::<Seq<char>>::empty() =~= v.deep_view());
        }
    }
}

/// The arguments of the metadata query that feeds the loader.
pub open spec fn spec_metadata_args(d: DocView) -> Seq<Seq<char>> {
    seq!["metadata"@, "--format-version=1"@] + spec_common_args(d)
}

/// Builds the argument list of the metadata query.
pub fn metadata_command_args(d: &Doc) -> (r: Vec<String>)
    ensures
        r.deep_view() == spec_metadata_args(d@),
{
    let mut v: Vec<String> = Vec::new();
    proof {
        assert(v.deep_view() =~= Seq::<Seq<char>>::empty());
    }
    push_lit(&mut v, "metadata");
    push_lit(&mut v, "--format-version=1");
    proof {
        assert(v.deep_view() =~= seq!["metadata"@, "--format-version=1"@]);
    }
    propagate_common_args(&mut v, d);
    v
}

/// The target arguments: `--target` before each resolved triple, in order,
/// from position `i` on.
pub open spec fn spec_target_args_from(targets: Seq<Seq<char>>, i: int) -> Seq<Seq<char>>
    decreases targets.len() - i,
{
    if !(0 <= i < targets.len()) {
        Seq::empty()
    } else {
        seq!["--target"@, targets[i]] + spec_target_args_from(targets, i + 1)
    }
}

/// The target arguments: `--target` before each resolved triple, in order.
/// An empty resolution contributes nothing: the invocation then carries no
/// target flag at all.
pub open spec fn spec_target_args(targets: Seq<Seq<char>>) -> Seq<Seq<char>> {
    spec_target_args_from(targets, 0)
}

/// Builds the target arguments.
pub fn target_args(targets: &Vec<String>) -> (r: Vec<String>)
    ensures
        r.deep_view() == spec_target_args(targets.deep_view()),
{
    let ghost all = targets.deep_view();
    let mut v: Vec<String> = Vec::new();
    let mut i: usize = 0;
    proof {
        assert(v.deep_view() + spec_target_args_from(all, 0) =~= spec_target_args_from(all, 0));
    }
    while i < targets.len()
        invariant
            all == targets.deep_view(),
            all.len() == targets.len(),
            i <= targets.len(),
            spec_target_args_from(all, 0) == v.deep_view() + spec_target_args_from(all, i as int),
        decreases targets.len() - i,
    {
        let ghost pre = v.deep_view();
        push_lit(&mut v, "--target");
        push_lit(&mut v, targets[i].as_str());
        proof {
            assert(pre + seq!["--target"@] + seq![all[i as int]] =~= pre + seq![
                "--target"@,
                all[i as int],
            ]);
            assert(pre + (seq!["--target"@, all[i as int]] + spec_target_args_from(all, i + 1))
                =~= (pre + seq!["--target"@, all[i as int]]) + spec_target_args_from(all, i + 1));
        }
        i = i + 1;
    }
    v
}

/// What toml's serializer prints for a list of strings: one TOML array
/// literal, a function of the strings alone.
pub uninterp spec fn toml_list_of(items: Seq<Seq<char>>) -> Seq<char>;

/// Relies on `toml::Value::try_from` and the `Display` of `toml::Value`:
/// a list of strings serializes to the TOML array literal holding them,
/// and the rendering depends on the strings alone. Serializing a list of
/// strings cannot fail.
#[verifier::external_body]
fn toml_string_list(items: &Vec<String>) -> (r: String)
    ensures
        r@ == toml_list_of(items.deep_view()),
{
    toml::Value::try_from(items).unwrap().to_string()
}

/// One `--config` payload: `prefix` followed by the TOML array of `list`.
pub fn config_arg(prefix: &str, list: &Vec<String>) -> (r: String)
    ensures
        r@ == prefix@ + toml_list_of(list.deep_view()),
{
    let mut s = prefix.to_owned();
    let t = toml_string_list(list);
    s.append(t.as_str());
    s
}

/// The whole argument vector of the final build invocation, after the
/// program name: the `rustdoc` subcommand and its fixed unstable options,
/// the shared arguments, the library selector, the package and feature
/// selection (emitted only when non-default), one `--target` per resolved
/// triple, the flag lists as configuration entries, the fixed registry
/// mapping, the author's pass-through arguments verbatim, and the
/// remaining command-line switches.
pub open spec fn spec_rustdoc_args(
    d: DocView,
    o: DocumentationOptionsView,
    targets: Seq<Seq<char>>,
    enc_rf: Option<Seq<char>>,
    plain_rf: Option<Seq<char>>,
    enc_rdf: Option<Seq<char>>,
    plain_rdf: Option<Seq<char>>,
) -> Seq<Seq<char>> {
    let rustflags = spec_rustc_flags(o.rustc_args, enc_rf, plain_rf);
    let rustdocflags = spec_rustdoc_flags(o.rustdoc_args, enc_rdf, plain_rdf);
    seq![
        "rustdoc"@,
        "-Zunstable-options"@,
        "-Zrustdoc-map"@,
        "-Zhost-config"@,
        "-Ztarget-applies-to-host"@,
    ] + spec_common_args(d) + seq!["--lib"@] + (match d.package {
        Some(p) => seq!["--package"@, p],
        None => Seq::<Seq<char>>::empty(),
    }) + (if o.features.len() != 0 {
        seq!["--features"@, spec_join(o.features, ","@)]
    } else {
        Seq::<Seq<char>>::empty()
    }) + (if o.all_features {
        seq!["--all-features"@]
    } else {
        Seq::<Seq<char>>::empty()
    }) + (if o.no_default_features {
        seq!["--no-default-features"@]
    } else {
        Seq::<Seq<char>>::empty()
    }) + spec_target_args(targets) + seq!["--config"@, "build.rustflags="@ + toml_list_of(
        rustflags,
    )] + seq!["--config"@, "host.rustflags="@ + toml_list_of(rustflags)] + seq![
        "--config"@,
        "build.rustdocflags="@ + toml_list_of(rustdocflags),
    ] + seq!["--config"@, "doc.extern-map.registries.crates-io=\"https://docs.rs\""@]
        + o.cargo_args + (match d.jobs {
        Some(n) => seq!["--jobs"@, spec_u64_string(n as int)],
        None => Seq::<Seq<char>>::empty(),
    }) + (match d.target_dir {
        Some(t) => seq!["--target-dir"@, t],
        None => Seq::<Seq<char>>::empty(),
    }) + (if d.open_mode {
        seq!["--open"@]
    } else {
        Seq::<Seq<char>>::empty()
    }) + (if d.verbose {
        seq!["--verbose"@]
    } else {
        Seq::<Seq<char>>::empty()
    })
}

/// Builds the argument vector of the final build invocation.
#[verifier::rlimit(80)]
pub fn rustdoc_command_args(
    d: &Doc,
    o: &DocumentationOptions,
    targets: &Vec<String>,
    enc_rf: &Option<String>,
    plain_rf: &Option<String>,
    enc_rdf: &Option<String>,
    plain_rdf: &Option<String>,
) -> (r: Vec<String>)
    ensures
        r.deep_view() == spec_rustdoc_args(
            d@,
            o@,
            targets.deep_view(),
            enc_rf.deep_view(),
            plain_rf.deep_view(),
            enc_rdf.deep_view(),
            plain_rdf.deep_view(),
        ),
{
    let mut v: Vec<String> = Vec::new();
    proof {
        assert(v.deep_view() =~= Seq::<Seq<char>>::empty());
    }
    push_lit(&mut v, "rustdoc");
    push_lit(&mut v, "-Zunstable-options");
    push_lit(&mut v, "-Zrustdoc-map");
    push_lit(&mut v, "-Zhost-config");
    push_lit(&mut v, "-Ztarget-applies-to-host");
    proof {
        assert(v.deep_view() =~= seq![
            "rustdoc"@,
            "-Zunstable-options"@,
            "-Zrustdoc-map"@,
            "-Zhost-config"@,
            "-Ztarget-applies-to-host"@,
        ]);
    }
    propagate_common_args(&mut v, d);
    push_lit(&mut v, "--lib");
    match &d.package {
        Some(p) => {
            let ghost pre = v.deep_view();
            push_lit(&mut v, "--package");
            push_lit(&mut v, p.as_str());
            proof {
                assert(pre + seq!["--package"@] + seq![p@] =~= pre + seq!["--package"@, p@]);
            }
        },
        None => {
            proof {
                assert(v.deep_view() + Seq::<Seq<char>>::empty() =~= v.deep_view());
            }
        },
    }
    if o.features.len() != 0 {
        let ghost pre = v.deep_view();
        let joined = join(&o.features, ",");
        push_lit(&mut v, "--features");
        push_lit(&mut v, joined.as_str());
        proof {
            assert(o@.features.len() != 0);
            assert(pre + seq!["--features"@] + seq![joined@] =~= pre + seq![
                "--features"@,
                joined@,
            ]);
        }
    } else {
        proof {
            assert(o@.features.len() == 0);
            assert(v.deep_view() + Seq::<Seq<char>>::empty() =~= v.deep_view());
        }
    }
    if o.all_features {
        push_lit(&mut v, "--all-features");
    } else {
        proof {
            assert(v.deep_view() + Seq::<Seq<char>>::empty() =~= v.deep_view());
        }
    }
    if o.no_default_features {
        push_lit(&mut v, "--no-default-features");
    } else {
        proof {
            assert(v.deep_view() + Seq::<Seq<char>>::empty() =~= v.deep_view());
        }
    }
    let ta = target_args(targets);
    push_all(&mut v, &ta);
    let rustflags = compose_rustc_flags(&o.rustc_args, enc_rf, plain_rf);
    let rustdocflags = compose_rustdoc_flags(&o.rustdoc_args, enc_rdf, plain_rdf);
    let ghost pre = v.deep_view();
    let build_rustflags = config_arg("build.rustflags=", &rustflags);
    push_lit(&mut v, "--config");
    push_lit(&mut v, build_rustflags.as_str());
    proof {
        assert(pre + seq!["--config"@] + seq![build_rustflags@] =~= pre + seq![
            "--config"@,
            build_rustflags@,
        ]);
    }
    let ghost pre = v.deep_view();
    let host_rustflags = config_arg("host.rustflags=", &rustflags);
    push_lit(&mut v, "--config");
    push_lit(&mut v, host_rustflags.as_str());
    proof {
        assert(pre + seq!["--config"@] + seq![host_rustflags@] =~= pre + seq![
            "--config"@,
            host_rustflags@,
        ]);
    }
    let ghost pre = v.deep_view();
    let build_rustdocflags = config_arg("build.rustdocflags=", &rustdocflags);
    push_lit(&mut v, "--config");
    push_lit(&mut v, build_rustdocflags.as_str());
    proof {
        assert(pre + seq!["--config"@] + seq![build_rustdocflags@] =~= pre + seq![
            "--config"@,
            build_rustdocflags@,
        ]);
    }
    let ghost pre = v.deep_view();
    push_lit(&mut v, "--config");
    push_lit(&mut v, "doc.extern-map.registries.crates-io=\"https://docs.rs\"");
    proof {
        assert(pre + seq!["--config"@] + seq![
            "doc.extern-map.registries.crates-io=\"https://docs.rs\""@,
        ] =~= pre + seq![
            "--config"@,
            "doc.extern-map.registries.crates-io=\"https://docs.rs\""@,
        ]);
    }
    push_all(&mut v, &o.cargo_args);
    match d.jobs {
        Some(n) => {
            let ghost pre = v.deep_view();
            let js = u64_to_string(n);
            push_lit(&mut v, "--jobs");
            push_lit(&mut v, js.as_str());
            proof {
                assert(pre + seq!["--jobs"@] + seq![js@] =~= pre + seq!["--jobs"@, js@]);
            }
        },
        None => {
            proof {
                assert(v.deep_view() + Seq::<Seq<char>>::empty() =~= v.deep_view());
            }
        },
    }
    match &d.target_dir {
        Some(t) => {
            let ghost pre = v.deep_view();
            push_lit(&mut v, "--target-dir");
            push_lit(&mut v, t.as_str());
            proof {
                assert(pre + seq!["--target-dir"@] + seq![t@] =~= pre + seq!["--target-dir"@, t@]);
            }
        },
        None => {
            proof {
                assert(v.deep_view() + Seq::<Seq<char>>::empty() =~= v.deep_view());
            }
        },
    }
    if d.open_mode {
        push_lit(&mut v, "--open");
    } else {
        proof {
            assert(v.deep_view() + Seq::<Seq<char>>::empty() =~= v.deep_view());
        }
    }
    if d.verbose {
        push_lit(&mut v, "--verbose");
    } else {
        proof {
            assert(v.deep_view() + Seq::<Seq<char>>::empty() =~= v.deep_view());
        }
    }
    v
}

/// The tool's exit code for a finished subprocess: the subprocess's own
/// code, or one when a signal ended it and no code exists.
pub fn exit_code_for(status_code: Option<i32>) -> (r: i32)
    ensures
        r == match status_code {
            Some(c) => c,
            None => 1i32,
        },
{
    match status_code {
        Some(c) => c,
        None => 1,
    }
}

/// A character that needs no quoting on a shell command line.
pub open spec fn is_shell_safe_char(c: char) -> bool {
    let u = c as u32;
    (97 <= u && u <= 122) || (65 <= u && u <= 90) || (48 <= u && u <= 57) || c == '-' || c == '_'
        || c == '.' || c == '/' || c == '=' || c == ':' || c == ',' || c == '+' || c == '@'
}

/// Whether `c` needs no quoting on a shell command line.
pub fn shell_safe_char(c: char) -> (r: bool)
    ensures
        r == is_shell_safe_char(c),
{
    let u = c as u32;
    (97 <= u && u <= 122) || (65 <= u && u <= 90) || (48 <= u && u <= 57) || c == '-' || c == '_'
        || c == '.' || c == '/' || c == '=' || c == ':' || c == ',' || c == '+' || c == '@'
}

/// One argument, quoted for a shell: a non-empty argument of safe
/// characters stands as it is; anything else is wrapped in single quotes,
/// each of its own single quotes spliced in as a closing quote, an
/// escaped quote and a reopening quote.
pub open spec fn spec_shell_quote(s: Seq<char>) -> Seq<char> {
    if s.len() > 0 && (forall|j: int| 0 <= j < s.len() ==> is_shell_safe_char(#[trigger] s[j])) {
        s
    } else {
        "'"@ + spec_join(spec_split_char(s, '\''), "'\\''"@) + "'"@
    }
}

/// Quotes one argument for the echoed command line.
pub fn shell_quote(s: &str) -> (r: String)
    ensures
        r@ == spec_shell_quote(s@),
{
    let n = s.unicode_len();
    let mut safe = n != 0;
    let mut i: usize = 0;
    while i < n
        invariant
            n == s@.len(),
            i <= n,
            safe == (n != 0 && (forall|j: int|
                0 <= j < i ==> is_shell_safe_char(#[trigger] s@[j]))),
        decreases n - i,
    {
        if !shell_safe_char(s.get_char(i)) {
            safe = false;
        }
        i = i + 1;
    }
    if safe {
        s.to_owned()
    } else {
        let parts = split_char(s, '\'');
        let body = join(&parts, "'\\''");
        let mut r = "'".to_owned();
        r.append(body.as_str());
        r.append("'");
        r
    }
}

/// Every argument quoted, in order.
pub open spec fn spec_quoted_all(items: Seq<Seq<char>>) -> Seq<Seq<char>> {
    items.map_values(|a: Seq<char>| spec_shell_quote(a))
}

/// Quotes every argument of a command line.
pub fn quote_all(items: &Vec<String>) -> (r: Vec<String>)
    ensures
        r.deep_view() == spec_quoted_all(items.deep_view()),
{
    let ghost all = items.deep_view();
    let mut out: Vec<String> = Vec::new();
    let mut i: usize = 0;
    proof {
        assert(out.deep_view() =~= spec_quoted_all(all).take(0));
    }
    while i < items.len()
        invariant
            all == items.deep_view(),
            all.len() == items.len(),
            i <= items.len(),
            out.deep_view() == spec_quoted_all(all).take(i as int),
        decreases items.len() - i,
    {
        let ghost pre = out.deep_view();
        let q = shell_quote(items[i].as_str());
        out.push(q);
        proof {
            assert(out.deep_view() =~= pre.push(spec_shell_quote(all[i as int])));
            assert(pre.push(spec_shell_quote(all[i as int])) =~= spec_quoted_all(all).take(
                i + 1 as int,
            ));
        }
        i = i + 1;
    }
    proof {
        assert(spec_quoted_all(all).take(items.len() as int) =~= spec_quoted_all(all));
    }
    out
}

/// The human-readable echo of one invocation: the program and each
/// argument shell-quoted, separated by single spaces.
pub fn command_echo_line(program: &str, args: &Vec<String>) -> (r: String)
    ensures
        r@ == spec_join(
            seq![spec_shell_quote(program@)] + spec_quoted_all(args.deep_view()),
            " "@,
        ),
{
    let mut v: Vec<String> = Vec::new();
    let q = shell_quote(program);
    v.push(q);
    proof {
        assert(v.deep_view() =~= seq![spec_shell_quote(program@)]);
    }
    let rest = quote_all(args);
    push_all(&mut v, &rest);
    join(&v, " ")
}

/// A procedural-macro-only package with no explicit command-line targets
/// resolves to no target list at all, whatever targets the package
/// configured, and an empty resolution contributes no target arguments to
/// the synthesized command: the invocation carries no target flag and
/// defers to the host toolchain.
pub proof fn lemma_proc_macro_omits_targets(
    p: crate::metadata::PackageView,
    opts: DocumentationOptionsView,
    open_mode: bool,
)
    requires
        crate::metadata::is_proc_macro_only(p),
    ensures
        crate::targets::spec_resolve_targets(
            opts,
            crate::metadata::is_proc_macro_only(p),
            Seq::empty(),
            open_mode,
        ) == Some(Seq::<Seq<char>>::empty()),
        spec_target_args(Seq::empty()) == Seq::<Seq<char>>::empty(),
{
}

/// The final build command could not be spawned at all.
#[derive(Debug)]
pub struct SpawnError {
    pub command: String,
}

impl SpawnError {
    /// A human-readable report of the failure.
    pub fn message(&self) -> (r: String)
        ensures
            r@ == "failed to spawn "@ + self.command@,
    {
        let mut s = "failed to spawn ".to_owned();
        s.append(self.command.as_str());
        s
    }
}

/// A target-availability probe could not be spawned; a probe that runs
/// and exits non-zero is not an error but a decision input.
#[derive(Debug)]
pub struct ToolchainProbeFailed {
    pub command: String,
}

impl ToolchainProbeFailed {
    /// A human-readable report of the failure.
    pub fn message(&self) -> (r: String)
        ensures
            r@ == "failed to spawn probe "@ + self.command@,
    {
        let mut s = "failed to spawn probe ".to_owned();
        s.append(self.command.as_str());
        s
    }
}

} // verus!
