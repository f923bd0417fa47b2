//! Target resolution: the ordered set of target triples to document, by a
//! strict precedence chain, with a toolchain probe as the last resort when
//! nothing is configured.

use vstd::prelude::*;
use vstd::string::StrSliceExecFns;
use crate::metadata::{DocumentationOptions, DocumentationOptionsView};
use crate::strutil::{
    str_eq, starts_with, split_char, push_all, push_lit, spec_split_char, spec_starts_with,
};

verus! {

/// The hosted service's historical default triple, preferred when nothing
/// else decides the target.
pub fn preferred_fallback_target() -> (r: String)
    ensures
        r@ == "x86_64-unknown-linux-gnu"@,
{
    "x86_64-unknown-linux-gnu".to_owned()
}

/// The resolved target list, by precedence: explicit command-line targets
/// verbatim; for a procedural-macro-only package no list at all (the
/// invocation defers to the host); in open mode one triple, the configured
/// default else the first configured target; else the configured list
/// verbatim; else the configured default alone. `None` means nothing is
/// configured and the fallback probe must decide.
pub open spec fn spec_resolve_targets(
    opts: DocumentationOptionsView,
    proc_macro_only: bool,
    explicit: Seq<Seq<char>>,
    open_mode: bool,
) -> Option<Seq<Seq<char>>> {
    if explicit.len() != 0 {
        Some(explicit)
    } else if proc_macro_only {
        Some(Seq::empty())
    } else if open_mode {
        match opts.default_target {
            Some(t) => Some(seq![t]),
            None => match opts.targets {
                Some(ts) => if ts.len() != 0 {
                    Some(seq![ts[0]])
                } else {
                    None
                },
                None => None,
            },
        }
    } else {
        match opts.targets {
            Some(ts) => Some(ts),
            None => match opts.default_target {
                Some(t) => Some(seq![t]),
                None => None,
            },
        }
    }
}

/// Resolves the target list from the configuration and the command line;
/// `None` asks the caller to run the fallback probe.
pub fn resolve_targets(
    opts: &DocumentationOptions,
    proc_macro_only: bool,
    explicit: &Vec<String>,
    open_mode: bool,
) -> (r: Option<Vec<String>>)
    ensures
        match r {
            Some(v) => spec_resolve_targets(
                opts@,
                proc_macro_only,
                explicit.deep_view(),
                open_mode,
            ) == Some(v.deep_view()),
            None => spec_resolve_targets(
                opts@,
                proc_macro_only,
                explicit.deep_view(),
                open_mode,
            ) is None,
        },
{
    if explicit.len() != 0 {
        let mut v: Vec<String> = Vec::new();
        proof {
            assert(v.deep_view() + explicit.deep_view() =~= explicit.deep_view());
        }
        push_all(&mut v, explicit);
        Some(v)
    } else if proc_macro_only {
        let v: Vec<String> = Vec::new();
        proof {
            assert(v.deep_view() =~= Seq::<Seq<char>>::empty());
        }
        Some(v)
    } else if open_mode {
        match &opts.default_target {
            Some(t) => {
                let mut v: Vec<String> = Vec::new();
                push_lit(&mut v, t.as_str());
                proof {
                    assert(v.deep_view() =~= seq![t@]);
                }
                Some(v)
            },
            None => match &opts.targets {
                Some(ts) => {
                    if ts.len() != 0 {
                        let mut v: Vec<String> = Vec::new();
                        push_lit(&mut v, ts[0].as_str());
                        proof {
                            assert(v.deep_view() =~= seq![ts.deep_view()[0]]);
                        }
                        Some(v)
                    } else {
                        None
                    }
                },
                None => None,
            },
        }
    } else {
        match &opts.targets {
            Some(ts) => {
                let mut v: Vec<String> = Vec::new();
                proof {
                    assert(v.deep_view() + ts.deep_view() =~= ts.deep_view());
                }
                push_all(&mut v, ts);
                Some(v)
            },
            None => match &opts.default_target {
                Some(t) => {
                    let mut v: Vec<String> = Vec::new();
                    push_lit(&mut v, t.as_str());
                    proof {
                        assert(v.deep_view() =~= seq![t@]);
                    }
                    Some(v)
                },
                None => None,
            },
        }
    }
}

/// The fallback accepts the preferred triple without probing only when it
/// is the native host triple.
pub open spec fn spec_fallback_probe_needed(native_host: Seq<char>) -> bool {
    native_host != "x86_64-unknown-linux-gnu"@
}

/// Whether the fallback must probe the toolchain before accepting the
/// preferred triple.
pub fn fallback_probe_needed(native_host: &str) -> (r: bool)
    ensures
        r == spec_fallback_probe_needed(native_host@),
{
    !str_eq(native_host, "x86_64-unknown-linux-gnu")
}

/// What the fallback resolves to: the preferred triple when it is native or
/// its probe succeeded, else the native host triple.
pub open spec fn spec_fallback_targets(native_host: Seq<char>, probe_ok: bool) -> Seq<Seq<char>> {
    if native_host == "x86_64-unknown-linux-gnu"@ || probe_ok {
        seq!["x86_64-unknown-linux-gnu"@]
    } else {
        seq![native_host]
    }
}

/// The fallback's decision, given whether the probe of the preferred triple
/// succeeded (pass `true` when no probe was needed).
pub fn fallback_targets(native_host: &str, probe_ok: bool) -> (r: Vec<String>)
    ensures
        r.deep_view() == spec_fallback_targets(native_host@, probe_ok),
{
    let mut v: Vec<String> = Vec::new();
    proof {
        assert(v.deep_view() =~= Seq::<Seq<char>>::empty());
    }
    if !fallback_probe_needed(native_host) || probe_ok {
        push_lit(&mut v, "x86_64-unknown-linux-gnu");
        proof {
            assert(v.deep_view() =~= seq!["x86_64-unknown-linux-gnu"@]);
        }
    } else {
        push_lit(&mut v, native_host);
        proof {
            assert(v.deep_view() =~= seq![native_host@]);
        }
    }
    v
}

/// The resolved targets that are not the native host triple, in order,
/// scanning from position `i`: each of them gets a pre-flight probe.
pub open spec fn spec_probe_targets_from(
    targets: Seq<Seq<char>>,
    native_host: Seq<char>,
    i: int,
) -> Seq<Seq<char>>
    decreases targets.len() - i,
{
    if !(0 <= i < targets.len()) {
        Seq::empty()
    } else if targets[i] == native_host {
        spec_probe_targets_from(targets, native_host, i + 1)
    } else {
        seq![targets[i]] + spec_probe_targets_from(targets, native_host, i + 1)
    }
}

/// The resolved targets that need a pre-flight probe: those that are not
/// the native host triple, in resolution order.
pub open spec fn spec_probe_targets(targets: Seq<Seq<char>>, native_host: Seq<char>) -> Seq<
    Seq<char>,
> {
    spec_probe_targets_from(targets, native_host, 0)
}

/// Selects the resolved targets that must be probed before the final
/// invocation is committed to.
pub fn probe_targets(targets: &Vec<String>, native_host: &str) -> (r: Vec<String>)
    ensures
        r.deep_view() == spec_probe_targets(targets.deep_view(), native_host@),
{
    let ghost all = targets.deep_view();
    let mut out: Vec<String> = Vec::new();
    let mut i: usize = 0;
    proof {
        assert(out.deep_view() + spec_probe_targets_from(all, native_host@, 0)
            =~= spec_probe_targets_from(all, native_host@, 0));
    }
    while i < targets.len()
        invariant
            all == targets.deep_view(),
            all.len() == targets.len(),
            i <= targets.len(),
            spec_probe_targets_from(all, native_host@, 0) == out.deep_view()
                + spec_probe_targets_from(all, native_host@, i as int),
        decreases targets.len() - i,
    {
        if !str_eq(targets[i].as_str(), native_host) {
            let ghost pre = out.deep_view();
            push_lit(&mut out, targets[i].as_str());
            proof {
                assert(pre + (seq![all[i as int]] + spec_probe_targets_from(
                    all,
                    native_host@,
                    i + 1,
                )) =~= out.deep_view() + spec_probe_targets_from(all, native_host@, i + 1));
            }
        }
        i = i + 1;
    }
    out
}

/// Arguments of one throwaway probe invocation of the compiler: compile
/// from standard input for `target`, expanding only, output discarded.
pub open spec fn spec_probe_args(target: Seq<char>) -> Seq<Seq<char>> {
    seq!["-"@, "--target"@, target, "-Zunpretty=expanded"@]
}

/// Builds the argument list of a probe invocation for one target.
pub fn probe_command_args(target: &str) -> (r: Vec<String>)
    ensures
        r.deep_view() == spec_probe_args(target@),
{
    let mut v: Vec<String> = Vec::new();
    proof {
        assert(v.deep_view() =~= Seq::<Seq<char>>::empty());
    }
    push_lit(&mut v, "-");
    push_lit(&mut v, "--target");
    push_lit(&mut v, target);
    push_lit(&mut v, "-Zunpretty=expanded");
    proof {
        assert(v.deep_view() =~= spec_probe_args(target@));
    }
    v
}

/// The program a probe invokes.
pub fn probe_program() -> (r: String)
    ensures
        r@ == "rustc"@,
{
    "rustc".to_owned()
}

/// The single directive a probe feeds the compiler before closing its
/// input: it disables the standard library, so the probe needs no more than
/// the target's core component.
pub fn probe_stdin_directive() -> (r: String)
    ensures
        r@ == "#![no_std]\n"@,
{
    "#![no_std]\n".to_owned()
}

/// The payload of the first line of `out` that carries the host-triple
/// prefix, scanning from line `i`; a trailing carriage return is dropped.
pub open spec fn spec_host_from_lines(lines: Seq<Seq<char>>, i: int) -> Option<Seq<char>>
    decreases lines.len() - i,
{
    if !(0 <= i < lines.len()) {
        None
    } else if spec_starts_with(lines[i], "host: "@) {
        let rest = lines[i].skip("host: "@.len() as int);
        if rest.len() > 0 && rest.last() == '\r' {
            Some(rest.drop_last())
        } else {
            Some(rest)
        }
    } else {
        spec_host_from_lines(lines, i + 1)
    }
}

/// The native host triple that a toolchain's version report names, if any.
pub open spec fn spec_host_triple(out: Seq<char>) -> Option<Seq<char>> {
    spec_host_from_lines(spec_split_char(out, '\n'), 0)
}

/// Extracts the native host triple from the toolchain's verbose version
/// output: the rest of the first line that begins `host: `.
pub fn host_triple(out: &str) -> (r: Option<String>)
    ensures
        match r {
            Some(t) => spec_host_triple(out@) == Some(t@),
            None => spec_host_triple(out@) is None,
        },
{
    let lines = split_char(out, '\n');
    let ghost lv = lines.deep_view();
    let mut i: usize = 0;
    while i < lines.len()
        invariant
            lv == lines.deep_view(),
            lv == spec_split_char(out@, '\n'),
            lv.len() == lines.len(),
            i <= lines.len(),
            spec_host_from_lines(lv, 0) == spec_host_from_lines(lv, i as int),
        decreases lines.len() - i,
    {
        let line = &lines[i];
        if starts_with(line.as_str(), "host: ") {
            let n = line.as_str().unicode_len();
            proof {
                assert(lv[i as int] == line@);
                assert(spec_starts_with(lv[i as int], "host: "@));
                assert(spec_host_from_lines(lv, i as int) is Some);
                reveal_strlit("host: ");
                assert("host: "@.len() == 6);
                assert(n >= 6);
            }
            let end = if n > 6 && line.as_str().get_char(n - 1) == '\r' {
                n - 1
            } else {
                n
            };
            let t = line.as_str().substring_char(6, end).to_owned();
            proof {
                let rest = lv[i as int].skip(6);
                if n > 6 && lv[i as int][n - 1] == '\r' {
                    assert(rest.len() > 0 && rest.last() == '\r');
                    assert(t@ =~= rest.drop_last());
                } else {
                    assert(!(rest.len() > 0 && rest.last() == '\r'));
                    assert(t@ =~= rest);
                }
            }
            return Some(t);
        }
        i = i + 1;
    }
    None
}

} // verus!
