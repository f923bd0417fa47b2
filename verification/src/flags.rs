//! Flag composition: the compiler-flag and documentation-generator-flag
//! lists are merged from the package's configuration and the process
//! environment at fixed splice positions, with fixed tokens always
//! surrounding the documentation flags.

use vstd::prelude::*;
use crate::strutil::{spec_split_char, spec_split_ws, split_char, split_ws, push_all, push_lit};

verus! {

/// Tokens the environment contributes. The encoded variable, when set, is
/// split at every ASCII unit separator and always wins; otherwise the plain
/// variable, when set, is split on runs of white space; otherwise nothing.
pub open spec fn spec_env_tokens(encoded: Option<Seq<char>>, plain: Option<Seq<char>>) -> Seq<
    Seq<char>,
> {
    match encoded {
        Some(e) => spec_split_char(e, '\x1f'),
        None => match plain {
            Some(p) => spec_split_ws(p),
            None => Seq::empty(),
        },
    }
}

/// Splits the environment's flag variables into tokens.
pub fn env_tokens(encoded: &Option<String>, plain: &Option<String>) -> (r: Vec<String>)
    ensures
        r.deep_view() == spec_env_tokens(encoded.deep_view(), plain.deep_view()),
{
    match encoded {
        Some(e) => split_char(e.as_str(), '\x1f'),
        None => match plain {
            Some(p) => split_ws(p.as_str()),
            None => {
                let r: Vec<String> = Vec::new();
                proof {
                    assert(r.deep_view() =~= Seq::<Seq<char>>::empty());
                }
                r
            },
        },
    }
}

/// The final compiler-flag list: the environment's tokens spliced at the
/// front of the author's flags, in order.
pub open spec fn spec_rustc_flags(
    author: Seq<Seq<char>>,
    encoded: Option<Seq<char>>,
    plain: Option<Seq<char>>,
) -> Seq<Seq<char>> {
    spec_env_tokens(encoded, plain) + author
}

/// Composes the compiler flags from the package's `rustc-args` and the two
/// environment forms.
pub fn compose_rustc_flags(
    author: &Vec<String>,
    encoded: &Option<String>,
    plain: &Option<String>,
) -> (r: Vec<String>)
    ensures
        r.deep_view() == spec_rustc_flags(
            author.deep_view(),
            encoded.deep_view(),
            plain.deep_view(),
        ),
{
    let mut r = env_tokens(encoded, plain);
    push_all(&mut r, author);
    r
}

/// The final documentation-generator-flag list: a fixed prefix of the
/// unstable-features opt-in token and the documentation-cfg token, then the
/// environment's tokens, then the author's flags, then the fixed token that
/// lets externally hosted documentation links take precedence.
pub open spec fn spec_rustdoc_flags(
    author: Seq<Seq<char>>,
    encoded: Option<Seq<char>>,
    plain: Option<Seq<char>>,
) -> Seq<Seq<char>> {
    seq!["-Zunstable-options"@, "--cfg=docsrs"@] + spec_env_tokens(encoded, plain) + author
        + seq!["--extern-html-root-takes-precedence"@]
}

/// Composes the documentation-generator flags from the package's
/// `rustdoc-args` and the two environment forms.
pub fn compose_rustdoc_flags(
    author: &Vec<String>,
    encoded: &Option<String>,
    plain: &Option<String>,
) -> (r: Vec<String>)
    ensures
        r.deep_view() == spec_rustdoc_flags(
            author.deep_view(),
            encoded.deep_view(),
            plain.deep_view(),
        ),
{
    let mut r: Vec<String> = Vec::new();
    proof {
        assert(r.deep_view() =~= Seq::<Seq<char>>::empty());
    }
    push_lit(&mut r, "-Zunstable-options");
    push_lit(&mut r, "--cfg=docsrs");
    let env = env_tokens(encoded, plain);
    push_all(&mut r, &env);
    push_all(&mut r, author);
    push_lit(&mut r, "--extern-html-root-takes-precedence");
    proof {
        assert(r.deep_view() =~= spec_rustdoc_flags(
            author.deep_view(),
            encoded.deep_view(),
            plain.deep_view(),
        ));
    }
    r
}

/// When both environment forms are set, only the encoded one is consulted:
/// the composed lists are those composed as if the plain form were unset.
pub proof fn lemma_encoded_env_wins(
    author_rustc: Seq<Seq<char>>,
    author_rustdoc: Seq<Seq<char>>,
    encoded: Seq<char>,
    plain: Seq<char>,
)
    ensures
        spec_rustc_flags(author_rustc, Some(encoded), Some(plain)) == spec_rustc_flags(
            author_rustc,
            Some(encoded),
            None,
        ),
        spec_rustdoc_flags(author_rustdoc, Some(encoded), Some(plain)) == spec_rustdoc_flags(
            author_rustdoc,
            Some(encoded),
            None,
        ),
{
}

/// Flag composition is a pure function of configuration and environment:
/// composing twice from the same inputs yields identical lists.
pub proof fn lemma_composition_deterministic(
    author: Seq<Seq<char>>,
    encoded: Option<Seq<char>>,
    plain: Option<Seq<char>>,
    first_rustc: Seq<Seq<char>>,
    second_rustc: Seq<Seq<char>>,
    first_rustdoc: Seq<Seq<char>>,
    second_rustdoc: Seq<Seq<char>>,
)
    requires
        first_rustc == spec_rustc_flags(author, encoded, plain),
        second_rustc == spec_rustc_flags(author, encoded, plain),
        first_rustdoc == spec_rustdoc_flags(author, encoded, plain),
        second_rustdoc == spec_rustdoc_flags(author, encoded, plain),
    ensures
        first_rustc == second_rustc,
        first_rustdoc == second_rustdoc,
{
}

/// The documentation-flag ordering law: for a non-empty author list the
/// composed list is exactly the fixed two-token prefix, then the
/// environment's tokens, then the author's flags, then the fixed suffix.
pub proof fn lemma_rustdoc_flag_order(
    author: Seq<Seq<char>>,
    encoded: Option<Seq<char>>,
    plain: Option<Seq<char>>,
)
    requires
        author.len() != 0,
    ensures
        spec_rustdoc_flags(author, encoded, plain) == seq!["-Zunstable-options"@, "--cfg=docsrs"@]
            + spec_env_tokens(encoded, plain) + author + seq![
            "--extern-html-root-takes-precedence"@,
        ],
{
}

} // verus!
