//! The metadata loader: turns a dependency-graph snapshot, parsed into a
//! plain JSON tree, into the typed model. Each package's embedded
//! documentation block is parsed independently and a malformed one is
//! stored as the error it produced; every error carries the path of the
//! first offending field. The text-to-tree step is an outside parser's
//! work, named so that the loader's result is pinned to the input text.

use vstd::prelude::*;
use crate::json::{
    JsonEntry, JsonValue, JsonView, json_parse_of, lemma_jview_shape, obj_get, parse_json_tree,
    spec_obj_get, views_of_entries, views_of_list,
};
use crate::metadata::{
    DocumentationOptions, DocumentationOptionsView, Metadata, MetadataParseError,
    MetadataParseErrorView, MetadataView, Package, PackageId, PackageView, Resolve, Target,
    lemma_find_idx_from_first, spec_default_options, spec_find_idx,
};
use crate::strutil::{spec_u64_string, u64_to_string};

verus! {

/// `base[i]`: the path of one element of a list field.
pub open spec fn spec_index_path(base: Seq<char>, i: int) -> Seq<char> {
    base + "["@ + spec_u64_string(i) + "]"@
}

/// Renders the path of one element of a list field.
pub fn index_path(base: &str, i: usize) -> (r: String)
    ensures
        r@ == spec_index_path(base@, i as int),
{
    let mut s = base.to_owned();
    s.append("[");
    let digits = u64_to_string(i as u64);
    s.append(digits.as_str());
    s.append("]");
    s
}

/// `base.field`: the path of one field of an object.
pub open spec fn spec_field_path(base: Seq<char>, field: Seq<char>) -> Seq<char> {
    base + "."@ + field
}

/// Renders the path of one field of an object.
pub fn field_path(base: &str, field: &str) -> (r: String)
    ensures
        r@ == spec_field_path(base@, field@),
{
    let mut s = base.to_owned();
    s.append(".");
    s.append(field);
    s
}

/// Prefixes the pieces of a successful parse, passing an error through.
pub open spec fn spec_prepend<A>(pre: Seq<A>, r: Result<Seq<A>, MetadataParseErrorView>) -> Result<
    Seq<A>,
    MetadataParseErrorView,
> {
    match r {
        Ok(v) => Ok(pre + v),
        Err(e) => Err(e),
    }
}

/// The strings of a list whose elements must all be strings, or the first
/// offending element, scanning from `i`; `path` is the list's own path.
pub open spec fn spec_strings_of(items: Seq<JsonView>, path: Seq<char>, i: int) -> Result<
    Seq<Seq<char>>,
    MetadataParseErrorView,
>
    decreases items.len() - i,
{
    if !(0 <= i < items.len()) {
        Ok(Seq::empty())
    } else {
        match items[i] {
            JsonView::Str(s) => spec_prepend(seq![s], spec_strings_of(items, path, i + 1)),
            _ => Err(
                MetadataParseErrorView {
                    path: spec_index_path(path, i),
                    message: "expected a string"@,
                },
            ),
        }
    }
}

/// Collects a list of strings, failing at the first element that is not
/// one.
pub fn strings_of(items: &Vec<JsonValue>, path: &str) -> (r: Result<Vec<String>, MetadataParseError>)
    ensures
        match r {
            Ok(v) => spec_strings_of(views_of_list(*items), path@, 0) == Ok::<
                _,
                MetadataParseErrorView,
            >(v.deep_view()),
            Err(e) => spec_strings_of(views_of_list(*items), path@, 0) == Err::<Seq<Seq<char>>, _>(
                e@,
            ),
        },
{
    let ghost views = views_of_list(*items);
    let mut out: Vec<String> = Vec::new();
    let mut i: usize = 0;
    proof {
        assert(out.deep_view() =~= Seq::<Seq<char>>::empty());
        let whole = spec_strings_of(views, path@, 0);
        if whole is Ok {
            assert(Seq::<Seq<char>>::empty() + whole->Ok_0 =~= whole->Ok_0);
        }
    }
    while i < items.len()
        invariant
            views == views_of_list(*items),
            views.len() == items.len(),
            i <= items.len(),
            spec_strings_of(views, path@, 0) == spec_prepend(
                out.deep_view(),
                spec_strings_of(views, path@, i as int),
            ),
        decreases items.len() - i,
    {
        let ghost pre = out.deep_view();
        match &items[i] {
            JsonValue::Str(s) => {
                proof {
                    assert(views[i as int] == JsonView::Str(s@));
                }
                out.push(s.clone());
                proof {
                    let rest = spec_strings_of(views, path@, i + 1);
                    assert(out.deep_view() =~= pre + seq![s@]);
                    if rest is Ok {
                        assert(pre + (seq![s@] + rest->Ok_0) =~= (pre + seq![s@]) + rest->Ok_0);
                    }
                }
            },
            other => {
                proof {
                    lemma_jview_shape(items@[i as int]);
                    assert(views[i as int] == items@[i as int].jview());
                    assert(!(views[i as int] is Str));
                }
                let e = MetadataParseError {
                    path: index_path(path, i),
                    message: "expected a string".to_owned(),
                };
                return Err(e);
            },
        }
        i = i + 1;
    }
    proof {
        assert(out.deep_view() + Seq::<Seq<char>>::empty() =~= out.deep_view());
    }
    Ok(out)
}

/// A boolean field: absent means false, anything but a boolean is refused.
pub open spec fn spec_bool_field(pairs: Seq<(Seq<char>, JsonView)>, key: Seq<char>) -> Result<
    bool,
    MetadataParseErrorView,
> {
    match spec_obj_get(pairs, key) {
        None => Ok(false),
        Some(JsonView::Bool(b)) => Ok(b),
        Some(_) => Err(MetadataParseErrorView { path: key, message: "expected a boolean"@ }),
    }
}

/// Reads a boolean field of the options block.
pub fn bool_field(entries: &Vec<JsonEntry>, key: &str) -> (r: Result<bool, MetadataParseError>)
    ensures
        match r {
            Ok(b) => spec_bool_field(views_of_entries(*entries), key@) == Ok::<
                _,
                MetadataParseErrorView,
            >(b),
            Err(e) => spec_bool_field(views_of_entries(*entries), key@) == Err::<bool, _>(e@),
        },
{
    match obj_get(entries, key) {
        None => Ok(false),
        Some(v) => match v {
            JsonValue::Bool(b) => Ok(*b),
            other => {
                proof {
                    lemma_jview_shape(*other);
                }
                Err(
                    MetadataParseError {
                        path: key.to_owned(),
                        message: "expected a boolean".to_owned(),
                    },
                )
            },
        },
    }
}

/// An optional string field: absent or null means none.
pub open spec fn spec_opt_string_field(pairs: Seq<(Seq<char>, JsonView)>, key: Seq<char>) -> Result<
    Option<Seq<char>>,
    MetadataParseErrorView,
> {
    match spec_obj_get(pairs, key) {
        None => Ok(None),
        Some(JsonView::Null) => Ok(None),
        Some(JsonView::Str(s)) => Ok(Some(s)),
        Some(_) => Err(MetadataParseErrorView { path: key, message: "expected a string"@ }),
    }
}

/// Reads an optional string field of the options block.
pub fn opt_string_field(entries: &Vec<JsonEntry>, key: &str) -> (r: Result<
    Option<String>,
    MetadataParseError,
>)
    ensures
        match r {
            Ok(v) => spec_opt_string_field(views_of_entries(*entries), key@) == Ok::<
                _,
                MetadataParseErrorView,
            >(v.deep_view()),
            Err(e) => spec_opt_string_field(views_of_entries(*entries), key@) == Err::<
                Option<Seq<char>>,
                _,
            >(e@),
        },
{
    match obj_get(entries, key) {
        None => Ok(None),
        Some(v) => match v {
            JsonValue::Null => Ok(None),
            JsonValue::Str(s) => Ok(Some(s.clone())),
            other => {
                proof {
                    lemma_jview_shape(*other);
                }
                Err(
                    MetadataParseError {
                        path: key.to_owned(),
                        message: "expected a string".to_owned(),
                    },
                )
            },
        },
    }
}

/// A string-list field: absent means empty, anything but a list of
/// strings is refused.
pub open spec fn spec_string_list_field(pairs: Seq<(Seq<char>, JsonView)>, key: Seq<char>) -> Result<
    Seq<Seq<char>>,
    MetadataParseErrorView,
> {
    match spec_obj_get(pairs, key) {
        None => Ok(Seq::empty()),
        Some(JsonView::List(items)) => spec_strings_of(items, key, 0),
        Some(_) => Err(MetadataParseErrorView { path: key, message: "expected an array"@ }),
    }
}

/// Reads a string-list field of the options block.
pub fn string_list_field(entries: &Vec<JsonEntry>, key: &str) -> (r: Result<
    Vec<String>,
    MetadataParseError,
>)
    ensures
        match r {
            Ok(v) => spec_string_list_field(views_of_entries(*entries), key@) == Ok::<
                _,
                MetadataParseErrorView,
            >(v.deep_view()),
            Err(e) => spec_string_list_field(views_of_entries(*entries), key@) == Err::<
                Seq<Seq<char>>,
                _,
            >(e@),
        },
{
    match obj_get(entries, key) {
        None => {
            let v: Vec<String> = Vec::new();
            proof {
                assert(v.deep_view() =~= Seq::<Seq<char>>::empty());
            }
            Ok(v)
        },
        Some(v) => match v {
            JsonValue::List(items) => strings_of(items, key),
            other => {
                proof {
                    lemma_jview_shape(*other);
                }
                Err(
                    MetadataParseError {
                        path: key.to_owned(),
                        message: "expected an array".to_owned(),
                    },
                )
            },
        },
    }
}

/// An optional string-list field: absent or null means none.
pub open spec fn spec_opt_string_list_field(
    pairs: Seq<(Seq<char>, JsonView)>,
    key: Seq<char>,
) -> Result<Option<Seq<Seq<char>>>, MetadataParseErrorView> {
    match spec_obj_get(pairs, key) {
        None => Ok(None),
        Some(JsonView::Null) => Ok(None),
        Some(JsonView::List(items)) => match spec_strings_of(items, key, 0) {
            Ok(v) => Ok(Some(v)),
            Err(e) => Err(e),
        },
        Some(_) => Err(MetadataParseErrorView { path: key, message: "expected an array"@ }),
    }
}

/// Reads an optional string-list field of the options block.
pub fn opt_string_list_field(entries: &Vec<JsonEntry>, key: &str) -> (r: Result<
    Option<Vec<String>>,
    MetadataParseError,
>)
    ensures
        match r {
            Ok(v) => spec_opt_string_list_field(views_of_entries(*entries), key@) == Ok::<
                _,
                MetadataParseErrorView,
            >(v.deep_view()),
            Err(e) => spec_opt_string_list_field(views_of_entries(*entries), key@) == Err::<
                Option<Seq<Seq<char>>>,
                _,
            >(e@),
        },
{
    match obj_get(entries, key) {
        None => Ok(None),
        Some(v) => match v {
            JsonValue::Null => Ok(None),
            JsonValue::List(items) => match strings_of(items, key) {
                Ok(v) => Ok(Some(v)),
                Err(e) => Err(e),
            },
            other => {
                proof {
                    lemma_jview_shape(*other);
                }
                Err(
                    MetadataParseError {
                        path: key.to_owned(),
                        message: "expected an array".to_owned(),
                    },
                )
            },
        },
    }
}

/// The documentation options an embedded block's object carries, field by
/// field in a fixed order, or the first offending field.
pub open spec fn spec_doc_options_of(pairs: Seq<(Seq<char>, JsonView)>) -> Result<
    DocumentationOptionsView,
    MetadataParseErrorView,
> {
    match spec_string_list_field(pairs, "features"@) {
        Err(e) => Err(e),
        Ok(features) => match spec_bool_field(pairs, "all-features"@) {
            Err(e) => Err(e),
            Ok(all_features) => match spec_bool_field(pairs, "no-default-features"@) {
                Err(e) => Err(e),
                Ok(no_default_features) => match spec_opt_string_field(pairs, "default-target"@) {
                    Err(e) => Err(e),
                    Ok(default_target) => match spec_opt_string_list_field(pairs, "targets"@) {
                        Err(e) => Err(e),
                        Ok(targets) => match spec_string_list_field(pairs, "rustc-args"@) {
                            Err(e) => Err(e),
                            Ok(rustc_args) => match spec_string_list_field(pairs, "rustdoc-args"@) {
                                Err(e) => Err(e),
                                Ok(rustdoc_args) => match spec_string_list_field(
                                    pairs,
                                    "cargo-args"@,
                                ) {
                                    Err(e) => Err(e),
                                    Ok(cargo_args) => Ok(
                                        DocumentationOptionsView {
                                            features,
                                            all_features,
                                            no_default_features,
                                            default_target,
                                            targets,
                                            rustc_args,
                                            rustdoc_args,
                                            cargo_args,
                                        },
                                    ),
                                },
                            },
                        },
                    },
                },
            },
        },
    }
}

/// The documentation options an embedded block carries: the block must be
/// an object, and each recognized field must have its type.
pub open spec fn spec_doc_options(j: JsonView) -> Result<
    DocumentationOptionsView,
    MetadataParseErrorView,
> {
    match j {
        JsonView::Obj(pairs) => spec_doc_options_of(pairs),
        _ => Err(MetadataParseErrorView { path: ""@, message: "expected an object"@ }),
    }
}

/// Parses one package's embedded documentation block. Paths in the error
/// are relative to the block itself.
pub fn parse_doc_options(j: &JsonValue) -> (r: Result<DocumentationOptions, MetadataParseError>)
    ensures
        match r {
            Ok(o) => spec_doc_options(j.jview()) == Ok::<_, MetadataParseErrorView>(o@),
            Err(e) => spec_doc_options(j.jview()) == Err::<DocumentationOptionsView, _>(e@),
        },
{
    match j {
        JsonValue::Obj(entries) => {
            let features = match string_list_field(entries, "features") {
                Ok(v) => v,
                Err(e) => {
                    return Err(e);
                },
            };
            let all_features = match bool_field(entries, "all-features") {
                Ok(v) => v,
                Err(e) => {
                    return Err(e);
                },
            };
            let no_default_features = match bool_field(entries, "no-default-features") {
                Ok(v) => v,
                Err(e) => {
                    return Err(e);
                },
            };
            let default_target = match opt_string_field(entries, "default-target") {
                Ok(v) => v,
                Err(e) => {
                    return Err(e);
                },
            };
            let targets = match opt_string_list_field(entries, "targets") {
                Ok(v) => v,
                Err(e) => {
                    return Err(e);
                },
            };
            let rustc_args = match string_list_field(entries, "rustc-args") {
                Ok(v) => v,
                Err(e) => {
                    return Err(e);
                },
            };
            let rustdoc_args = match string_list_field(entries, "rustdoc-args") {
                Ok(v) => v,
                Err(e) => {
                    return Err(e);
                },
            };
            let cargo_args = match string_list_field(entries, "cargo-args") {
                Ok(v) => v,
                Err(e) => {
                    return Err(e);
                },
            };
            Ok(
                DocumentationOptions {
                    features,
                    all_features,
                    no_default_features,
                    default_target,
                    targets,
                    rustc_args,
                    rustdoc_args,
                    cargo_args,
                },
            )
        },
        other => {
            proof {
                lemma_jview_shape(*other);
            }
            Err(
                MetadataParseError {
                    path: "".to_owned(),
                    message: "expected an object".to_owned(),
                },
            )
        },
    }
}

/// Where a package's embedded documentation block sits: under the `docs`
/// and `rs` keys of the manifest-metadata field. An absent or null level
/// means no block; a level of the wrong type is a fatal snapshot error at
/// `path`, the metadata field's own path.
pub open spec fn spec_docs_block(mf: Option<JsonView>, path: Seq<char>) -> Result<
    Option<JsonView>,
    MetadataParseErrorView,
> {
    match mf {
        None => Ok(None),
        Some(JsonView::Null) => Ok(None),
        Some(JsonView::Obj(pairs)) => match spec_obj_get(pairs, "docs"@) {
            None => Ok(None),
            Some(JsonView::Null) => Ok(None),
            Some(JsonView::Obj(dpairs)) => match spec_obj_get(dpairs, "rs"@) {
                None => Ok(None),
                Some(JsonView::Null) => Ok(None),
                Some(v) => Ok(Some(v)),
            },
            Some(_) => Err(
                MetadataParseErrorView {
                    path: spec_field_path(path, "docs"@),
                    message: "expected an object"@,
                },
            ),
        },
        Some(_) => Err(MetadataParseErrorView { path, message: "expected an object"@ }),
    }
}

/// Finds a package's embedded documentation block, if any.
pub fn docs_block<'a>(mf: Option<&'a JsonValue>, path: &str) -> (r: Result<
    Option<&'a JsonValue>,
    MetadataParseError,
>)
    ensures
        ({
            let s = spec_docs_block(
                match mf {
                    Some(v) => Some(v.jview()),
                    None => None,
                },
                path@,
            );
            match r {
                Ok(Some(v)) => s == Ok::<_, MetadataParseErrorView>(Some(v.jview())),
                Ok(None) => s == Ok::<Option<JsonView>, MetadataParseErrorView>(None),
                Err(e) => s == Err::<Option<JsonView>, _>(e@),
            }
        }),
{
    match mf {
        None => Ok(None),
        Some(m) => match m {
            JsonValue::Null => Ok(None),
            JsonValue::Obj(es) => match obj_get(es, "docs") {
                None => Ok(None),
                Some(d) => match d {
                    JsonValue::Null => Ok(None),
                    JsonValue::Obj(ds) => match obj_get(ds, "rs") {
                        None => Ok(None),
                        Some(v) => match v {
                            JsonValue::Null => Ok(None),
                            _ => Ok(Some(v)),
                        },
                    },
                    other => {
                        proof {
                            lemma_jview_shape(*other);
                        }
                        Err(
                            MetadataParseError {
                                path: field_path(path, "docs"),
                                message: "expected an object".to_owned(),
                            },
                        )
                    },
                },
            },
            other => {
                proof {
                    lemma_jview_shape(*other);
                }
                Err(
                    MetadataParseError {
                        path: path.to_owned(),
                        message: "expected an object".to_owned(),
                    },
                )
            },
        },
    }
}

/// The kind tags of one build target at `path`: an object whose `kind`
/// field is a list of strings.
pub open spec fn spec_target_of(j: JsonView, path: Seq<char>) -> Result<
    Seq<Seq<char>>,
    MetadataParseErrorView,
> {
    match j {
        JsonView::Obj(pairs) => match spec_obj_get(pairs, "kind"@) {
            None => Err(MetadataParseErrorView { path, message: "missing field `kind`"@ }),
            Some(JsonView::List(items)) => spec_strings_of(items, spec_field_path(path, "kind"@), 0),
            Some(_) => Err(
                MetadataParseErrorView {
                    path: spec_field_path(path, "kind"@),
                    message: "expected an array"@,
                },
            ),
        },
        _ => Err(MetadataParseErrorView { path, message: "expected an object"@ }),
    }
}

/// Parses one build target.
pub fn target_of(j: &JsonValue, path: &str) -> (r: Result<Target, MetadataParseError>)
    ensures
        match r {
            Ok(t) => spec_target_of(j.jview(), path@) == Ok::<_, MetadataParseErrorView>(t@),
            Err(e) => spec_target_of(j.jview(), path@) == Err::<Seq<Seq<char>>, _>(e@),
        },
{
    match j {
        JsonValue::Obj(es) => match obj_get(es, "kind") {
            None => Err(
                MetadataParseError {
                    path: path.to_owned(),
                    message: "missing field `kind`".to_owned(),
                },
            ),
            Some(v) => match v {
                JsonValue::List(items) => {
                    let kind_path = field_path(path, "kind");
                    match strings_of(items, kind_path.as_str()) {
                        Ok(kind) => Ok(Target { kind }),
                        Err(e) => Err(e),
                    }
                },
                other => {
                    proof {
                        lemma_jview_shape(*other);
                    }
                    Err(
                        MetadataParseError {
                            path: field_path(path, "kind"),
                            message: "expected an array".to_owned(),
                        },
                    )
                },
            },
        },
        other => {
            proof {
                lemma_jview_shape(*other);
            }
            Err(
                MetadataParseError {
                    path: path.to_owned(),
                    message: "expected an object".to_owned(),
                },
            )
        },
    }
}

/// The kind tags of every build target in the list at `path`, scanning
/// from `i`, or the first offending element.
pub open spec fn spec_targets_of(items: Seq<JsonView>, path: Seq<char>, i: int) -> Result<
    Seq<Seq<Seq<char>>>,
    MetadataParseErrorView,
>
    decreases items.len() - i,
{
    if !(0 <= i < items.len()) {
        Ok(Seq::empty())
    } else {
        match spec_target_of(items[i], spec_index_path(path, i)) {
            Ok(kinds) => spec_prepend(seq![kinds], spec_targets_of(items, path, i + 1)),
            Err(e) => Err(e),
        }
    }
}

/// Parses the build-target list of one package.
pub fn targets_of(items: &Vec<JsonValue>, path: &str) -> (r: Result<Vec<Target>, MetadataParseError>)
    ensures
        match r {
            Ok(v) => spec_targets_of(views_of_list(*items), path@, 0) == Ok::<
                _,
                MetadataParseErrorView,
            >(v.deep_view()),
            Err(e) => spec_targets_of(views_of_list(*items), path@, 0) == Err::<
                Seq<Seq<Seq<char>>>,
                _,
            >(e@),
        },
{
    let ghost views = views_of_list(*items);
    let mut out: Vec<Target> = Vec::new();
    let mut i: usize = 0;
    proof {
        assert(out.deep_view() =~= Seq::<Seq<Seq<char>>>::empty());
        let whole = spec_targets_of(views, path@, 0);
        if whole is Ok {
            assert(Seq::<Seq<Seq<char>>>::empty() + whole->Ok_0 =~= whole->Ok_0);
        }
    }
    while i < items.len()
        invariant
            views == views_of_list(*items),
            views.len() == items.len(),
            i <= items.len(),
            spec_targets_of(views, path@, 0) == spec_prepend(
                out.deep_view(),
                spec_targets_of(views, path@, i as int),
            ),
        decreases items.len() - i,
    {
        let ghost pre = out.deep_view();
        let elem_path = index_path(path, i);
        proof {
            assert(views[i as int] == items@[i as int].jview());
        }
        match target_of(&items[i], elem_path.as_str()) {
            Ok(t) => {
                out.push(t);
                proof {
                    let rest = spec_targets_of(views, path@, i + 1);
                    assert(out.deep_view() =~= pre + seq![spec_target_of(
                        views[i as int],
                        spec_index_path(path@, i as int),
                    )->Ok_0]);
                    if rest is Ok {
                        assert(pre + (seq![spec_target_of(
                            views[i as int],
                            spec_index_path(path@, i as int),
                        )->Ok_0] + rest->Ok_0) =~= (pre + seq![spec_target_of(
                            views[i as int],
                            spec_index_path(path@, i as int),
                        )->Ok_0]) + rest->Ok_0);
                    }
                }
            },
            Err(e) => {
                return Err(e);
            },
        }
        i = i + 1;
    }
    proof {
        assert(out.deep_view() + Seq::<Seq<Seq<char>>>::empty() =~= out.deep_view());
    }
    Ok(out)
}

/// A required string field of the package object at `path`.
pub open spec fn spec_req_string(
    pairs: Seq<(Seq<char>, JsonView)>,
    key: Seq<char>,
    path: Seq<char>,
    missing: Seq<char>,
) -> Result<Seq<char>, MetadataParseErrorView> {
    match spec_obj_get(pairs, key) {
        None => Err(MetadataParseErrorView { path, message: missing }),
        Some(JsonView::Str(s)) => Ok(s),
        Some(_) => Err(
            MetadataParseErrorView {
                path: spec_field_path(path, key),
                message: "expected a string"@,
            },
        ),
    }
}

/// Reads a required string field of a package object.
fn req_string(entries: &Vec<JsonEntry>, key: &str, path: &str, missing: &str) -> (r: Result<
    String,
    MetadataParseError,
>)
    ensures
        match r {
            Ok(s) => spec_req_string(views_of_entries(*entries), key@, path@, missing@) == Ok::<
                _,
                MetadataParseErrorView,
            >(s@),
            Err(e) => spec_req_string(views_of_entries(*entries), key@, path@, missing@) == Err::<
                Seq<char>,
                _,
            >(e@),
        },
{
    match obj_get(entries, key) {
        None => Err(MetadataParseError { path: path.to_owned(), message: missing.to_owned() }),
        Some(v) => match v {
            JsonValue::Str(s) => Ok(s.clone()),
            other => {
                proof {
                    lemma_jview_shape(*other);
                }
                Err(
                    MetadataParseError {
                        path: field_path(path, key),
                        message: "expected a string".to_owned(),
                    },
                )
            },
        },
    }
}

/// One package of the snapshot, at `path`: its name, identifier and build
/// targets are required; a malformed embedded documentation block is kept
/// as the error it produced, not raised.
pub open spec fn spec_package_of(j: JsonView, path: Seq<char>) -> Result<
    PackageView,
    MetadataParseErrorView,
> {
    match j {
        JsonView::Obj(pairs) => match spec_req_string(pairs, "name"@, path, "missing field `name`"@) {
            Err(e) => Err(e),
            Ok(name) => match spec_req_string(pairs, "id"@, path, "missing field `id`"@) {
                Err(e) => Err(e),
                Ok(id) => match spec_obj_get(pairs, "targets"@) {
                    None => Err(
                        MetadataParseErrorView { path, message: "missing field `targets`"@ },
                    ),
                    Some(JsonView::List(items)) => match spec_targets_of(
                        items,
                        spec_field_path(path, "targets"@),
                        0,
                    ) {
                        Err(e) => Err(e),
                        Ok(targets) => match spec_docs_block(
                            spec_obj_get(pairs, "metadata"@),
                            spec_field_path(path, "metadata"@),
                        ) {
                            Err(e) => Err(e),
                            Ok(None) => Ok(
                                PackageView {
                                    name,
                                    id,
                                    targets,
                                    metadata: Ok(spec_default_options()),
                                },
                            ),
                            Ok(Some(block)) => Ok(
                                PackageView { name, id, targets, metadata: spec_doc_options(block) },
                            ),
                        },
                    },
                    Some(_) => Err(
                        MetadataParseErrorView {
                            path: spec_field_path(path, "targets"@),
                            message: "expected an array"@,
                        },
                    ),
                },
            },
        },
        _ => Err(MetadataParseErrorView { path, message: "expected an object"@ }),
    }
}

/// Parses one package of the snapshot.
pub fn package_of(j: &JsonValue, path: &str) -> (r: Result<Package, MetadataParseError>)
    ensures
        match r {
            Ok(p) => spec_package_of(j.jview(), path@) == Ok::<_, MetadataParseErrorView>(p@),
            Err(e) => spec_package_of(j.jview(), path@) == Err::<PackageView, _>(e@),
        },
{
    match j {
        JsonValue::Obj(es) => {
            let name = match req_string(es, "name", path, "missing field `name`") {
                Ok(s) => s,
                Err(e) => {
                    return Err(e);
                },
            };
            let id = match req_string(es, "id", path, "missing field `id`") {
                Ok(s) => PackageId { repr: s },
                Err(e) => {
                    return Err(e);
                },
            };
            let targets = match obj_get(es, "targets") {
                None => {
                    return Err(
                        MetadataParseError {
                            path: path.to_owned(),
                            message: "missing field `targets`".to_owned(),
                        },
                    );
                },
                Some(v) => match v {
                    JsonValue::List(items) => {
                        let tpath = field_path(path, "targets");
                        match targets_of(items, tpath.as_str()) {
                            Ok(ts) => ts,
                            Err(e) => {
                                return Err(e);
                            },
                        }
                    },
                    other => {
                        proof {
                            lemma_jview_shape(*other);
                        }
                        return Err(
                            MetadataParseError {
                                path: field_path(path, "targets"),
                                message: "expected an array".to_owned(),
                            },
                        );
                    },
                },
            };
            let mpath = field_path(path, "metadata");
            let metadata = match docs_block(obj_get(es, "metadata"), mpath.as_str()) {
                Err(e) => {
                    return Err(e);
                },
                Ok(None) => Ok(DocumentationOptions::default()),
                Ok(Some(block)) => parse_doc_options(block),
            };
            Ok(Package { name, id, targets, metadata })
        },
        other => {
            proof {
                lemma_jview_shape(*other);
            }
            Err(
                MetadataParseError {
                    path: path.to_owned(),
                    message: "expected an object".to_owned(),
                },
            )
        },
    }
}

/// Every package of the snapshot's package list, scanning from `i`, or
/// the first offending element.
pub open spec fn spec_packages_of(items: Seq<JsonView>, i: int) -> Result<
    Seq<PackageView>,
    MetadataParseErrorView,
>
    decreases items.len() - i,
{
    if !(0 <= i < items.len()) {
        Ok(Seq::empty())
    } else {
        match spec_package_of(items[i], spec_index_path("packages"@, i)) {
            Ok(p) => spec_prepend(seq![p], spec_packages_of(items, i + 1)),
            Err(e) => Err(e),
        }
    }
}

/// Parses the snapshot's package list.
pub fn packages_of(items: &Vec<JsonValue>) -> (r: Result<Vec<Package>, MetadataParseError>)
    ensures
        match r {
            Ok(v) => spec_packages_of(views_of_list(*items), 0) == Ok::<
                _,
                MetadataParseErrorView,
            >(v.deep_view()),
            Err(e) => spec_packages_of(views_of_list(*items), 0) == Err::<Seq<PackageView>, _>(e@),
        },
{
    let ghost views = views_of_list(*items);
    let mut out: Vec<Package> = Vec::new();
    let mut i: usize = 0;
    proof {
        assert(out.deep_view() =~= Seq::<PackageView>::empty());
        let whole = spec_packages_of(views, 0);
        if whole is Ok {
            assert(Seq::<PackageView>::empty() + whole->Ok_0 =~= whole->Ok_0);
        }
    }
    while i < items.len()
        invariant
            views == views_of_list(*items),
            views.len() == items.len(),
            i <= items.len(),
            spec_packages_of(views, 0) == spec_prepend(
                out.deep_view(),
                spec_packages_of(views, i as int),
            ),
        decreases items.len() - i,
    {
        let ghost pre = out.deep_view();
        let elem_path = index_path("packages", i);
        proof {
            assert(views[i as int] == items@[i as int].jview());
        }
        match package_of(&items[i], elem_path.as_str()) {
            Ok(p) => {
                out.push(p);
                proof {
                    let rest = spec_packages_of(views, i + 1);
                    assert(out.deep_view() =~= pre + seq![spec_package_of(
                        views[i as int],
                        spec_index_path("packages"@, i as int),
                    )->Ok_0]);
                    if rest is Ok {
                        assert(pre + (seq![spec_package_of(
                            views[i as int],
                            spec_index_path("packages"@, i as int),
                        )->Ok_0] + rest->Ok_0) =~= (pre + seq![spec_package_of(
                            views[i as int],
                            spec_index_path("packages"@, i as int),
                        )->Ok_0]) + rest->Ok_0);
                    }
                }
            },
            Err(e) => {
                return Err(e);
            },
        }
        i = i + 1;
    }
    proof {
        assert(out.deep_view() + Seq::<PackageView>::empty() =~= out.deep_view());
    }
    Ok(out)
}

/// The workspace member identifiers, scanning from `i`: each element must
/// be a string.
pub open spec fn spec_members_of(items: Seq<JsonView>, i: int) -> Result<
    Seq<Seq<char>>,
    MetadataParseErrorView,
>
    decreases items.len() - i,
{
    if !(0 <= i < items.len()) {
        Ok(Seq::empty())
    } else {
        match items[i] {
            JsonView::Str(s) => spec_prepend(seq![s], spec_members_of(items, i + 1)),
            _ => Err(
                MetadataParseErrorView {
                    path: spec_index_path("workspace_members"@, i),
                    message: "expected a string"@,
                },
            ),
        }
    }
}

/// Parses the workspace member list.
pub fn members_of(items: &Vec<JsonValue>) -> (r: Result<Vec<PackageId>, MetadataParseError>)
    ensures
        match r {
            Ok(v) => spec_members_of(views_of_list(*items), 0) == Ok::<
                _,
                MetadataParseErrorView,
            >(v.deep_view()),
            Err(e) => spec_members_of(views_of_list(*items), 0) == Err::<Seq<Seq<char>>, _>(e@),
        },
{
    let ghost views = views_of_list(*items);
    let mut out: Vec<PackageId> = Vec::new();
    let mut i: usize = 0;
    proof {
        assert(out.deep_view() =~= Seq::<Seq<char>>::empty());
        let whole = spec_members_of(views, 0);
        if whole is Ok {
            assert(Seq::<Seq<char>>::empty() + whole->Ok_0 =~= whole->Ok_0);
        }
    }
    while i < items.len()
        invariant
            views == views_of_list(*items),
            views.len() == items.len(),
            i <= items.len(),
            spec_members_of(views, 0) == spec_prepend(
                out.deep_view(),
                spec_members_of(views, i as int),
            ),
        decreases items.len() - i,
    {
        let ghost pre = out.deep_view();
        match &items[i] {
            JsonValue::Str(s) => {
                proof {
                    assert(views[i as int] == JsonView::Str(s@));
                }
                out.push(PackageId { repr: s.clone() });
                proof {
                    let rest = spec_members_of(views, i + 1);
                    assert(out.deep_view() =~= pre + seq![s@]);
                    if rest is Ok {
                        assert(pre + (seq![s@] + rest->Ok_0) =~= (pre + seq![s@]) + rest->Ok_0);
                    }
                }
            },
            other => {
                proof {
                    lemma_jview_shape(items@[i as int]);
                    assert(views[i as int] == items@[i as int].jview());
                }
                return Err(
                    MetadataParseError {
                        path: index_path("workspace_members", i),
                        message: "expected a string".to_owned(),
                    },
                );
            },
        }
        i = i + 1;
    }
    proof {
        assert(out.deep_view() + Seq::<Seq<char>>::empty() =~= out.deep_view());
    }
    Ok(out)
}

/// The resolved root: the `resolve` section must be an object; its `root`
/// is an identifier, or null or absent for none.
pub open spec fn spec_resolve_of(j: JsonView) -> Result<Option<Seq<char>>, MetadataParseErrorView> {
    match j {
        JsonView::Obj(pairs) => match spec_obj_get(pairs, "root"@) {
            None => Ok(None),
            Some(JsonView::Null) => Ok(None),
            Some(JsonView::Str(s)) => Ok(Some(s)),
            Some(_) => Err(
                MetadataParseErrorView { path: "resolve.root"@, message: "expected a string"@ },
            ),
        },
        _ => Err(MetadataParseErrorView { path: "resolve"@, message: "expected an object"@ }),
    }
}

/// Parses the resolved-dependency section.
pub fn resolve_of(j: &JsonValue) -> (r: Result<Resolve, MetadataParseError>)
    ensures
        match r {
            Ok(v) => spec_resolve_of(j.jview()) == Ok::<_, MetadataParseErrorView>(v@),
            Err(e) => spec_resolve_of(j.jview()) == Err::<Option<Seq<char>>, _>(e@),
        },
{
    match j {
        JsonValue::Obj(es) => match obj_get(es, "root") {
            None => Ok(Resolve { root: None }),
            Some(v) => match v {
                JsonValue::Null => Ok(Resolve { root: None }),
                JsonValue::Str(s) => Ok(Resolve { root: Some(PackageId { repr: s.clone() }) }),
                other => {
                    proof {
                        lemma_jview_shape(*other);
                    }
                    Err(
                        MetadataParseError {
                            path: "resolve.root".to_owned(),
                            message: "expected a string".to_owned(),
                        },
                    )
                },
            },
        },
        other => {
            proof {
                lemma_jview_shape(*other);
            }
            Err(
                MetadataParseError {
                    path: "resolve".to_owned(),
                    message: "expected an object".to_owned(),
                },
            )
        },
    }
}

/// The whole snapshot: its package list, workspace members and resolved
/// root, each required and each of its type.
pub open spec fn spec_snapshot_of(j: JsonView) -> Result<MetadataView, MetadataParseErrorView> {
    match j {
        JsonView::Obj(pairs) => match spec_obj_get(pairs, "packages"@) {
            None => Err(MetadataParseErrorView { path: ""@, message: "missing field `packages`"@ }),
            Some(JsonView::List(pitems)) => match spec_packages_of(pitems, 0) {
                Err(e) => Err(e),
                Ok(packages) => match spec_obj_get(pairs, "workspace_members"@) {
                    None => Err(
                        MetadataParseErrorView {
                            path: ""@,
                            message: "missing field `workspace_members`"@,
                        },
                    ),
                    Some(JsonView::List(mitems)) => match spec_members_of(mitems, 0) {
                        Err(e) => Err(e),
                        Ok(workspace_members) => match spec_obj_get(pairs, "resolve"@) {
                            None => Err(
                                MetadataParseErrorView {
                                    path: ""@,
                                    message: "missing field `resolve`"@,
                                },
                            ),
                            Some(rv) => match spec_resolve_of(rv) {
                                Err(e) => Err(e),
                                Ok(root) => Ok(MetadataView { packages, workspace_members, root }),
                            },
                        },
                    },
                    Some(_) => Err(
                        MetadataParseErrorView {
                            path: "workspace_members"@,
                            message: "expected an array"@,
                        },
                    ),
                },
            },
            Some(_) => Err(
                MetadataParseErrorView { path: "packages"@, message: "expected an array"@ },
            ),
        },
        _ => Err(MetadataParseErrorView { path: ""@, message: "expected an object"@ }),
    }
}

/// Parses the snapshot's structure, without the graph consistency check.
pub fn snapshot_of(j: &JsonValue) -> (r: Result<Metadata, MetadataParseError>)
    ensures
        match r {
            Ok(m) => spec_snapshot_of(j.jview()) == Ok::<_, MetadataParseErrorView>(m@),
            Err(e) => spec_snapshot_of(j.jview()) == Err::<MetadataView, _>(e@),
        },
{
    match j {
        JsonValue::Obj(es) => {
            let packages = match obj_get(es, "packages") {
                None => {
                    return Err(
                        MetadataParseError {
                            path: "".to_owned(),
                            message: "missing field `packages`".to_owned(),
                        },
                    );
                },
                Some(v) => match v {
                    JsonValue::List(pitems) => match packages_of(pitems) {
                        Ok(ps) => ps,
                        Err(e) => {
                            return Err(e);
                        },
                    },
                    other => {
                        proof {
                            lemma_jview_shape(*other);
                        }
                        return Err(
                            MetadataParseError {
                                path: "packages".to_owned(),
                                message: "expected an array".to_owned(),
                            },
                        );
                    },
                },
            };
            let workspace_members = match obj_get(es, "workspace_members") {
                None => {
                    return Err(
                        MetadataParseError {
                            path: "".to_owned(),
                            message: "missing field `workspace_members`".to_owned(),
                        },
                    );
                },
                Some(v) => match v {
                    JsonValue::List(mitems) => match members_of(mitems) {
                        Ok(ms) => ms,
                        Err(e) => {
                            return Err(e);
                        },
                    },
                    other => {
                        proof {
                            lemma_jview_shape(*other);
                        }
                        return Err(
                            MetadataParseError {
                                path: "workspace_members".to_owned(),
                                message: "expected an array".to_owned(),
                            },
                        );
                    },
                },
            };
            let resolve = match obj_get(es, "resolve") {
                None => {
                    return Err(
                        MetadataParseError {
                            path: "".to_owned(),
                            message: "missing field `resolve`".to_owned(),
                        },
                    );
                },
                Some(rv) => match resolve_of(rv) {
                    Ok(v) => v,
                    Err(e) => {
                        return Err(e);
                    },
                },
            };
            Ok(Metadata { packages, workspace_members, resolve })
        },
        other => {
            proof {
                lemma_jview_shape(*other);
            }
            Err(
                MetadataParseError {
                    path: "".to_owned(),
                    message: "expected an object".to_owned(),
                },
            )
        },
    }
}

/// Position, scanning from `j`, of the first package whose identifier
/// already names an earlier package.
pub open spec fn spec_dup_package(m: MetadataView, j: int) -> Option<int>
    decreases m.packages.len() - j,
{
    if !(0 <= j < m.packages.len()) {
        None
    } else if spec_find_idx(m.packages, m.packages[j].id) != Some(j) {
        Some(j)
    } else {
        spec_dup_package(m, j + 1)
    }
}

/// Position, scanning from `i`, of the first workspace member that names
/// no package of the snapshot.
pub open spec fn spec_missing_member(m: MetadataView, i: int) -> Option<int>
    decreases m.workspace_members.len() - i,
{
    if !(0 <= i < m.workspace_members.len()) {
        None
    } else if spec_find_idx(m.packages, m.workspace_members[i]) is None {
        Some(i)
    } else {
        spec_missing_member(m, i + 1)
    }
}

/// What the graph consistency check finds: the first duplicated package
/// identifier, else the first workspace member that names no package,
/// else a resolved root that names none, else nothing wrong.
pub open spec fn spec_graph_check(m: MetadataView) -> Result<(), MetadataParseErrorView> {
    match spec_dup_package(m, 0) {
        Some(k) => Err(
            MetadataParseErrorView {
                path: spec_index_path("packages"@, k),
                message: "duplicate package id"@,
            },
        ),
        None => match spec_missing_member(m, 0) {
            Some(k) => Err(
                MetadataParseErrorView {
                    path: spec_index_path("workspace_members"@, k),
                    message: "unknown package id"@,
                },
            ),
            None => match m.root {
                Some(rt) => if spec_find_idx(m.packages, rt) is Some {
                    Ok(())
                } else {
                    Err(
                        MetadataParseErrorView {
                            path: "resolve.root"@,
                            message: "unknown package id"@,
                        },
                    )
                },
                None => Ok(()),
            },
        },
    }
}

/// Passing the duplicate scan from `j` on means every later package's
/// identifier first occurs at its own position.
proof fn lemma_no_dup_package(m: MetadataView, j: int)
    requires
        0 <= j,
        spec_dup_package(m, j) is None,
    ensures
        forall|b: int|
            j <= b < m.packages.len() ==> spec_find_idx(
                m.packages,
                (#[trigger] m.packages[b]).id,
            ) == Some(b),
    decreases m.packages.len() - j,
{
    if 0 <= j < m.packages.len() {
        lemma_no_dup_package(m, j + 1);
    }
}

proof fn lemma_dup_package_in_range(m: MetadataView, j: int)
    requires
        spec_dup_package(m, j) is Some,
    ensures
        ({
            let k = spec_dup_package(m, j)->Some_0;
            j <= k < m.packages.len() && spec_find_idx(m.packages, m.packages[k].id) != Some(k)
        }),
    decreases m.packages.len() - j,
{
    if 0 <= j < m.packages.len() && spec_find_idx(m.packages, m.packages[j].id) == Some(j) {
        lemma_dup_package_in_range(m, j + 1);
    }
}

/// Passing the check from `i` on means every later member names a
/// package.
proof fn lemma_no_missing_member(m: MetadataView, i: int)
    requires
        0 <= i,
        spec_missing_member(m, i) is None,
    ensures
        forall|j: int|
            i <= j < m.workspace_members.len() ==> spec_find_idx(
                m.packages,
                #[trigger] m.workspace_members[j],
            ) is Some,
    decreases m.workspace_members.len() - i,
{
    if 0 <= i < m.workspace_members.len() {
        lemma_no_missing_member(m, i + 1);
    }
}

proof fn lemma_missing_member_in_range(m: MetadataView, i: int)
    requires
        spec_missing_member(m, i) is Some,
    ensures
        ({
            let k = spec_missing_member(m, i)->Some_0;
            i <= k < m.workspace_members.len() && spec_find_idx(
                m.packages,
                m.workspace_members[k],
            ) is None
        }),
    decreases m.workspace_members.len() - i,
{
    if 0 <= i < m.workspace_members.len() && spec_find_idx(
        m.packages,
        m.workspace_members[i],
    ) is Some {
        lemma_missing_member_in_range(m, i + 1);
    }
}

/// The consistency check passes exactly on well-formed snapshots.
pub proof fn lemma_graph_check_iff_wf(m: MetadataView)
    ensures
        spec_graph_check(m) is Ok <==> m.wf(),
{
    match spec_dup_package(m, 0) {
        Some(k) => {
            lemma_dup_package_in_range(m, 0);
            lemma_find_idx_from_first(m.packages, m.packages[k].id, 0);
            match spec_find_idx(m.packages, m.packages[k].id) {
                Some(x) => {
                    assert(m.packages[x].id == m.packages[k].id);
                    assert(x < k);
                    assert(!m.wf());
                },
                None => {
                    assert(false);
                },
            }
        },
        None => {
            lemma_no_dup_package(m, 0);
            assert forall|i: int, j: int|
                0 <= i < j < m.packages.len() implies (#[trigger] m.packages[i].id) != (
            #[trigger] m.packages[j].id) by {
                lemma_find_idx_from_first(m.packages, m.packages[j].id, 0);
            }
            match spec_missing_member(m, 0) {
                Some(_) => {
                    lemma_missing_member_in_range(m, 0);
                },
                None => {
                    lemma_no_missing_member(m, 0);
                },
            }
        },
    }
}

/// Checks the snapshot's graph for consistency: package identifiers must
/// be unique, and every workspace member and the resolved root must name
/// a package. A failure is a fatal inconsistency.
pub fn check_graph(m: &Metadata) -> (r: Result<(), MetadataParseError>)
    ensures
        match r {
            Ok(_) => spec_graph_check(m@) is Ok && m@.wf(),
            Err(e) => spec_graph_check(m@) == Err::<(), _>(e@) && !m@.wf(),
        },
{
    proof {
        lemma_graph_check_iff_wf(m@);
    }
    let mut j: usize = 0;
    while j < m.packages.len()
        invariant
            j <= m.packages.len(),
            m@.packages.len() == m.packages.len(),
            spec_dup_package(m@, 0) == spec_dup_package(m@, j as int),
        decreases m.packages.len() - j,
    {
        proof {
            assert(m@.packages[j as int] == m.packages@[j as int]@);
        }
        match m.find_package(&m.packages[j].id) {
            Some(x) => {
                if x != j {
                    proof {
                        assert(spec_find_idx(m@.packages, m@.packages[j as int].id) == Some(
                            x as int,
                        ));
                        assert(spec_dup_package(m@, j as int) == Some(j as int));
                        lemma_graph_check_iff_wf(m@);
                    }
                    return Err(
                        MetadataParseError {
                            path: index_path("packages", j),
                            message: "duplicate package id".to_owned(),
                        },
                    );
                }
                proof {
                    assert(spec_find_idx(m@.packages, m@.packages[j as int].id) == Some(j as int));
                }
            },
            None => {
                proof {
                    lemma_find_idx_from_first(m@.packages, m@.packages[j as int].id, 0);
                    assert(false);
                }
                return Err(
                    MetadataParseError {
                        path: index_path("packages", j),
                        message: "duplicate package id".to_owned(),
                    },
                );
            },
        }
        j = j + 1;
    }
    let mut i: usize = 0;
    while i < m.workspace_members.len()
        invariant
            i <= m.workspace_members.len(),
            m@.workspace_members.len() == m.workspace_members.len(),
            spec_dup_package(m@, 0) is None,
            spec_missing_member(m@, 0) == spec_missing_member(m@, i as int),
        decreases m.workspace_members.len() - i,
    {
        proof {
            assert(m@.workspace_members[i as int] == m.workspace_members@[i as int]@);
        }
        match m.find_package(&m.workspace_members[i]) {
            Some(_) => {},
            None => {
                proof {
                    assert(spec_missing_member(m@, i as int) == Some(i as int));
                    lemma_graph_check_iff_wf(m@);
                }
                return Err(
                    MetadataParseError {
                        path: index_path("workspace_members", i),
                        message: "unknown package id".to_owned(),
                    },
                );
            },
        }
        i = i + 1;
    }
    match &m.resolve.root {
        Some(root_id) => {
            proof {
                assert(m@.root == Some(root_id@));
            }
            match m.find_package(root_id) {
                Some(_) => Ok(()),
                None => Err(
                    MetadataParseError {
                        path: "resolve.root".to_owned(),
                        message: "unknown package id".to_owned(),
                    },
                ),
            }
        },
        None => Ok(()),
    }
}

/// Builds the typed snapshot from a parsed JSON tree: the structural
/// parse, then the graph consistency check. A returned snapshot is
/// well-formed.
pub fn metadata_from_json(j: &JsonValue) -> (r: Result<Metadata, MetadataParseError>)
    ensures
        match spec_snapshot_of(j.jview()) {
            Err(e) => r matches Err(err) && err@ == e,
            Ok(mv) => match spec_graph_check(mv) {
                Err(e) => r matches Err(err) && err@ == e,
                Ok(_) => r matches Ok(m) && m@ == mv && mv.wf(),
            },
        },
{
    let m = match snapshot_of(j) {
        Ok(m) => m,
        Err(e) => {
            return Err(e);
        },
    };
    match check_graph(&m) {
        Ok(_) => Ok(m),
        Err(e) => Err(e),
    }
}

/// Loads a dependency-graph snapshot from the metadata command's raw
/// text. The outside parser's work is pinned by its name: when it refuses
/// the text, so does the loader, with the parser's message at the root
/// path; when it yields a tree, the loader returns exactly what the
/// snapshot parse and the graph consistency check make of that tree, and
/// a returned snapshot is well-formed.
pub fn load_metadata(text: &str) -> (r: Result<Metadata, MetadataParseError>)
    ensures
        match json_parse_of(text@) {
            Err(msg) => r matches Err(e) && e@.path == ""@ && e@.message == msg,
            Ok(t) => match spec_snapshot_of(t) {
                Err(e2) => r matches Err(e) && e@ == e2,
                Ok(mv) => match spec_graph_check(mv) {
                    Err(e2) => r matches Err(e) && e@ == e2,
                    Ok(_) => r matches Ok(m) && m@ == mv && mv.wf(),
                },
            },
        },
        r matches Ok(m) ==> m@.wf(),
{
    match parse_json_tree(text) {
        Err(message) => Err(MetadataParseError { path: "".to_owned(), message }),
        Ok(tree) => metadata_from_json(&tree),
    }
}

} // verus!
