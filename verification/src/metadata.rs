//! Typed model of a dependency-graph snapshot: the package list, the
//! workspace members, the resolved root, and each package's embedded
//! documentation options, kept as a deferred parse result so that one
//! member's malformed block never blocks selecting another member.

use vstd::prelude::*;
use crate::strutil::str_eq;

verus! {

/// The opaque identifier of one package in the graph.
#[derive(Debug)]
pub struct PackageId {
    pub repr: String,
}

impl View for PackageId {
    type V = Seq<char>;

    open spec fn view(&self) -> Seq<char> {
        self.repr@
    }
}

impl DeepView for Package {
    type V = PackageView;

    open spec fn deep_view(&self) -> PackageView {
        self.view()
    }
}

impl DeepView for PackageId {
    type V = Seq<char>;

    open spec fn deep_view(&self) -> Seq<char> {
        self.view()
    }
}

/// One build target of a package; `kind` tags it as library, binary,
/// procedural macro and the like.
#[derive(Debug)]
pub struct Target {
    pub kind: Vec<String>,
}

impl View for Target {
    type V = Seq<Seq<char>>;

    open spec fn view(&self) -> Seq<Seq<char>> {
        self.kind.deep_view()
    }
}

impl DeepView for Target {
    type V = Seq<Seq<char>>;

    open spec fn deep_view(&self) -> Seq<Seq<char>> {
        self.view()
    }
}

/// Per-package build configuration from the manifest's documentation block.
/// Every field is empty, false or absent when the block does not set it.
#[derive(Debug)]
pub struct DocumentationOptions {
    pub features: Vec<String>,
    pub all_features: bool,
    pub no_default_features: bool,
    pub default_target: Option<String>,
    pub targets: Option<Vec<String>>,
    pub rustc_args: Vec<String>,
    pub rustdoc_args: Vec<String>,
    pub cargo_args: Vec<String>,
}

pub ghost struct DocumentationOptionsView {
    pub features: Seq<Seq<char>>,
    pub all_features: bool,
    pub no_default_features: bool,
    pub default_target: Option<Seq<char>>,
    pub targets: Option<Seq<Seq<char>>>,
    pub rustc_args: Seq<Seq<char>>,
    pub rustdoc_args: Seq<Seq<char>>,
    pub cargo_args: Seq<Seq<char>>,
}

impl View for DocumentationOptions {
    type V = DocumentationOptionsView;

    open spec fn view(&self) -> DocumentationOptionsView {
        DocumentationOptionsView {
            features: self.features.deep_view(),
            all_features: self.all_features,
            no_default_features: self.no_default_features,
            default_target: self.default_target.deep_view(),
            targets: self.targets.deep_view(),
            rustc_args: self.rustc_args.deep_view(),
            rustdoc_args: self.rustdoc_args.deep_view(),
            cargo_args: self.cargo_args.deep_view(),
        }
    }
}

/// The configuration of a package whose manifest carries no block.
pub open spec fn spec_default_options() -> DocumentationOptionsView {
    DocumentationOptionsView {
        features: Seq::empty(),
        all_features: false,
        no_default_features: false,
        default_target: None,
        targets: None,
        rustc_args: Seq::empty(),
        rustdoc_args: Seq::empty(),
        cargo_args: Seq::empty(),
    }
}

impl Default for DocumentationOptions {
    fn default() -> (r: Self)
        ensures
            r@ == spec_default_options(),
    {
        let r = DocumentationOptions {
            features: Vec::new(),
            all_features: false,
            no_default_features: false,
            default_target: None,
            targets: None,
            rustc_args: Vec::new(),
            rustdoc_args: Vec::new(),
            cargo_args: Vec::new(),
        };
        proof {
            assert(r@.features =~= Seq::<Seq<char>>::empty());
            assert(r@.rustc_args =~= Seq::<Seq<char>>::empty());
            assert(r@.rustdoc_args =~= Seq::<Seq<char>>::empty());
            assert(r@.cargo_args =~= Seq::<Seq<char>>::empty());
        }
        r
    }
}

/// A snapshot field that could not be understood: the path of the first
/// offending field (`features[2]`, `packages[0].name`) and what was wrong.
#[derive(Debug)]
pub struct MetadataParseError {
    pub path: String,
    pub message: String,
}

pub ghost struct MetadataParseErrorView {
    pub path: Seq<char>,
    pub message: Seq<char>,
}

impl View for MetadataParseError {
    type V = MetadataParseErrorView;

    open spec fn view(&self) -> MetadataParseErrorView {
        MetadataParseErrorView { path: self.path@, message: self.message@ }
    }
}

impl MetadataParseError {
    /// A fresh error with the same path and message.
    pub fn duplicate(&self) -> (r: MetadataParseError)
        ensures
            r@ == self@,
    {
        MetadataParseError { path: self.path.clone(), message: self.message.clone() }
    }
}

/// One package of the graph. A malformed documentation block is kept as the
/// error value it produced, to surface only if this package is selected.
#[derive(Debug)]
pub struct Package {
    pub name: String,
    pub id: PackageId,
    pub targets: Vec<Target>,
    pub metadata: Result<DocumentationOptions, MetadataParseError>,
}

pub ghost struct PackageView {
    pub name: Seq<char>,
    pub id: Seq<char>,
    pub targets: Seq<Seq<Seq<char>>>,
    pub metadata: Result<DocumentationOptionsView, MetadataParseErrorView>,
}

impl View for Package {
    type V = PackageView;

    open spec fn view(&self) -> PackageView {
        PackageView {
            name: self.name@,
            id: self.id@,
            targets: self.targets.deep_view(),
            metadata: match self.metadata {
                Ok(ref o) => Ok(o@),
                Err(ref e) => Err(e@),
            },
        }
    }
}

/// Every kind tag of every build target is `proc-macro`: the package builds
/// nothing but a procedural macro and can only be built for the host.
pub open spec fn is_proc_macro_only(p: PackageView) -> bool {
    forall|i: int, j: int|
        0 <= i < p.targets.len() && 0 <= j < p.targets[i].len() ==> #[trigger] p.targets[i][j]
            == "proc-macro"@
}

impl Package {
    /// Whether the package's build targets carry only the `proc-macro` kind.
    pub fn is_proc_macro(&self) -> (r: bool)
        ensures
            r == is_proc_macro_only(self@),
    {
        let mut i: usize = 0;
        while i < self.targets.len()
            invariant
                forall|x: int, y: int|
                    0 <= x < i && 0 <= y < self@.targets[x].len() ==> #[trigger] self@.targets[x][y]
                        == "proc-macro"@,
                i <= self.targets.len(),
                self@.targets.len() == self.targets.len(),
            decreases self.targets.len() - i,
        {
            let t = &self.targets[i];
            proof {
                assert(self@.targets[i as int] == t@);
            }
            let mut j: usize = 0;
            while j < t.kind.len()
                invariant
                    forall|y: int| 0 <= y < j ==> #[trigger] t@[y] == "proc-macro"@,
                    j <= t.kind.len(),
                    t@.len() == t.kind.len(),
                    i < self.targets.len(),
                    self@.targets.len() == self.targets.len(),
                    self@.targets[i as int] == t@,
                decreases t.kind.len() - j,
            {
                if !str_eq(t.kind[j].as_str(), "proc-macro") {
                    proof {
                        assert(self@.targets[i as int] == t@);
                        assert(self@.targets[i as int][j as int] != "proc-macro"@);
                    }
                    return false;
                }
                j = j + 1;
            }
            proof {
                assert(self@.targets[i as int] == t@);
            }
            i = i + 1;
        }
        true
    }
}

/// The resolved-dependency section of the snapshot: at most a root package.
#[derive(Debug)]
pub struct Resolve {
    pub root: Option<PackageId>,
}

impl View for Resolve {
    type V = Option<Seq<char>>;

    open spec fn view(&self) -> Option<Seq<char>> {
        match self.root {
            Some(ref id) => Some(id@),
            None => None,
        }
    }
}

/// A parsed dependency-graph snapshot.
#[derive(Debug)]
pub struct Metadata {
    pub packages: Vec<Package>,
    pub workspace_members: Vec<PackageId>,
    pub resolve: Resolve,
}

pub ghost struct MetadataView {
    pub packages: Seq<PackageView>,
    pub workspace_members: Seq<Seq<char>>,
    pub root: Option<Seq<char>>,
}

impl View for Metadata {
    type V = MetadataView;

    open spec fn view(&self) -> MetadataView {
        MetadataView {
            packages: self.packages.deep_view(),
            workspace_members: self.workspace_members.deep_view(),
            root: self.resolve@,
        }
    }
}

/// Position of the first package carrying `id`, scanning from `j`.
pub open spec fn spec_find_idx_from(pkgs: Seq<PackageView>, id: Seq<char>, j: int) -> Option<int>
    decreases pkgs.len() - j,
{
    if !(0 <= j < pkgs.len()) {
        None
    } else if pkgs[j].id == id {
        Some(j)
    } else {
        spec_find_idx_from(pkgs, id, j + 1)
    }
}

/// Position of the first package carrying `id`.
pub open spec fn spec_find_idx(pkgs: Seq<PackageView>, id: Seq<char>) -> Option<int> {
    spec_find_idx_from(pkgs, id, 0)
}

/// Where the scan from `k` ends: the first position at or after `k`
/// whose package carries `id`, every earlier one differing, or none at
/// all.
pub proof fn lemma_find_idx_from_first(pkgs: Seq<PackageView>, id: Seq<char>, k: int)
    requires
        0 <= k,
    ensures
        match spec_find_idx_from(pkgs, id, k) {
            Some(x) => k <= x < pkgs.len() && pkgs[x].id == id && forall|j: int|
                k <= j < x ==> (#[trigger] pkgs[j].id) != id,
            None => forall|j: int| k <= j < pkgs.len() ==> (#[trigger] pkgs[j].id) != id,
        },
    decreases pkgs.len() - k,
{
    if 0 <= k < pkgs.len() && pkgs[k].id != id {
        lemma_find_idx_from_first(pkgs, id, k + 1);
    }
}

pub proof fn lemma_find_idx_from_in_range(pkgs: Seq<PackageView>, id: Seq<char>, j: int)
    requires
        spec_find_idx_from(pkgs, id, j) is Some,
    ensures
        0 <= spec_find_idx_from(pkgs, id, j)->Some_0 < pkgs.len(),
        pkgs[spec_find_idx_from(pkgs, id, j)->Some_0].id == id,
    decreases pkgs.len() - j,
{
    if 0 <= j < pkgs.len() && !(pkgs[j].id == id) {
        lemma_find_idx_from_in_range(pkgs, id, j + 1);
    }
}

impl MetadataView {
    /// Package identifiers are unique, and every workspace member and the
    /// resolved root, if any, name a package that the snapshot's package
    /// list holds.
    pub open spec fn wf(self) -> bool {
        &&& forall|i: int, j: int|
            #![trigger self.packages[i].id, self.packages[j].id]
            0 <= i < j < self.packages.len() ==> self.packages[i].id != self.packages[j].id
        &&& forall|i: int|
            0 <= i < self.workspace_members.len() ==> spec_find_idx(
                self.packages,
                #[trigger] self.workspace_members[i],
            ) is Some
        &&& match self.root {
            Some(r) => spec_find_idx(self.packages, r) is Some,
            None => true,
        }
    }
}

impl Metadata {
    /// Position of the first package carrying `id`, or `None`.
    pub fn find_package(&self, id: &PackageId) -> (r: Option<usize>)
        ensures
            match r {
                Some(j) => spec_find_idx(self@.packages, id@) == Some(j as int),
                None => spec_find_idx(self@.packages, id@) is None,
            },
    {
        let mut j: usize = 0;
        while j < self.packages.len()
            invariant
                j <= self.packages.len(),
                self@.packages.len() == self.packages.len(),
                spec_find_idx(self@.packages, id@) == spec_find_idx_from(
                    self@.packages,
                    id@,
                    j as int,
                ),
            decreases self.packages.len() - j,
        {
            if str_eq(self.packages[j].id.repr.as_str(), id.repr.as_str()) {
                proof {
                    assert(self@.packages[j as int].id == id@);
                }
                return Some(j);
            }
            proof {
                assert(self@.packages[j as int].id != id@);
            }
            j = j + 1;
        }
        None
    }

    /// Position of the package carrying `id`, which the caller knows exists.
    pub fn find_package_must(&self, id: &PackageId) -> (r: usize)
        requires
            spec_find_idx(self@.packages, id@) is Some,
        ensures
            spec_find_idx(self@.packages, id@) == Some(r as int),
            r < self.packages.len(),
            self@.packages[r as int].id == id@,
    {
        proof {
            lemma_find_idx_from_in_range(self@.packages, id@, 0);
        }
        match self.find_package(id) {
            Some(j) => j,
            None => {
                proof {
                    assert(false);
                }
                0
            },
        }
    }
}

} // verus!
