//! Package selection: an explicit selector is matched against the
//! workspace members; without one the resolved root is used; without
//! either, the caller gets every member name to present as a pick-list.

use vstd::prelude::*;
use crate::metadata::{Metadata, MetadataParseError, MetadataView, spec_find_idx};
use crate::strutil::{str_eq, join, spec_join};

verus! {

/// Why no package could be selected.
#[derive(Debug)]
pub enum ResolveError {
    /// The named selector matches no workspace member.
    PackageNotFound { name: String },
    /// No selector was given and the snapshot resolves no root: the
    /// workspace member names, in snapshot order, joined by `" | "`.
    AmbiguousPackageSelection { choices: String },
    /// The selected package's embedded documentation block was malformed.
    InvalidOptions { error: MetadataParseError },
}

impl ResolveError {
    /// A human-readable report of the failure.
    pub fn message(&self) -> (r: String)
        ensures
            match self {
                ResolveError::PackageNotFound { name } => r@ == "package not found: "@ + name@,
                ResolveError::AmbiguousPackageSelection { choices } => r@
                    == "Pass `-p ["@ + choices@ + "]` to select a single workspace member"@,
                ResolveError::InvalidOptions { error } => r@ == "failed to parse "@ + error@.path
                    + ": "@ + error@.message,
            },
    {
        match self {
            ResolveError::PackageNotFound { name } => {
                let mut s = "package not found: ".to_owned();
                s.append(name.as_str());
                s
            },
            ResolveError::AmbiguousPackageSelection { choices } => {
                let mut s = "Pass `-p [".to_owned();
                s.append(choices.as_str());
                s.append("]` to select a single workspace member");
                s
            },
            ResolveError::InvalidOptions { error } => {
                let mut s = "failed to parse ".to_owned();
                s.append(error.path.as_str());
                s.append(": ");
                s.append(error.message.as_str());
                s
            },
        }
    }
}

/// Position in `workspace_members`, scanning from `k`, of the first member
/// whose package is named `name`.
pub open spec fn spec_select_member_from(m: MetadataView, name: Seq<char>, k: int) -> Option<int>
    decreases m.workspace_members.len() - k,
{
    if !(0 <= k < m.workspace_members.len()) {
        None
    } else {
        let pi = spec_find_idx(m.packages, m.workspace_members[k]);
        if pi is Some && m.packages[pi->Some_0].name == name {
            Some(k)
        } else {
            spec_select_member_from(m, name, k + 1)
        }
    }
}

/// Position in `workspace_members` of the first member whose package is
/// named `name`.
pub open spec fn spec_select_member(m: MetadataView, name: Seq<char>) -> Option<int> {
    spec_select_member_from(m, name, 0)
}

/// The workspace member names, in snapshot order.
pub open spec fn spec_member_names(m: MetadataView) -> Seq<Seq<char>> {
    Seq::new(
        m.workspace_members.len(),
        |i: int|
            {
                let pi = spec_find_idx(m.packages, m.workspace_members[i]);
                if pi is Some {
                    m.packages[pi->Some_0].name
                } else {
                    Seq::empty()
                }
            },
    )
}

/// Selects the package that the build is about and returns its position in
/// the snapshot's package list. A named selector is matched against the
/// workspace members and fails with `PackageNotFound` when none matches;
/// without a selector the resolved root is used; without either the
/// selection is ambiguous and the error carries every member name, in
/// snapshot order, joined by `" | "`. A selected package whose embedded
/// documentation block was malformed surfaces that block's error here.
pub fn resolve_package(m: &Metadata, selector: &Option<String>) -> (r: Result<usize, ResolveError>)
    requires
        m@.wf(),
    ensures
        match selector {
            Some(name) => match spec_select_member(m@, name@) {
                Some(k) => {
                    let pi = spec_find_idx(m@.packages, m@.workspace_members[k])->Some_0;
                    match m@.packages[pi].metadata {
                        Ok(_) => r matches Ok(i) && i as int == pi,
                        Err(e) => r matches Err(ResolveError::InvalidOptions { error }) && error@
                            == e,
                    }
                },
                None => r matches Err(ResolveError::PackageNotFound { name: n }) && n@ == name@,
            },
            None => match m@.root {
                Some(root) => {
                    let pi = spec_find_idx(m@.packages, root)->Some_0;
                    match m@.packages[pi].metadata {
                        Ok(_) => r matches Ok(i) && i as int == pi,
                        Err(e) => r matches Err(ResolveError::InvalidOptions { error }) && error@
                            == e,
                    }
                },
                None => r matches Err(ResolveError::AmbiguousPackageSelection { choices })
                    && choices@ == spec_join(spec_member_names(m@), " | "@),
            },
        },
{
    match selector {
        Some(name) => {
            let mut k: usize = 0;
            while k < m.workspace_members.len()
                invariant
                    m@.wf(),
                    selector matches Some(nm) && nm@ == name@,
                    k <= m.workspace_members.len(),
                    m@.workspace_members.len() == m.workspace_members.len(),
                    m@.packages.len() == m.packages.len(),
                    spec_select_member(m@, name@) == spec_select_member_from(m@, name@, k as int),
                decreases m.workspace_members.len() - k,
            {
                proof {
                    assert(m@.workspace_members[k as int] == m.workspace_members@[k as int]@);
                }
                let pi = m.find_package_must(&m.workspace_members[k]);
                proof {
                    assert(m@.packages[pi as int] == m.packages@[pi as int]@);
                }
                if str_eq(m.packages[pi].name.as_str(), name.as_str()) {
                    proof {
                        assert(m@.packages[pi as int].name == name@);
                        assert(spec_select_member_from(m@, name@, k as int) == Some(k as int));
                        assert(spec_select_member(m@, name@) == Some(k as int));
                        assert(spec_find_idx(m@.packages, m@.workspace_members[k as int]) == Some(
                            pi as int,
                        ));
                    }
                    match &m.packages[pi].metadata {
                        Ok(_) => {
                            proof {
                                assert(m@.packages[pi as int] == m.packages@[pi as int]@);
                                assert(m@.packages[pi as int].metadata is Ok);
                            }
                            return Ok(pi);
                        },
                        Err(e) => {
                            proof {
                                assert(m@.packages[pi as int] == m.packages@[pi as int]@);
                                assert(m@.packages[pi as int].metadata is Err
                                    && m@.packages[pi as int].metadata->Err_0 == e@);
                            }
                            return Err(ResolveError::InvalidOptions { error: e.duplicate() });
                        },
                    }
                }
                proof {
                    assert(m@.packages[pi as int].name != name@);
                }
                k = k + 1;
            }
            Err(ResolveError::PackageNotFound { name: name.clone() })
        },
        None => {
            match &m.resolve.root {
                Some(root_id) => {
                    proof {
                        assert(m@.root == Some(root_id@));
                    }
                    let pi = m.find_package_must(root_id);
                    proof {
                        assert(m@.packages[pi as int] == m.packages@[pi as int]@);
                    }
                    match &m.packages[pi].metadata {
                        Ok(_) => {
                            proof {
                                assert(m@.packages[pi as int].metadata is Ok);
                            }
                            Ok(pi)
                        },
                        Err(e) => {
                            proof {
                                assert(m@.packages[pi as int].metadata is Err
                                    && m@.packages[pi as int].metadata->Err_0 == e@);
                            }
                            Err(ResolveError::InvalidOptions { error: e.duplicate() })
                        },
                    }
                },
                None => {
                    let ghost all = spec_member_names(m@);
                    let mut names: Vec<String> = Vec::new();
                    let mut k: usize = 0;
                    proof {
                        assert(names.deep_view() =~= all.take(0));
                    }
                    while k < m.workspace_members.len()
                        invariant
                            m@.wf(),
                            all == spec_member_names(m@),
                            k <= m.workspace_members.len(),
                            m@.workspace_members.len() == m.workspace_members.len(),
                            m@.packages.len() == m.packages.len(),
                            names.deep_view() == all.take(k as int),
                        decreases m.workspace_members.len() - k,
                    {
                        proof {
                            assert(m@.workspace_members[k as int] == m.workspace_members@[k as int]@);
                        }
                        let pi = m.find_package_must(&m.workspace_members[k]);
                        proof {
                            assert(m@.packages[pi as int] == m.packages@[pi as int]@);
                        }
                        let ghost pre = names.deep_view();
                        names.push(m.packages[pi].name.clone());
                        proof {
                            assert(all[k as int] == m@.packages[pi as int].name);
                            assert(names.deep_view() =~= pre.push(all[k as int]));
                            assert(pre.push(all[k as int]) =~= all.take(k + 1 as int));
                        }
                        k = k + 1;
                    }
                    proof {
                        assert(all.take(m.workspace_members.len() as int) =~= all);
                    }
                    let choices = join(&names, " | ");
                    Err(ResolveError::AmbiguousPackageSelection { choices })
                },
            }
        },
    }
}

} // verus!
