//! The command-line inputs the synthesizer consumes, as already-typed
//! values: parsing them out of the command line happens outside the
//! library.

use vstd::prelude::*;

verus! {

/// The one subcommand of the tool.
#[derive(Debug)]
pub enum Subcommand {
    Doc(Doc),
}

/// Typed command-line inputs of one documentation build.
#[derive(Debug)]
pub struct Doc {
    /// Open the generated documentation in a browser afterwards; target
    /// resolution then picks a single triple.
    pub open_mode: bool,
    /// Echo the synthesized command line.
    pub verbose: bool,
    /// Print the tool's version and do nothing else.
    pub version: bool,
    /// Package selector: the workspace member to document.
    pub package: Option<String>,
    /// Number of parallel jobs.
    pub jobs: Option<u64>,
    /// Explicit target triples, overriding every configured one.
    pub target: Vec<String>,
    /// Directory for generated artifacts.
    pub target_dir: Option<String>,
    /// Path to the manifest.
    pub manifest_path: Option<String>,
    /// Require the lockfile and cache to be up to date.
    pub frozen: bool,
    /// Require the lockfile to be up to date.
    pub locked: bool,
    /// Run without network access.
    pub offline: bool,
}

pub ghost struct DocView {
    pub open_mode: bool,
    pub verbose: bool,
    pub version: bool,
    pub package: Option<Seq<char>>,
    pub jobs: Option<u64>,
    pub target: Seq<Seq<char>>,
    pub target_dir: Option<Seq<char>>,
    pub manifest_path: Option<Seq<char>>,
    pub frozen: bool,
    pub locked: bool,
    pub offline: bool,
}

impl View for Doc {
    type V = DocView;

    open spec fn view(&self) -> DocView {
        DocView {
            open_mode: self.open_mode,
            verbose: self.verbose,
            version: self.version,
            package: self.package.deep_view(),
            jobs: self.jobs,
            target: self.target.deep_view(),
            target_dir: self.target_dir.deep_view(),
            manifest_path: self.manifest_path.deep_view(),
            frozen: self.frozen,
            locked: self.locked,
            offline: self.offline,
        }
    }
}

/// When the tool colours its diagnostics.
#[derive(Debug)]
pub enum Coloring {
    Auto,
    Always,
    Never,
}

} // verus!
