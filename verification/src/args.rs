//! The settings of a run, as the operator gives them.

use vstd::prelude::*;

verus! {

/// What the operator configures: the directory to watch and the optional
/// policies, still as text where they arrive as text.
#[derive(Clone, Debug)]
pub struct Args {
    /// The directory to process.
    pub directory: String,
    /// Maximum number of archive units to keep.
    pub max_files: Option<usize>,
    /// Glob of the paths that are never archived.
    pub exclude: Option<String>,
    /// Minimum size of the files that are kept, as a size expression such as
    /// `1 MB` or `1 GB`. When present, files are size-gated instead of archived.
    pub keep_min_size: Option<String>,
    /// Run a single pass and do not wait for new files.
    pub disable_watch: bool,
}

/// The mathematical content of [`Args`].
pub struct ArgsView {
    pub directory: Seq<char>,
    pub max_files: Option<usize>,
    pub exclude: Option<Seq<char>>,
    pub keep_min_size: Option<Seq<char>>,
    pub disable_watch: bool,
}

impl View for Args {
    type V = ArgsView;

    open spec fn view(&self) -> ArgsView {
        ArgsView {
            directory: self.directory@,
            max_files: self.max_files,
            exclude: match self.exclude {
                Some(text) => Some(text@),
                None => None,
            },
            keep_min_size: match self.keep_min_size {
                Some(text) => Some(text@),
                None => None,
            },
            disable_watch: self.disable_watch,
        }
    }
}

} // verus!
