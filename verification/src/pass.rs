//! One pass over a directory: from the operator's settings and a listing to
//! the plan of what is done with every entry.

use vstd::prelude::*;
use crate::args::{Args, ArgsView};
use crate::eligibility::{classify, verdict, Decision};
use crate::entry::{listing, DirectoryEntry, EntryView};
use crate::error::PassError;
use crate::exclude::{glob_valid, source_of, ExcludePattern};
use crate::latest::{has_source_file, is_latest, latest_file};
use crate::size::{min_size_of, parse_min_size};

verus! {

/// The policies of a pass, ready for use: the exclude pattern compiled, the
/// minimum size in bytes.
#[derive(Debug)]
pub struct PassConfig {
    /// The compiled exclude pattern, if one is configured.
    pub exclude: Option<ExcludePattern>,
    /// The threshold of the size gate in bytes, if one is configured. With a
    /// threshold the pass gates files by size and archives nothing.
    pub min_size: Option<u64>,
    /// The number of archive units that the pruner keeps, if one is configured.
    pub max_files: Option<usize>,
}

/// The mathematical content of a [`PassConfig`].
pub struct ConfigView {
    pub exclude: Option<Seq<char>>,
    pub min_size: Option<u64>,
    pub max_files: Option<usize>,
}

impl View for PassConfig {
    type V = ConfigView;

    open spec fn view(&self) -> ConfigView {
        ConfigView {
            exclude: source_of(self.exclude),
            min_size: self.min_size,
            max_files: self.max_files,
        }
    }
}

/// The policies that the operator's settings stand for. The exclude pattern
/// is looked at first, the minimum size second.
pub open spec fn config_for(args: ArgsView) -> Result<ConfigView, PassError> {
    if args.exclude is Some && !glob_valid(args.exclude->0) {
        Err(PassError::InvalidExclude)
    } else if args.keep_min_size is Some && min_size_of(args.keep_min_size->0) is Err {
        Err(PassError::InvalidMinSize)
    } else {
        Ok(
            ConfigView {
                exclude: args.exclude,
                min_size: match args.keep_min_size {
                    Some(text) => Some(min_size_of(text)->Ok_0),
                    None => None,
                },
                max_files: args.max_files,
            },
        )
    }
}

impl PassConfig {
    /// Puts a configuration together from what compiling the exclude pattern
    /// and reading the minimum size gave. For either policy, `None` says that
    /// it is not configured, `Some(None)` that its text was refused.
    pub fn assemble(
        exclude: Option<Option<ExcludePattern>>,
        min_size: Option<Option<u64>>,
        max_files: Option<usize>,
    ) -> (r: Result<PassConfig, PassError>)
        ensures
            match r {
                Ok(config) => {
                    &&& exclude != Some(None::<ExcludePattern>)
                    &&& min_size != Some(None::<u64>)
                    &&& config.exclude == match exclude {
                        Some(compiled) => compiled,
                        None => None,
                    }
                    &&& config.min_size == match min_size {
                        Some(bytes) => bytes,
                        None => None,
                    }
                    &&& config.max_files == max_files
                },
                Err(e) => if exclude == Some(None::<ExcludePattern>) {
                    e == PassError::InvalidExclude
                } else {
                    e == PassError::InvalidMinSize && min_size == Some(None::<u64>)
                },
            },
    {
        let exclude = match exclude {
            Some(None) => {
                return Err(PassError::InvalidExclude);
            },
            Some(compiled) => compiled,
            None => None,
        };
        let min_size = match min_size {
            Some(None) => {
                return Err(PassError::InvalidMinSize);
            },
            Some(bytes) => bytes,
            None => None,
        };
        Ok(PassConfig { exclude, min_size, max_files })
    }

    /// Compiles the operator's settings into the policies of a pass. An
    /// exclude text that is no glob, or a minimum size that is no size
    /// expression, is an error of the configuration.
    pub fn from_args(args: &Args) -> (r: Result<PassConfig, PassError>)
        ensures
            match r {
                Ok(config) => config_for(args@) == Ok::<ConfigView, PassError>(config@),
                Err(e) => config_for(args@) == Err::<ConfigView, PassError>(e),
            },
    {
        let exclude = match &args.exclude {
            Some(text) => match ExcludePattern::new(text.as_str()) {
                Ok(pattern) => Some(Some(pattern)),
                Err(_) => Some(None),
            },
            None => None,
        };
        let min_size = match &args.keep_min_size {
            Some(text) => match parse_min_size(text.as_str()) {
                Ok(bytes) => Some(Some(bytes)),
                Err(_) => Some(None),
            },
            None => None,
        };
        PassConfig::assemble(exclude, min_size, args.max_files)
    }
}

/// What is done with one entry of the listing.
#[derive(Clone, Copy, Debug, PartialEq, Eq, Structural)]
pub enum Task {
    /// The entry is left exactly as it is.
    Leave,
    /// The file is compressed into an archive unit and then removed.
    Compress,
    /// The file is deleted if it is smaller than this many bytes, and left
    /// as it is otherwise.
    SizeGate(u64),
}

/// The task that follows from what the filter decided. An eligible file is
/// compressed, or, where a minimum size is configured, size-gated instead.
pub open spec fn task_for(decision: Decision, min_size: Option<u64>) -> Task {
    match decision {
        Decision::Archive => match min_size {
            Some(bytes) => Task::SizeGate(bytes),
            None => Task::Compress,
        },
        _ => Task::Leave,
    }
}

/// The verdicts of the filter on every entry of a listing whose latest file
/// stands at `latest`.
pub open spec fn planned(dir: Seq<EntryView>, config: ConfigView, latest: int) -> Seq<Decision> {
    Seq::new(dir.len(), |i: int| verdict(dir[i], dir[latest].path, config.exclude))
}

/// The plan of a pass: what the filter decided for every entry of the
/// listing, and the policies that the later stages need.
#[derive(Debug)]
pub struct PassPlan {
    /// The position of the latest file in the listing.
    pub latest: usize,
    /// The filter's verdict on every entry, in the order of the listing.
    pub decisions: Vec<Decision>,
    /// The threshold of the size gate, if one is configured.
    pub min_size: Option<u64>,
    /// The retention count, if one is configured. The pruner runs after all
    /// tasks of the plan are done.
    pub max_files: Option<usize>,
}

impl PassPlan {
    /// Whether this is the plan of a pass over `dir` under `config`.
    pub open spec fn is_plan_of(self, dir: Seq<EntryView>, config: ConfigView) -> bool {
        &&& is_latest(dir, self.latest as int)
        &&& self.decisions@ == planned(dir, config, self.latest as int)
        &&& self.min_size == config.min_size
        &&& self.max_files == config.max_files
    }

    /// The task for the entry at `i`.
    pub fn task(&self, i: usize) -> (t: Task)
        requires
            i < self.decisions@.len(),
        ensures
            t == task_for(self.decisions@[i as int], self.min_size),
    {
        match self.decisions[i] {
            Decision::Archive => match self.min_size {
                Some(bytes) => Task::SizeGate(bytes),
                None => Task::Compress,
            },
            _ => Task::Leave,
        }
    }
}

/// Plans a pass over a listing under policies that are already compiled. The
/// latest file is found once, and every entry is judged once. A listing
/// without a source file has no latest file, and no plan.
pub fn plan_pass(config: &PassConfig, entries: &Vec<DirectoryEntry>) -> (r: Result<
    PassPlan,
    PassError,
>)
    ensures
        has_source_file(listing(entries@)) ==> r is Ok,
        match r {
            Ok(plan) => plan.is_plan_of(listing(entries@), config@),
            Err(e) => e == PassError::NoFiles && !has_source_file(listing(entries@)),
        },
{
    let ghost dir = listing(entries@);
    let latest = match latest_file(entries) {
        Ok(latest) => latest,
        Err(e) => {
            return Err(e);
        },
    };
    let latest_path = entries[latest].path.as_str();
    assert(dir[latest as int] == entries[latest as int]@);
    let mut decisions: Vec<Decision> = Vec::new();
    let mut i: usize = 0;
    while i < entries.len()
        invariant
            i <= entries.len(),
            latest < entries.len(),
            dir == listing(entries@),
            latest_path@ == dir[latest as int].path,
            decisions@.len() == i,
            forall|j: int|
                0 <= j < i ==> decisions@[j] == verdict(
                    dir[j],
                    dir[latest as int].path,
                    config@.exclude,
                ),
        decreases entries.len() - i,
    {
        assert(dir[i as int] == entries[i as int]@);
        let decision = classify(&entries[i], latest_path, &config.exclude);
        decisions.push(decision);
        i += 1;
    }
    assert(decisions@ =~= planned(dir, config@, latest as int));
    Ok(PassPlan { latest, decisions, min_size: config.min_size, max_files: config.max_files })
}

/// Whether a pass over `dir` with the settings `args` can run, and if so,
/// under which policies. An error of the configuration comes before the
/// error of a directory without source files.
pub open spec fn pass_policies(args: ArgsView, dir: Seq<EntryView>) -> Result<
    ConfigView,
    PassError,
> {
    match config_for(args) {
        Err(e) => Err(e),
        Ok(config) => if has_source_file(dir) {
            Ok(config)
        } else {
            Err(PassError::NoFiles)
        },
    }
}

/// Plans one pass over a directory from the operator's settings and the
/// listing of the directory. The settings are checked before the listing is
/// looked at; then the latest file is found, and every entry is judged.
pub fn run_archive_loop(args: &Args, entries: &Vec<DirectoryEntry>) -> (r: Result<
    PassPlan,
    PassError,
>)
    ensures
        match pass_policies(args@, listing(entries@)) {
            Ok(config) => r is Ok && r->Ok_0.is_plan_of(listing(entries@), config),
            Err(e) => r == Err::<PassPlan, PassError>(e),
        },
{
    let config = match PassConfig::from_args(args) {
        Ok(config) => config,
        Err(e) => {
            return Err(e);
        },
    };
    plan_pass(&config, entries)
}

} // verus!
