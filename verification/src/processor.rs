//! The directory processor: one immutable configuration that selects
//! candidates, prunes directories, guards the output file and starts the
//! aggregation.

use crate::aggregate::{output_text, Aggregator};
use crate::filter::{filters_admit, included, should_include, Filter};
use crate::guard::{guard_outcome, reports, resolve, ExistingOutput, UnreadableOutput};
use crate::rules::{
    all_valid, exclusion_patterns, first_invalid, rules_prune, under_pruned, ConfigError,
    ExclusionRuleSet,
};
use vstd::prelude::*;
use vstd::string::StringExecFns;

verus! {

/// What a processor is configured with.
pub struct ProcessorView {
    /// The extensions to include; none means any.
    pub extensions: Seq<Seq<char>>,
    /// The patterns of the exclusion rules, in order.
    pub rules: Seq<Seq<char>>,
    /// Whether the output gets no preamble.
    pub suppress_prompt: bool,
    /// The path of the output file.
    pub output: Seq<char>,
    /// Whether an existing output file is overwritten without inspection.
    pub force: bool,
    /// The filters on name, path and content.
    pub filters: Seq<Filter>,
}

/// What to do with an entry that the walker yields.
#[derive(Debug, Clone, Copy, PartialEq, Eq, Structural)]
pub enum WalkAction {
    /// A directory that a rule excludes: do not descend into it.
    Prune,
    /// A file that is selected: read and aggregate it.
    Collect,
    /// Anything else: pass over it.
    Skip,
}

/// One entry of a tree held in memory, as a walker yields it.
#[derive(Debug)]
pub struct WalkEntry {
    /// The path of the entry.
    pub path: String,
    /// Whether the entry is a directory.
    pub is_dir: bool,
    /// Whether the entry is a regular file.
    pub is_file: bool,
    /// The content of a file that could be read as text.
    pub content: Option<String>,
}

/// What a run that was not aborted has done.
#[derive(Debug)]
pub struct RunReport {
    /// The whole text of the output.
    pub output: String,
    /// The number of files aggregated.
    pub count: usize,
}

/// The selection and aggregation engine for one run.
pub struct DirectoryProcessor {
    extensions: Vec<String>,
    rules: ExclusionRuleSet,
    suppress_prompt: bool,
    output: String,
    force: bool,
    filters: Vec<Filter>,
}

impl View for DirectoryProcessor {
    type V = ProcessorView;

    closed spec fn view(&self) -> ProcessorView {
        ProcessorView {
            extensions: self.extensions.deep_view(),
            rules: self.rules@,
            suppress_prompt: self.suppress_prompt,
            output: self.output@,
            force: self.force,
            filters: self.filters@,
        }
    }
}

/// What an entry calls for, given what the rules say of it: a directory that
/// is excluded is pruned, a file that is selected is collected, and the
/// directory comes first where an entry is both.
pub open spec fn action_for(is_dir: bool, pruned: bool, is_file: bool, selected: bool) -> WalkAction {
    if is_dir && pruned {
        WalkAction::Prune
    } else if is_file && selected {
        WalkAction::Collect
    } else {
        WalkAction::Skip
    }
}

/// What the entry at `path` calls for under this configuration. A directory
/// is pruned where a rule excludes it or it lies under an excluded
/// directory. A file is collected where it is selected and lies under no
/// excluded directory: what is pruned takes everything below it along.
pub open spec fn walk_action(
    config: ProcessorView,
    path: Seq<char>,
    is_dir: bool,
    is_file: bool,
) -> WalkAction {
    let under = under_pruned(config.rules, path);
    action_for(
        is_dir,
        under || rules_prune(config.rules, path),
        is_file,
        !under && included(path, config.rules, config.extensions, config.filters),
    )
}

/// What to do with an entry, once it is known whether it is pruned as a
/// directory and selected as a file.
pub fn decide_walk(is_dir: bool, pruned: bool, is_file: bool, selected: bool) -> (action: WalkAction)
    ensures
        action == action_for(is_dir, pruned, is_file, selected),
{
    if is_dir && pruned {
        WalkAction::Prune
    } else if is_file && selected {
        WalkAction::Collect
    } else {
        WalkAction::Skip
    }
}

/// The entry is aggregated: it is a file that is collected, so it lies under
/// no excluded directory, its content is text, and the filters match it.
pub open spec fn aggregates(config: ProcessorView, entry: WalkEntry) -> bool {
    &&& walk_action(config, entry.path@, entry.is_dir, entry.is_file) == WalkAction::Collect
    &&& entry.content matches Some(content)
    &&& filters_admit(config.filters, entry.path@, content@)
}

/// Path and content of the entries of `entries` that are aggregated, in the
/// order of `entries`.
pub open spec fn aggregated_entries(config: ProcessorView, entries: Seq<WalkEntry>) -> Seq<
    (Seq<char>, Seq<char>),
>
    decreases entries.len(),
{
    if entries.len() == 0 {
        Seq::empty()
    } else {
        let before = aggregated_entries(config, entries.drop_last());
        let entry = entries.last();
        if aggregates(config, entry) {
            before.push((entry.path@, entry.content->0@))
        } else {
            before
        }
    }
}

impl DirectoryProcessor {
    /// Builds the processor. The rule set holds the default exclusions, then
    /// `excluded_files`, then the unsupported extensions, and every one of
    /// these patterns has to be valid: `try_new` is the constructor for
    /// patterns that nobody has checked.
    pub fn new(
        extensions: Vec<String>,
        excluded_files: Vec<String>,
        suppress_prompt: bool,
        output: String,
        force: bool,
        filters: Vec<Filter>,
    ) -> (processor: DirectoryProcessor)
        requires
            all_valid(exclusion_patterns(excluded_files.deep_view())),
        ensures
            processor@ == (ProcessorView {
                extensions: extensions.deep_view(),
                rules: exclusion_patterns(excluded_files.deep_view()),
                suppress_prompt,
                output: output@,
                force,
                filters: filters@,
            }),
    {
        match ExclusionRuleSet::build(excluded_files) {
            Ok(rules) => DirectoryProcessor {
                extensions,
                rules,
                suppress_prompt,
                output,
                force,
                filters,
            },
            Err(_) => vstd::pervasive::unreached(),
        }
    }

    /// Builds the processor, or fails on the first pattern of the rule set
    /// that is not valid. The patterns are compiled once to test them and,
    /// where all are valid, handed to `new`, which compiles them for the
    /// processor: this happens once, at startup.
    pub fn try_new(
        extensions: Vec<String>,
        excluded_files: Vec<String>,
        suppress_prompt: bool,
        output: String,
        force: bool,
        filters: Vec<Filter>,
    ) -> (built: Result<DirectoryProcessor, ConfigError>)
        ensures
            match built {
                Ok(processor) => {
                    &&& all_valid(exclusion_patterns(excluded_files.deep_view()))
                    &&& processor@ == (ProcessorView {
                        extensions: extensions.deep_view(),
                        rules: exclusion_patterns(excluded_files.deep_view()),
                        suppress_prompt,
                        output: output@,
                        force,
                        filters: filters@,
                    })
                },
                Err(error) => exists|at: int|
                    {
                        &&& first_invalid(exclusion_patterns(excluded_files.deep_view()), at)
                        &&& error.rejects(
                            #[trigger] exclusion_patterns(excluded_files.deep_view())[at],
                        )
                    },
            },
    {
        let copy = excluded_files.clone();
        assert(copy.deep_view() =~= excluded_files.deep_view());
        match ExclusionRuleSet::build(copy) {
            Ok(_) => Ok(
                DirectoryProcessor::new(
                    extensions,
                    excluded_files,
                    suppress_prompt,
                    output,
                    force,
                    filters,
                ),
            ),
            Err(error) => Err(error),
        }
    }

    /// Whether the file at `path` is selected, by its path alone. The answer
    /// depends on nothing but the configuration and the path: asking again
    /// gives the same answer.
    pub fn should_process_file(&self, path: &str) -> (selected: bool)
        ensures
            selected == included(path@, self@.rules, self@.extensions, self@.filters),
    {
        should_include(path, &self.rules, &self.extensions, &self.filters)
    }

    /// Whether the directory at `path` is pruned: a rule matches its path,
    /// its base name, or its base name with the separator behind it.
    pub fn should_prune_directory(&self, path: &str) -> (pruned: bool)
        ensures
            pruned == rules_prune(self@.rules, path@),
    {
        self.rules.matches_directory(path)
    }

    /// Whether `path` lies under a directory that is pruned: whether a part of
    /// the path that ends before a separator names a directory that a rule
    /// excludes.
    pub fn lies_under_pruned_directory(&self, path: &str) -> (under: bool)
        ensures
            under == under_pruned(self@.rules, path@),
    {
        self.rules.lies_under_excluded_directory(path)
    }

    /// What to do with the entry at `path`. The answer goes by the path
    /// alone: an entry under an excluded directory is never collected,
    /// whether or not the walker has yielded that directory.
    pub fn classify(&self, path: &str, is_dir: bool, is_file: bool) -> (action: WalkAction)
        ensures
            action == walk_action(self@, path@, is_dir, is_file),
    {
        let under = self.lies_under_pruned_directory(path);
        let pruned = is_dir && (under || self.should_prune_directory(path));
        let selected = !pruned && is_file && !under && self.should_process_file(path);
        decide_walk(is_dir, pruned, is_file, selected)
    }

    /// Whether the output file may be created or overwritten, given what a
    /// look at the output path found and what the operator answers. A forced
    /// run proceeds whatever was found, and the answer counts only where the
    /// operator has to be asked.
    pub fn validate_output_file(&self, force: bool, existing: &ExistingOutput, answer: &str) -> (outcome:
        Result<bool, UnreadableOutput>)
        ensures
            match outcome {
                Ok(overwrite) => guard_outcome(force, *existing, answer@) == Some(overwrite),
                Err(error) => guard_outcome(force, *existing, answer@) is None && reports(
                    error,
                    *existing,
                ),
            },
    {
        resolve(force, existing, answer)
    }

    /// Starts the aggregation pass of this run: the state of the pass and
    /// the preamble, the first text to write.
    pub fn start_aggregation(&self) -> (started: (Aggregator<'_>, String))
        ensures
            started.0.filters() == self@.filters,
            started.0.header_suppressed() == self@.suppress_prompt,
            started.0.entries() == Seq::<(Seq<char>, Seq<char>)>::empty(),
            started.1@ == started.0.output(),
    {
        Aggregator::start(&self.filters, self.suppress_prompt)
    }

    /// A whole run over a tree held in memory: the guard, then the
    /// aggregation of `entries`, which are what a walker yields. Entries
    /// under an excluded directory are left out, whether or not the walker
    /// has descended into it.
    ///
    /// `Ok(None)` is the operator's refusal: nothing is written. `Err` is an
    /// output file that cannot be read. Otherwise the report holds the output
    /// text, which is the preamble and the entries aggregated in the order
    /// given, and their number. A driver that reads files one at a time goes
    /// through the same steps with `validate_output_file`, `classify`,
    /// `start_aggregation` and `Aggregator::add`.
    pub fn run(&self, existing: &ExistingOutput, answer: &str, entries: &Vec<WalkEntry>) -> (outcome:
        Result<Option<RunReport>, UnreadableOutput>)
        ensures
            match outcome {
                Ok(Some(report)) => {
                    &&& guard_outcome(self@.force, *existing, answer@) == Some(true)
                    &&& report.output@ == output_text(
                        self@.suppress_prompt,
                        aggregated_entries(self@, entries@),
                    )
                    &&& report.count == aggregated_entries(self@, entries@).len()
                },
                Ok(None) => guard_outcome(self@.force, *existing, answer@) == Some(false),
                Err(error) => guard_outcome(self@.force, *existing, answer@) is None && reports(
                    error,
                    *existing,
                ),
            },
    {
        match self.validate_output_file(self.force, existing, answer) {
            Err(error) => {
                return Err(error);
            },
            Ok(false) => {
                return Ok(None);
            },
            Ok(true) => {},
        }
        let (mut aggregator, mut output) = self.start_aggregation();
        let mut i: usize = 0;
        assert(entries@.take(0) =~= Seq::<WalkEntry>::empty());
        while i < entries.len()
            invariant
                i <= entries.len(),
                aggregator.filters() == self@.filters,
                aggregator.header_suppressed() == self@.suppress_prompt,
                aggregator.entries() == aggregated_entries(self@, entries@.take(i as int)),
                output@ == aggregator.output(),
            decreases entries.len() - i,
        {
            let entry = &entries[i];
            assert(entries@.take(i + 1).drop_last() =~= entries@.take(i as int));
            assert(entries@.take(i + 1).last() == entries@[i as int]);
            if self.classify(entry.path.as_str(), entry.is_dir, entry.is_file)
                == WalkAction::Collect {
                let content: Option<&str> = match &entry.content {
                    Some(text) => Some(text.as_str()),
                    None => None,
                };
                let (next, written) = aggregator.add(entry.path.as_str(), content);
                aggregator = next;
                match written {
                    Some(text) => {
                        output.append(text.as_str());
                    },
                    None => {},
                }
            }
            i += 1;
        }
        assert(entries@.take(i as int) =~= entries@);
        let count = aggregator.count();
        Ok(Some(RunReport { output, count }))
    }

    /// The path of the output file.
    pub fn output(&self) -> (output: &str)
        ensures
            output@ == self@.output,
    {
        self.output.as_str()
    }

    /// Whether an existing output file is overwritten without inspection.
    pub fn force(&self) -> (force: bool)
        ensures
            force == self@.force,
    {
        self.force
    }

    /// Whether the output gets no preamble.
    pub fn suppress_prompt(&self) -> (suppress: bool)
        ensures
            suppress == self@.suppress_prompt,
    {
        self.suppress_prompt
    }

    /// The extensions to include.
    pub fn extensions(&self) -> (extensions: &Vec<String>)
        ensures
            extensions.deep_view() == self@.extensions,
    {
        &self.extensions
    }

    /// The filters on name, path and content.
    pub fn filters(&self) -> (filters: &Vec<Filter>)
        ensures
            filters@ == self@.filters,
    {
        &self.filters
    }

    /// The exclusion rules.
    pub fn rules(&self) -> (rules: &ExclusionRuleSet)
        ensures
            rules@ == self@.rules,
    {
        &self.rules
    }
}

} // verus!
