//! Exclusion rules: glob patterns compiled once and matched many times.
//!
//! Patterns are compiled and matched by the `globset` crate. What a pattern
//! matches is not restated here: it is named (`glob_language`), and the
//! contracts of this module say which patterns a rule set holds and how the
//! answers of its rules combine.

use crate::constants::{
    default_exclusion_list, default_exclusions, unsupported_extension_list,
    unsupported_extensions,
};
use crate::text::{chars_of, file_name, file_name_of};
use vstd::string::StrSliceExecFns;
use globset::{Glob, GlobMatcher};
use vstd::prelude::*;
use vstd::string::StringExecFns;

verus! {

#[verifier::external_type_specification]
#[verifier::external_body]
pub struct ExGlobMatcher(globset::GlobMatcher);

#[verifier::external_type_specification]
#[verifier::external_body]
pub struct ExGlobError(globset::Error);

/// What `globset` makes of a glob pattern under its default options, with `/`
/// as the only path separator: `None` where it rejects the pattern as
/// malformed, else the set of texts that the compiled pattern matches.
pub uninterp spec fn glob_language(pattern: Seq<char>) -> Option<Set<Seq<char>>>;

/// The set of texts that a compiled matcher matches.
pub uninterp spec fn matcher_language(matcher: GlobMatcher) -> Set<Seq<char>>;

/// Longest pattern, in characters, that this library hands to the compiler.
pub const MAX_PATTERN_CHARS: usize = 4096;

/// Largest number of opening braces in a pattern that this library hands to
/// the compiler.
pub const MAX_PATTERN_GROUPS: usize = 64;

/// How often `c` occurs in `s`.
pub open spec fn count_of(s: Seq<char>, c: char) -> nat
    decreases s.len(),
{
    if s.len() == 0 {
        0
    } else {
        count_of(s.drop_last(), c) + if s.last() == c {
            1nat
        } else {
            0nat
        }
    }
}

/// The pattern is short and flat enough to be compiled.
pub open spec fn pattern_in_bounds(pattern: Seq<char>) -> bool {
    &&& pattern.len() <= MAX_PATTERN_CHARS
    &&& count_of(pattern, '{') <= MAX_PATTERN_GROUPS
}

/// The pattern can become a rule: it is within bounds and well formed.
pub open spec fn pattern_is_valid(pattern: Seq<char>) -> bool {
    &&& pattern_in_bounds(pattern)
    &&& glob_language(pattern) is Some
}

/// The pattern is well formed and matches `candidate`.
pub open spec fn glob_accepts(pattern: Seq<char>, candidate: Seq<char>) -> bool {
    glob_language(pattern) matches Some(language) && language.contains(candidate)
}

/// Some pattern of `patterns` matches `candidate`.
pub open spec fn rules_accept(patterns: Seq<Seq<char>>, candidate: Seq<char>) -> bool {
    exists|i: int| 0 <= i < patterns.len() && glob_accepts(#[trigger] patterns[i], candidate)
}

/// Some pattern of `patterns` matches `path` as a whole or its base name.
pub open spec fn rules_exclude(patterns: Seq<Seq<char>>, path: Seq<char>) -> bool {
    ||| rules_accept(patterns, path)
    ||| (file_name_of(path) matches Some(name) && rules_accept(patterns, name))
}

/// Some pattern of `patterns` excludes the directory at `path`: it matches
/// the path as a whole, its base name, or its base name with the separator
/// behind it, which is how a pattern that ends in `/` names a directory.
pub open spec fn rules_prune(patterns: Seq<Seq<char>>, path: Seq<char>) -> bool {
    ||| rules_exclude(patterns, path)
    ||| (file_name_of(path) matches Some(name) && rules_accept(patterns, name + "/"@))
}

/// The path lies under a directory that some pattern of `patterns` excludes:
/// a part of the path that ends before a separator names such a directory.
pub open spec fn under_pruned(patterns: Seq<Seq<char>>, path: Seq<char>) -> bool {
    exists|at: int|
        0 < at < path.len() && path[at] == '/' && rules_prune(patterns, #[trigger] path.take(at))
}

/// The patterns that exclude the unsupported extensions: `*.` before each.
pub open spec fn unsupported_patterns() -> Seq<Seq<char>> {
    unsupported_extensions().map_values(|extension: Seq<char>| "*."@ + extension)
}

/// The three layers of a rule set, in order: the default exclusions, the
/// user's patterns as given, the patterns of the unsupported extensions.
pub open spec fn exclusion_patterns(user: Seq<Seq<char>>) -> Seq<Seq<char>> {
    default_exclusions() + user + unsupported_patterns()
}

/// Calls `globset::Glob::new` on the pattern and, where that succeeds,
/// `Glob::compile_matcher` on the result.
///
/// The contract names the outcome and claims nothing of what a pattern
/// matches: a parse error is `None` of `glob_language`, and a matcher matches
/// the set that `glob_language` gives for its pattern. `compile_matcher`
/// expects the regular expression that `globset` derives from the glob to
/// build, which holds while that expression stays within a nesting depth of
/// 250 and an automaton size of 10 MiB; the expression grows with the length
/// of the glob and nests with its braces, and the bounds demanded here keep it
/// far inside both limits.
#[verifier::external_body]
fn compile_glob(pattern: &str) -> (compiled: Result<GlobMatcher, globset::Error>)
    requires
        pattern_in_bounds(pattern@),
    ensures
        match compiled {
            Ok(matcher) => glob_language(pattern@) == Some(matcher_language(matcher)),
            Err(_) => glob_language(pattern@) is None,
        },
{
    match Glob::new(pattern) {
        Ok(glob) => Ok(glob.compile_matcher()),
        Err(error) => Err(error),
    }
}

/// Calls `globset::GlobMatcher::is_match` with the candidate as the path:
/// the answer is membership in the set that the matcher matches.
#[verifier::external_body]
fn matcher_is_match(matcher: &GlobMatcher, candidate: &str) -> (accepted: bool)
    ensures
        accepted == matcher_language(*matcher).contains(candidate@),
{
    matcher.is_match(candidate)
}

/// Why a pattern cannot become a rule.
#[derive(Debug)]
pub enum ConfigError {
    /// The pattern is not a well-formed glob.
    Malformed { pattern: String },
    /// The pattern is longer than `MAX_PATTERN_CHARS` or holds more opening
    /// braces than `MAX_PATTERN_GROUPS`.
    Oversized { pattern: String },
}

impl ConfigError {
    /// The pattern that was refused.
    pub open spec fn spec_pattern(&self) -> Seq<char> {
        match self {
            ConfigError::Malformed { pattern } => pattern@,
            ConfigError::Oversized { pattern } => pattern@,
        }
    }

    /// The error that `pattern` must give: only an invalid pattern gives one.
    pub open spec fn rejects(&self, pattern: Seq<char>) -> bool {
        &&& self.spec_pattern() == pattern
        &&& !pattern_is_valid(pattern)
        &&& self is Oversized <==> !pattern_in_bounds(pattern)
    }

    /// The pattern that was refused.
    pub fn pattern(&self) -> (pattern: &str)
        ensures
            pattern@ == self.spec_pattern(),
    {
        match self {
            ConfigError::Malformed { pattern } => pattern.as_str(),
            ConfigError::Oversized { pattern } => pattern.as_str(),
        }
    }

    /// A sentence that names the pattern and says what is wrong with it.
    pub fn message(&self) -> (message: String)
        ensures
            message@ == match self {
                ConfigError::Malformed { pattern } => "malformed glob pattern: "@ + pattern@,
                ConfigError::Oversized { pattern } => "glob pattern too large: "@ + pattern@,
            },
    {
        match self {
            ConfigError::Malformed { pattern } => {
                String::from_str("malformed glob pattern: ").concat(pattern.as_str())
            },
            ConfigError::Oversized { pattern } => {
                String::from_str("glob pattern too large: ").concat(pattern.as_str())
            },
        }
    }
}

/// Whether the pattern is short and flat enough to be compiled.
pub fn within_bounds(pattern: &str) -> (fits: bool)
    ensures
        fits == pattern_in_bounds(pattern@),
{
    let chars = chars_of(pattern);
    if chars.len() > MAX_PATTERN_CHARS {
        return false;
    }
    let mut groups: usize = 0;
    let mut i: usize = 0;
    assert(chars@.take(0) =~= Seq::<char>::empty());
    while i < chars.len()
        invariant
            i <= chars.len() <= MAX_PATTERN_CHARS,
            groups == count_of(chars@.take(i as int), '{'),
            groups <= i,
        decreases chars.len() - i,
    {
        assert(chars@.take(i + 1).drop_last() =~= chars@.take(i as int));
        if chars[i] == '{' {
            groups += 1;
        }
        i += 1;
    }
    assert(chars@.take(i as int) =~= chars@);
    groups <= MAX_PATTERN_GROUPS
}

/// One exclusion rule: a glob pattern and its compiled matcher.
pub struct GlobRule {
    pattern: String,
    matcher: GlobMatcher,
}

impl View for GlobRule {
    type V = Seq<char>;

    /// The pattern that the rule was compiled from.
    closed spec fn view(&self) -> Seq<char> {
        self.pattern@
    }
}

impl GlobRule {
    /// The matcher matches what its pattern stands for.
    #[verifier::type_invariant]
    spec fn well_formed(self) -> bool {
        glob_language(self.pattern@) == Some(matcher_language(self.matcher))
    }

    /// Compiles `pattern` into a rule, or says why it cannot be one.
    pub fn new(pattern: &str) -> (compiled: Result<GlobRule, ConfigError>)
        ensures
            match compiled {
                Ok(rule) => rule@ == pattern@ && pattern_is_valid(pattern@),
                Err(error) => error.rejects(pattern@),
            },
    {
        if !within_bounds(pattern) {
            return Err(ConfigError::Oversized { pattern: pattern.to_owned() });
        }
        match compile_glob(pattern) {
            Ok(matcher) => Ok(GlobRule { pattern: pattern.to_owned(), matcher }),
            Err(_) => Err(ConfigError::Malformed { pattern: pattern.to_owned() }),
        }
    }

    /// The pattern that the rule was compiled from.
    pub fn pattern(&self) -> (pattern: &str)
        ensures
            pattern@ == self@,
    {
        self.pattern.as_str()
    }

    /// Whether the rule matches `candidate`.
    pub fn is_match(&self, candidate: &str) -> (accepted: bool)
        ensures
            accepted == glob_accepts(self@, candidate@),
    {
        proof {
            use_type_invariant(self);
        }
        matcher_is_match(&self.matcher, candidate)
    }
}

/// The default exclusion patterns as owned strings.
pub fn get_default_exclusions() -> (exclusions: Vec<String>)
    ensures
        exclusions.deep_view() == default_exclusions(),
{
    let defaults = default_exclusion_list();
    let mut exclusions: Vec<String> = Vec::new();
    let mut i: usize = 0;
    while i < defaults.len()
        invariant
            i <= defaults.len(),
            exclusions.len() == i,
            forall|k: int| 0 <= k < i ==> exclusions@[k]@ == defaults@[k]@,
        decreases defaults.len() - i,
    {
        exclusions.push(defaults[i].to_owned());
        i += 1;
    }
    assert(exclusions.deep_view() =~= defaults.deep_view());
    exclusions
}

/// The patterns of a rule set for the user's `excluded_files`: the default
/// exclusions, then the user's patterns as given, then `*.` and the extension
/// for each unsupported extension.
pub fn create_exclusions(excluded_files: Vec<String>) -> (exclusions: Vec<String>)
    ensures
        exclusions.deep_view() == exclusion_patterns(excluded_files.deep_view()),
{
    let mut exclusions = get_default_exclusions();
    let mut user = excluded_files;
    exclusions.append(&mut user);
    let extensions = unsupported_extension_list();
    let ghost head = default_exclusions() + excluded_files.deep_view();
    assert(exclusions.deep_view() =~= head);
    let mut i: usize = 0;
    while i < extensions.len()
        invariant
            i <= extensions.len(),
            extensions.deep_view() == unsupported_extensions(),
            exclusions.deep_view() == head + unsupported_patterns().take(i as int),
        decreases extensions.len() - i,
    {
        let mut pattern = String::from_str("*.");
        pattern.append(extensions[i]);
        let ghost before = exclusions.deep_view();
        exclusions.push(pattern);
        proof {
            assert(extensions.deep_view()[i as int] == extensions@[i as int]@);
            assert(exclusions.deep_view() =~= before.push(pattern@));
            assert(unsupported_patterns().take(i + 1) =~= unsupported_patterns().take(
                i as int,
            ).push(pattern@));
        }
        i += 1;
    }
    assert(unsupported_patterns().take(i as int) =~= unsupported_patterns());
    exclusions
}

/// The first pattern of `patterns` that is not valid stands at `at`.
pub open spec fn first_invalid(patterns: Seq<Seq<char>>, at: int) -> bool {
    &&& 0 <= at < patterns.len()
    &&& !pattern_is_valid(patterns[at])
    &&& forall|k: int| 0 <= k < at ==> pattern_is_valid(#[trigger] patterns[k])
}

/// Every pattern of `patterns` is valid.
pub open spec fn all_valid(patterns: Seq<Seq<char>>) -> bool {
    forall|k: int| 0 <= k < patterns.len() ==> pattern_is_valid(#[trigger] patterns[k])
}

/// An ordered set of exclusion rules, built once and then only read. A
/// candidate that any rule matches is excluded.
pub struct ExclusionRuleSet {
    rules: Vec<GlobRule>,
}

impl View for ExclusionRuleSet {
    type V = Seq<Seq<char>>;

    /// The patterns of the rules, in order.
    closed spec fn view(&self) -> Seq<Seq<char>> {
        self.rules@.map_values(|rule: GlobRule| rule@)
    }
}

impl ExclusionRuleSet {
    /// Compiles exactly the given patterns, in order. Fails on the first
    /// pattern that is not valid.
    pub fn compile(patterns: &Vec<String>) -> (compiled: Result<ExclusionRuleSet, ConfigError>)
        ensures
            match compiled {
                Ok(set) => set@ == patterns.deep_view() && all_valid(patterns.deep_view()),
                Err(error) => exists|at: int|
                    first_invalid(patterns.deep_view(), at) && error.rejects(
                        #[trigger] patterns.deep_view()[at],
                    ),
            },
    {
        let mut rules: Vec<GlobRule> = Vec::new();
        let mut i: usize = 0;
        while i < patterns.len()
            invariant
                i <= patterns.len(),
                rules.len() == i,
                forall|k: int| 0 <= k < i ==> (#[trigger] rules@[k])@ == patterns@[k]@,
                forall|k: int| 0 <= k < i ==> pattern_is_valid(#[trigger] patterns.deep_view()[k]),
            decreases patterns.len() - i,
        {
            assert(patterns.deep_view()[i as int] == patterns@[i as int]@);
            match GlobRule::new(patterns[i].as_str()) {
                Ok(rule) => {
                    rules.push(rule);
                },
                Err(error) => {
                    assert(first_invalid(patterns.deep_view(), i as int));
                    return Err(error);
                },
            }
            i += 1;
        }
        let set = ExclusionRuleSet { rules };
        assert(set@ =~= patterns.deep_view());
        Ok(set)
    }

    /// Builds the rule set for the user's exclusion patterns: the default
    /// exclusions, the user's patterns, and the unsupported extensions.
    pub fn build(user_exclusions: Vec<String>) -> (built: Result<ExclusionRuleSet, ConfigError>)
        ensures
            match built {
                Ok(set) => {
                    &&& set@ == exclusion_patterns(user_exclusions.deep_view())
                    &&& all_valid(exclusion_patterns(user_exclusions.deep_view()))
                },
                Err(error) => exists|at: int|
                    {
                        &&& first_invalid(exclusion_patterns(user_exclusions.deep_view()), at)
                        &&& error.rejects(
                            #[trigger] exclusion_patterns(user_exclusions.deep_view())[at],
                        )
                    },
            },
    {
        let patterns = create_exclusions(user_exclusions);
        ExclusionRuleSet::compile(&patterns)
    }

    /// The number of rules.
    pub fn len(&self) -> (count: usize)
        ensures
            count == self@.len(),
    {
        self.rules.len()
    }

    /// The pattern of the rule at `index`.
    pub fn pattern(&self, index: usize) -> (pattern: &str)
        requires
            index < self@.len(),
        ensures
            pattern@ == self@[index as int],
    {
        self.rules[index].pattern()
    }

    /// Whether any rule matches `name` as it stands.
    pub fn matches_name(&self, name: &str) -> (excluded: bool)
        ensures
            excluded == rules_accept(self@, name@),
    {
        let mut i: usize = 0;
        while i < self.rules.len()
            invariant
                i <= self.rules.len(),
                forall|k: int| 0 <= k < i ==> !glob_accepts(#[trigger] self@[k], name@),
            decreases self.rules.len() - i,
        {
            assert(self@[i as int] == self.rules@[i as int]@);
            if self.rules[i].is_match(name) {
                return true;
            }
            i += 1;
        }
        false
    }

    /// Whether any rule matches `path`, as a whole or by its base name.
    pub fn matches(&self, path: &str) -> (excluded: bool)
        ensures
            excluded == rules_exclude(self@, path@),
    {
        if self.matches_name(path) {
            return true;
        }
        match file_name(path) {
            Some(name) => self.matches_name(name),
            None => false,
        }
    }

    /// Whether any rule excludes the directory at `path`: by its path, by its
    /// base name, or by its base name with the separator behind it.
    pub fn matches_directory(&self, path: &str) -> (excluded: bool)
        ensures
            excluded == rules_prune(self@, path@),
    {
        if self.matches(path) {
            return true;
        }
        match file_name(path) {
            Some(name) => {
                let marked = String::from_str(name).concat("/");
                self.matches_name(marked.as_str())
            },
            None => false,
        }
    }

    /// Whether `path` lies under a directory that a rule excludes: whether
    /// `matches_directory` holds of a part of the path that ends before a
    /// separator.
    pub fn lies_under_excluded_directory(&self, path: &str) -> (under: bool)
        ensures
            under == under_pruned(self@, path@),
    {
        let chars = chars_of(path);
        let mut at: usize = 1;
        while at < chars.len()
            invariant
                1 <= at,
                chars@ == path@,
                forall|k: int|
                    0 < k < at && k < path@.len() && path@[k] == '/' ==> !rules_prune(
                        self@,
                        #[trigger] path@.take(k),
                    ),
            decreases chars.len() - at,
        {
            if chars[at] == '/' {
                let directory = path.substring_char(0, at);
                assert(directory@ =~= path@.take(at as int));
                if self.matches_directory(directory) {
                    return true;
                }
            }
            at += 1;
        }
        false
    }
}

} // verus!
