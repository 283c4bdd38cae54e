//! Laws of the engine: what holds of every configuration, path and output.
//!
//! What a glob pattern matches is decided by the glob compiler and named by
//! `glob_language`; the laws on exclusion therefore speak of whatever a
//! pattern matches, and hold whatever that is.

use crate::aggregate::{entries_text, output_text, HEADER_NOTE};
use crate::constants::{default_exclusions, unsupported_extensions};
use crate::filter::{filters_admit, filters_admit_path, included, name_excluded, Filter};
use crate::guard::{
    decision_on, guard_outcome, ExistingOutput, OutputDecision, HEADER_MARKER,
};
use crate::processor::{
    aggregated_entries, aggregates, walk_action, ProcessorView, WalkAction, WalkEntry,
};
use crate::rules::{exclusion_patterns, glob_accepts, rules_accept, rules_prune, under_pruned};
use crate::text::{
    contains_text, file_name_of, first_line_of, is_affirmative, last_segment,
    lemma_first_index_of, lemma_last_index_of, occurs_at,
};
use vstd::prelude::*;

verus! {

/// A plain file name: not empty, without a separator, and neither `.` nor
/// `..`.
pub open spec fn is_plain_name(name: Seq<char>) -> bool {
    &&& name.len() > 0
    &&& forall|k: int| 0 <= k < name.len() ==> name[k] != '/'
    &&& name != seq!['.']
    &&& name != seq!['.', '.']
}

/// Every rule set holds its three layers whole and in order: the default
/// exclusions first, then the user's patterns, then the pattern of each
/// unsupported extension.
pub proof fn lemma_rule_set_layers(user: Seq<Seq<char>>)
    ensures
        exclusion_patterns(user).len() == default_exclusions().len() + user.len()
            + unsupported_extensions().len(),
        forall|i: int|
            0 <= i < default_exclusions().len() ==> exclusion_patterns(user)[i]
                == #[trigger] default_exclusions()[i],
        forall|j: int|
            0 <= j < user.len() ==> exclusion_patterns(user)[default_exclusions().len() + j]
                == #[trigger] user[j],
        forall|k: int|
            0 <= k < unsupported_extensions().len() ==> exclusion_patterns(
                user,
            )[default_exclusions().len() + user.len() + k] == "*."@
                + #[trigger] unsupported_extensions()[k],
{
}

/// The default exclusions apply to every configuration: whatever one of them
/// matches, every rule set matches, whatever the user's patterns are.
pub proof fn lemma_default_exclusions_always_apply(
    user: Seq<Seq<char>>,
    i: int,
    candidate: Seq<char>,
)
    requires
        0 <= i < default_exclusions().len(),
        glob_accepts(default_exclusions()[i], candidate),
    ensures
        rules_accept(exclusion_patterns(user), candidate),
{
    lemma_rule_set_layers(user);
    assert(exclusion_patterns(user)[i] == default_exclusions()[i]);
}

/// No configuration selects a file whose base name a default exclusion
/// matches, and every configuration prunes a directory that a default
/// exclusion matches: by its path, by its base name, or by its base name with
/// the separator behind it.
pub proof fn lemma_default_exclusions_reject(
    user: Seq<Seq<char>>,
    extensions: Seq<Seq<char>>,
    filters: Seq<Filter>,
    i: int,
    path: Seq<char>,
)
    requires
        0 <= i < default_exclusions().len(),
    ensures
        (file_name_of(path) matches Some(name) && glob_accepts(default_exclusions()[i], name))
            ==> !included(path, exclusion_patterns(user), extensions, filters),
        (glob_accepts(default_exclusions()[i], path) || (file_name_of(path) matches Some(name)
            && (glob_accepts(default_exclusions()[i], name) || glob_accepts(
            default_exclusions()[i],
            name + "/"@,
        )))) ==> rules_prune(exclusion_patterns(user), path),
{
    if glob_accepts(default_exclusions()[i], path) {
        lemma_default_exclusions_always_apply(user, i, path);
    }
    if let Some(name) = file_name_of(path) {
        if glob_accepts(default_exclusions()[i], name) {
            lemma_default_exclusions_always_apply(user, i, name);
        }
        if glob_accepts(default_exclusions()[i], name + "/"@) {
            lemma_default_exclusions_always_apply(user, i, name + "/"@);
        }
    }
}

/// Nothing is collected under an excluded directory: an entry whose path
/// lies under one is pruned where it is a directory and passed over where it
/// is not, whatever extensions and filters are configured.
pub proof fn lemma_nothing_is_collected_under_a_pruned_directory(
    config: ProcessorView,
    path: Seq<char>,
    is_dir: bool,
    is_file: bool,
)
    requires
        under_pruned(config.rules, path),
    ensures
        walk_action(config, path, is_dir, is_file) != WalkAction::Collect,
        is_dir ==> walk_action(config, path, is_dir, is_file) == WalkAction::Prune,
        !is_dir ==> walk_action(config, path, is_dir, is_file) == WalkAction::Skip,
{
}

/// No run aggregates a path under an excluded directory: whatever entries
/// the walker yields, none of those aggregated lies under one.
pub proof fn lemma_aggregated_paths_avoid_pruned_directories(
    config: ProcessorView,
    entries: Seq<WalkEntry>,
)
    ensures
        forall|k: int|
            0 <= k < aggregated_entries(config, entries).len() ==> !under_pruned(
                config.rules,
                (#[trigger] aggregated_entries(config, entries)[k]).0,
            ),
    decreases entries.len(),
{
    if entries.len() > 0 {
        lemma_aggregated_paths_avoid_pruned_directories(config, entries.drop_last());
        let before = aggregated_entries(config, entries.drop_last());
        let all = aggregated_entries(config, entries);
        assert forall|k: int| 0 <= k < all.len() implies !under_pruned(
            config.rules,
            (#[trigger] all[k]).0,
        ) by {
            if k < before.len() {
                assert(all[k] == before[k]);
            }
        }
    }
}

/// What lies under a directory that a default exclusion matches is
/// aggregated by no configuration. The directory is the part of the path
/// before the separator at `at`, and the default exclusion matches it by its
/// path, by its base name, or by its base name with the separator behind it.
pub proof fn lemma_default_exclusions_cover_their_directories(
    config: ProcessorView,
    user: Seq<Seq<char>>,
    i: int,
    entry: WalkEntry,
    at: int,
)
    requires
        config.rules == exclusion_patterns(user),
        0 <= i < default_exclusions().len(),
        0 < at < entry.path@.len(),
        entry.path@[at] == '/',
        ({
            let directory = entry.path@.take(at);
            ||| glob_accepts(default_exclusions()[i], directory)
            ||| (file_name_of(directory) matches Some(name) && (glob_accepts(
                default_exclusions()[i],
                name,
            ) || glob_accepts(default_exclusions()[i], name + "/"@)))
        }),
    ensures
        under_pruned(config.rules, entry.path@),
        walk_action(config, entry.path@, entry.is_dir, entry.is_file) != WalkAction::Collect,
        !aggregates(config, entry),
{
    lemma_default_exclusions_reject(user, Seq::empty(), Seq::empty(), i, entry.path@.take(at));
}

/// An unsupported extension cannot be included: a file whose base name the
/// pattern of an unsupported extension matches is selected by no
/// configuration, whatever extensions are asked for.
pub proof fn lemma_unsupported_extension_overrides_inclusion(
    user: Seq<Seq<char>>,
    extensions: Seq<Seq<char>>,
    filters: Seq<Filter>,
    k: int,
    path: Seq<char>,
)
    requires
        0 <= k < unsupported_extensions().len(),
        file_name_of(path) matches Some(name) && glob_accepts(
            "*."@ + unsupported_extensions()[k],
            name,
        ),
    ensures
        !included(path, exclusion_patterns(user), extensions, filters),
{
    lemma_rule_set_layers(user);
    let at = default_exclusions().len() + user.len() + k;
    assert(exclusion_patterns(user)[at] == "*."@ + unsupported_extensions()[k]);
}

/// Without rules, extensions and filters nothing is filtered: every path that
/// is not empty is selected.
pub proof fn lemma_no_rules_no_filtering(path: Seq<char>)
    requires
        path.len() > 0,
    ensures
        included(
            path,
            Seq::<Seq<char>>::empty(),
            Seq::<Seq<char>>::empty(),
            Seq::<Filter>::empty(),
        ),
{
}

/// More generally, without extensions and filters every path that is not
/// empty and whose base name no rule matches is selected.
pub proof fn lemma_unmatched_paths_are_selected(rules: Seq<Seq<char>>, path: Seq<char>)
    requires
        path.len() > 0,
        !name_excluded(rules, path),
    ensures
        included(path, rules, Seq::<Seq<char>>::empty(), Seq::<Filter>::empty()),
{
}

/// A plain name is the base name of every path that ends in it, at any
/// depth, and of itself.
pub proof fn lemma_file_name_at_any_depth(directory: Seq<char>, name: Seq<char>)
    requires
        is_plain_name(name),
    ensures
        file_name_of(directory + seq!['/'] + name) == Some(name),
        file_name_of(name) == Some(name),
{
    let path = directory + seq!['/'] + name;
    let n = path.len() as int;
    assert(path[n - 1] == name[name.len() - 1]);
    if name.len() >= 2 {
        assert(path[n - 2] == name[name.len() - 2]);
    } else {
        assert(path[n - 1] == name[0]);
        if name[0] == '.' {
            assert(name =~= seq!['.']);
        }
    }
    assert forall|k: int| directory.len() < k < n implies path[k] != '/' by {
        assert(path[k] == name[k - directory.len() - 1]);
    }
    lemma_last_index_of(path, '/', directory.len() as int);
    assert(last_segment(path) =~= name);

    let m = name.len() as int;
    if m >= 2 {
        assert(name[m - 2] != '/');
    }
    lemma_last_index_of(name, '/', -1);
    assert(last_segment(name) =~= name);
}

/// Exclusion goes by the base name alone: what a user's pattern matches as a
/// plain name is selected nowhere, however deep it lies and whatever
/// extensions and filters are configured.
pub proof fn lemma_user_exclusion_applies_at_any_depth(
    user: Seq<Seq<char>>,
    extensions: Seq<Seq<char>>,
    filters: Seq<Filter>,
    j: int,
    directory: Seq<char>,
    name: Seq<char>,
)
    requires
        0 <= j < user.len(),
        glob_accepts(user[j], name),
        is_plain_name(name),
    ensures
        !included(directory + seq!['/'] + name, exclusion_patterns(user), extensions, filters),
        !included(name, exclusion_patterns(user), extensions, filters),
{
    lemma_rule_set_layers(user);
    lemma_file_name_at_any_depth(directory, name);
    assert(exclusion_patterns(user)[default_exclusions().len() + j] == user[j]);
}

/// Two paths with the same base name are excluded alike.
pub proof fn lemma_exclusion_goes_by_base_name(
    rules: Seq<Seq<char>>,
    first: Seq<char>,
    second: Seq<char>,
)
    requires
        file_name_of(first) == file_name_of(second),
    ensures
        name_excluded(rules, first) == name_excluded(rules, second),
{
}

/// Deferring the filters on content loses no candidate: whatever the filters
/// match once the content is read, they had let through by its path.
pub proof fn lemma_deferral_keeps_candidates(
    filters: Seq<Filter>,
    path: Seq<char>,
    content: Seq<char>,
)
    requires
        filters_admit(filters, path, content),
    ensures
        filters_admit_path(filters, path),
{
    if filters.len() > 0 {
        let i = choose|i: int| 0 <= i < filters.len() && (#[trigger] filters[i]).admits(path, content);
        assert(filters[i].admits_path(path));
    }
}

/// The header marker holds no newline.
proof fn lemma_marker_is_one_line()
    ensures
        forall|k: int| 0 <= k < HEADER_MARKER@.len() ==> HEADER_MARKER@[k] != '\n',
{
    reveal_strlit("This is a .txt file representing an entire directory's contents.");
}

/// The first line of every output with a preamble is the header marker and
/// its newline.
pub proof fn lemma_first_line_of_output(entries: Seq<(Seq<char>, Seq<char>)>)
    ensures
        first_line_of(output_text(false, entries)) == HEADER_MARKER@ + seq!['\n'],
{
    reveal_strlit("\n");
    let marker = HEADER_MARKER@;
    let output = output_text(false, entries);
    let rest = HEADER_NOTE@ + "\n"@ + entries_text(entries);
    assert("\n"@ =~= seq!['\n']);
    assert(output =~= marker + seq!['\n'] + rest);
    lemma_marker_is_one_line();
    assert forall|k: int| 0 <= k < marker.len() implies output[k] != '\n' by {
        assert(output[k] == marker[k]);
    }
    assert(output[marker.len() as int] == '\n');
    lemma_first_index_of(output, '\n', marker.len() as int);
    assert(output.take(marker.len() as int + 1) =~= marker + seq!['\n']);
}

/// The engine knows its own output: where the output file holds what a run
/// with a preamble wrote, whatever it aggregated, the guard proceeds, and it
/// does so without asking, whatever the operator would answer. A second run
/// into the same output file therefore needs neither force nor operator.
pub proof fn lemma_own_output_is_overwritten(
    existing: ExistingOutput,
    entries: Seq<(Seq<char>, Seq<char>)>,
    answer: Seq<char>,
)
    requires
        existing matches ExistingOutput::Text { first_line } && first_line@ == first_line_of(
            output_text(false, entries),
        ),
    ensures
        decision_on(existing) == Some(OutputDecision::Proceed),
        guard_outcome(false, existing, answer) == Some(true),
{
    lemma_first_line_of_output(entries);
    let line = HEADER_MARKER@ + seq!['\n'];
    assert(line.subrange(0, HEADER_MARKER@.len() as int) =~= HEADER_MARKER@);
    assert(occurs_at(line, HEADER_MARKER@, 0));
}

/// A forced run never depends on what is there or on what the operator says.
pub proof fn lemma_force_decides_alone(existing: ExistingOutput, answer: Seq<char>)
    ensures
        guard_outcome(true, existing, answer) == Some(true),
{
}

/// Where the operator is asked, the answer alone decides: a file that is
/// text, not empty and without the header marker in its first line is
/// overwritten exactly where the answer says yes.
pub proof fn lemma_foreign_output_needs_consent(existing: ExistingOutput, answer: Seq<char>)
    requires
        existing matches ExistingOutput::Text { first_line } && first_line@.len() > 0
            && !contains_text(first_line@, HEADER_MARKER@),
    ensures
        decision_on(existing) == Some(OutputDecision::PromptUser),
        guard_outcome(false, existing, answer) == Some(is_affirmative(answer)),
{
}

} // verus!
