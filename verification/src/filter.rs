//! The file filter: whether a candidate path belongs in the aggregate.

use crate::rules::{rules_accept, ExclusionRuleSet};
use crate::text::{
    contains, contains_text, extension, extension_of, file_name, file_name_of, same_text,
};
use vstd::prelude::*;

verus! {

/// A filter on candidates beyond extensions and exclusions. Where filters are
/// configured, a candidate passes if any one of them matches.
#[derive(Debug)]
pub enum Filter {
    /// Matches a candidate whose base name contains the text.
    FileName(String),
    /// Matches a candidate whose path contains the text.
    PathContains(String),
    /// Matches a candidate whose content contains the text.
    ContentContains(String),
}

impl Filter {
    /// Whether the filter lets the path through while its content is unread:
    /// a filter on the name or the path decides, a filter on the content
    /// defers.
    pub open spec fn admits_path(&self, path: Seq<char>) -> bool {
        match self {
            Filter::FileName(text) => file_name_of(path) matches Some(name) && contains_text(
                name,
                text@,
            ),
            Filter::PathContains(text) => contains_text(path, text@),
            Filter::ContentContains(_) => true,
        }
    }

    /// Whether the filter matches the candidate with this path and content.
    pub open spec fn admits(&self, path: Seq<char>, content: Seq<char>) -> bool {
        match self {
            Filter::FileName(text) => file_name_of(path) matches Some(name) && contains_text(
                name,
                text@,
            ),
            Filter::PathContains(text) => contains_text(path, text@),
            Filter::ContentContains(text) => contains_text(content, text@),
        }
    }
}

/// No filter is configured, or one of them lets the path through.
pub open spec fn filters_admit_path(filters: Seq<Filter>, path: Seq<char>) -> bool {
    filters.len() == 0 || exists|i: int|
        0 <= i < filters.len() && (#[trigger] filters[i]).admits_path(path)
}

/// No filter is configured, or one of them matches the candidate.
pub open spec fn filters_admit(filters: Seq<Filter>, path: Seq<char>, content: Seq<char>) -> bool {
    filters.len() == 0 || exists|i: int|
        0 <= i < filters.len() && (#[trigger] filters[i]).admits(path, content)
}

/// The base name of the path is matched by an exclusion rule.
pub open spec fn name_excluded(rules: Seq<Seq<char>>, path: Seq<char>) -> bool {
    file_name_of(path) matches Some(name) && rules_accept(rules, name)
}

/// No extension is asked for, or the path has one of those asked for.
/// Extensions compare character by character: `RS` is not `rs`.
pub open spec fn extension_allowed(extensions: Seq<Seq<char>>, path: Seq<char>) -> bool {
    extensions.len() == 0 || (extension_of(path) matches Some(found) && extensions.contains(
        found,
    ))
}

/// Whether the candidate at `path` is selected, given whether a rule excludes
/// its base name: the path is not empty, its base name is not excluded, the
/// filters let it through, and its extension is allowed.
pub open spec fn selects(
    path: Seq<char>,
    excluded: bool,
    extensions: Seq<Seq<char>>,
    filters: Seq<Filter>,
) -> bool {
    &&& path.len() > 0
    &&& !excluded
    &&& filters_admit_path(filters, path)
    &&& extension_allowed(extensions, path)
}

/// Whether the candidate at `path` is selected under the rules with these
/// patterns.
pub open spec fn included(
    path: Seq<char>,
    rules: Seq<Seq<char>>,
    extensions: Seq<Seq<char>>,
    filters: Seq<Filter>,
) -> bool {
    selects(path, name_excluded(rules, path), extensions, filters)
}

/// Whether the extension of `path` is allowed by `extensions`.
pub fn has_allowed_extension(path: &str, extensions: &Vec<String>) -> (allowed: bool)
    ensures
        allowed == extension_allowed(extensions.deep_view(), path@),
{
    if extensions.len() == 0 {
        return true;
    }
    match extension(path) {
        None => false,
        Some(found) => {
            let mut i: usize = 0;
            while i < extensions.len()
                invariant
                    i <= extensions.len(),
                    extensions.len() > 0,
                    extension_of(path@) == Some(found@),
                    forall|k: int| 0 <= k < i ==> extensions.deep_view()[k] != found@,
                decreases extensions.len() - i,
            {
                assert(extensions.deep_view()[i as int] == extensions@[i as int]@);
                if same_text(extensions[i].as_str(), found) {
                    return true;
                }
                i += 1;
            }
            false
        },
    }
}

/// Whether the filters let `path` through while its content is unread.
pub fn filters_pass_path(path: &str, filters: &Vec<Filter>) -> (passes: bool)
    ensures
        passes == filters_admit_path(filters@, path@),
{
    if filters.len() == 0 {
        return true;
    }
    let name = file_name(path);
    let mut i: usize = 0;
    while i < filters.len()
        invariant
            i <= filters.len(),
            match name {
                Some(n) => file_name_of(path@) == Some(n@),
                None => file_name_of(path@) is None,
            },
            forall|k: int| 0 <= k < i ==> !(#[trigger] filters@[k]).admits_path(path@),
        decreases filters.len() - i,
    {
        let matched = match &filters[i] {
            Filter::FileName(text) => match name {
                Some(n) => contains(n, text.as_str()),
                None => false,
            },
            Filter::PathContains(text) => contains(path, text.as_str()),
            Filter::ContentContains(_) => true,
        };
        if matched {
            return true;
        }
        i += 1;
    }
    false
}

/// Whether the filters match the candidate once its content is read.
pub fn filters_pass(path: &str, content: &str, filters: &Vec<Filter>) -> (passes: bool)
    ensures
        passes == filters_admit(filters@, path@, content@),
{
    if filters.len() == 0 {
        return true;
    }
    let name = file_name(path);
    let mut i: usize = 0;
    while i < filters.len()
        invariant
            i <= filters.len(),
            match name {
                Some(n) => file_name_of(path@) == Some(n@),
                None => file_name_of(path@) is None,
            },
            forall|k: int| 0 <= k < i ==> !(#[trigger] filters@[k]).admits(path@, content@),
        decreases filters.len() - i,
    {
        let matched = match &filters[i] {
            Filter::FileName(text) => match name {
                Some(n) => contains(n, text.as_str()),
                None => false,
            },
            Filter::PathContains(text) => contains(path, text.as_str()),
            Filter::ContentContains(text) => contains(content, text.as_str()),
        };
        if matched {
            return true;
        }
        i += 1;
    }
    false
}

/// Decides whether the candidate at `path` is selected, once it is known
/// whether a rule excludes its base name.
///
/// The path is rejected where it is empty or excluded. Without filters the
/// extension decides; with filters one of them has to let the path through,
/// and the extension still has to be allowed. A filter on content lets every
/// path through: it is decided when the content is read (`filters_pass`).
pub fn select(path: &str, excluded: bool, extensions: &Vec<String>, filters: &Vec<Filter>) -> (selected:
    bool)
    ensures
        selected == selects(path@, excluded, extensions.deep_view(), filters@),
{
    if path.is_empty() {
        return false;
    }
    if excluded {
        return false;
    }
    if filters.len() == 0 {
        return has_allowed_extension(path, extensions);
    }
    if !filters_pass_path(path, filters) {
        return false;
    }
    has_allowed_extension(path, extensions)
}

/// Decides whether the candidate at `path` is selected, from its path alone:
/// asks the rules about its base name and leaves the rest to `select`.
pub fn should_include(
    path: &str,
    rules: &ExclusionRuleSet,
    extensions: &Vec<String>,
    filters: &Vec<Filter>,
) -> (selected: bool)
    ensures
        selected == included(path@, rules@, extensions.deep_view(), filters@),
{
    let excluded = match file_name(path) {
        Some(name) => rules.matches_name(name),
        None => false,
    };
    select(path, excluded, extensions, filters)
}

} // verus!
