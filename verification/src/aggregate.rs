//! The aggregator: the text that a run writes, entry by entry.
//!
//! The aggregator writes nothing itself. It hands its driver the preamble and
//! then one piece of text for each candidate that is aggregated, so that only
//! one file's content is in memory at a time, and it keeps in ghost state the
//! whole text that the driver has been handed.

use crate::filter::{filters_admit, filters_pass, Filter};
use crate::guard::HEADER_MARKER;
use vstd::prelude::*;
use vstd::string::StringExecFns;

verus! {

/// The second line of the preamble, with the blank line that follows it.
pub const HEADER_NOTE: &'static str = "Each file is separated by a line with its path.\n";

/// The preamble of an output: the header marker on a line of its own, the
/// note, and a blank line. Nothing where the header is suppressed.
pub open spec fn preamble_text(suppress_header: bool) -> Seq<char> {
    if suppress_header {
        Seq::empty()
    } else {
        HEADER_MARKER@ + "\n"@ + HEADER_NOTE@ + "\n"@
    }
}

/// The text of one entry: a blank line, the path between dashes, the content
/// as it is, and a newline.
pub open spec fn entry_text(path: Seq<char>, content: Seq<char>) -> Seq<char> {
    "\n--- "@ + path + " ---\n"@ + content + "\n"@
}

/// The texts of `entries`, each a pair of path and content, one after the
/// other.
pub open spec fn entries_text(entries: Seq<(Seq<char>, Seq<char>)>) -> Seq<char>
    decreases entries.len(),
{
    if entries.len() == 0 {
        Seq::empty()
    } else {
        entries_text(entries.drop_last()) + entry_text(entries.last().0, entries.last().1)
    }
}

/// The whole output of a run that aggregated `entries` in this order.
pub open spec fn output_text(suppress_header: bool, entries: Seq<(Seq<char>, Seq<char>)>) -> Seq<
    char,
> {
    preamble_text(suppress_header) + entries_text(entries)
}

/// The paths of `entries`, in order.
pub open spec fn entry_paths(entries: Seq<(Seq<char>, Seq<char>)>) -> Seq<Seq<char>> {
    entries.map_values(|entry: (Seq<char>, Seq<char>)| entry.0)
}

/// The preamble to write at the start of the output.
pub fn preamble(suppress_header: bool) -> (text: String)
    ensures
        text@ == preamble_text(suppress_header),
{
    if suppress_header {
        String::new()
    } else {
        let mut text = String::from_str(HEADER_MARKER);
        text.append("\n");
        text.append(HEADER_NOTE);
        text.append("\n");
        text
    }
}

/// The text to write for the file at `path` with this content.
pub fn render_entry(path: &str, content: &str) -> (text: String)
    ensures
        text@ == entry_text(path@, content@),
{
    let mut text = String::from_str("\n--- ");
    text.append(path);
    text.append(" ---\n");
    text.append(content);
    text.append("\n");
    text
}

/// The state of one aggregation pass.
pub struct Aggregator<'a> {
    filters: &'a Vec<Filter>,
    suppress_header: bool,
    paths: Vec<String>,
    entries: Ghost<Seq<(Seq<char>, Seq<char>)>>,
}

impl<'a> Aggregator<'a> {
    /// The paths on record are those of the entries handed out.
    #[verifier::type_invariant]
    spec fn well_formed(self) -> bool {
        self.paths.deep_view() == entry_paths(self.entries@)
    }

    /// The filters that decide, with its content, whether a candidate is
    /// aggregated.
    pub closed spec fn filters(&self) -> Seq<Filter> {
        self.filters@
    }

    /// Whether the output has no preamble.
    pub closed spec fn header_suppressed(&self) -> bool {
        self.suppress_header
    }

    /// The entries aggregated so far, each a pair of path and content.
    pub closed spec fn entries(&self) -> Seq<(Seq<char>, Seq<char>)> {
        self.entries@
    }

    /// All the text handed out so far.
    pub open spec fn output(&self) -> Seq<char> {
        output_text(self.header_suppressed(), self.entries())
    }

    /// Starts a pass. The text returned is the preamble, the first thing to
    /// write.
    pub fn start(filters: &'a Vec<Filter>, suppress_header: bool) -> (started: (
        Aggregator<'a>,
        String,
    ))
        ensures
            started.0.filters() == filters@,
            started.0.header_suppressed() == suppress_header,
            started.0.entries() == Seq::<(Seq<char>, Seq<char>)>::empty(),
            started.1@ == started.0.output(),
    {
        let paths: Vec<String> = Vec::new();
        assert(paths.deep_view() =~= entry_paths(Seq::empty()));
        let aggregator = Aggregator { filters, suppress_header, paths, entries: Ghost(Seq::empty()) };
        (aggregator, preamble(suppress_header))
    }

    /// Takes the candidate at `path`, selected by its path, with its content:
    /// `None` where the file could not be read as text. Returns the state
    /// after it and the text to write for it.
    ///
    /// A candidate whose content is text and whom the filters match is
    /// aggregated: there is text to write for it and the candidate is
    /// counted. Any other candidate is skipped: nothing is to be written and
    /// the state stays as it was.
    pub fn add(self, path: &str, content: Option<&str>) -> (next: (Aggregator<'a>, Option<String>))
        ensures
            next.0.filters() == self.filters(),
            next.0.header_suppressed() == self.header_suppressed(),
            match next.1 {
                Some(text) => {
                    &&& content matches Some(c)
                    &&& filters_admit(self.filters(), path@, c@)
                    &&& text@ == entry_text(path@, c@)
                    &&& next.0.entries() == self.entries().push((path@, c@))
                    &&& next.0.output() == self.output() + text@
                },
                None => {
                    &&& !(content matches Some(c) && filters_admit(self.filters(), path@, c@))
                    &&& next.0.entries() == self.entries()
                },
            },
    {
        proof {
            use_type_invariant(&self);
        }
        match content {
            None => (self, None),
            Some(c) => {
                if !filters_pass(path, c, self.filters) {
                    return (self, None);
                }
                let text = render_entry(path, c);
                let Aggregator { filters, suppress_header, mut paths, entries } = self;
                let ghost before = entries@;
                let ghost paths_before = paths.deep_view();
                paths.push(path.to_owned());
                let ghost after = before.push((path@, c@));
                proof {
                    assert(after.drop_last() =~= before);
                    assert(paths.deep_view() =~= paths_before.push(path@));
                    assert(entry_paths(after) =~= entry_paths(before).push(path@));
                    assert(output_text(suppress_header, after) =~= output_text(
                        suppress_header,
                        before,
                    ) + text@);
                }
                (Aggregator { filters, suppress_header, paths, entries: Ghost(after) }, Some(text))
            },
        }
    }

    /// The number of candidates aggregated so far.
    pub fn count(&self) -> (count: usize)
        ensures
            count == self.entries().len(),
    {
        proof {
            use_type_invariant(self);
            assert(self.paths.deep_view().len() == entry_paths(self.entries@).len());
        }
        self.paths.len()
    }

    /// The paths of the candidates aggregated so far, in order.
    pub fn paths(&self) -> (paths: &Vec<String>)
        ensures
            paths.deep_view() == entry_paths(self.entries()),
    {
        proof {
            use_type_invariant(self);
        }
        &self.paths
    }
}

} // verus!
