//! The status report of a campaign: the pull requests grouped by readiness.
use crate::models::{MigrationInput, NamedTarget};
use crate::pull_request::{PullState, PullStatus};
use crate::text::{join_lines, joined, texts};
use vstd::prelude::*;
use vstd::string::*;
use vstd::utf8::encode_utf8;

verus! {

/// Lexicographic order on bytes, a prefix coming first.
pub open spec fn bytes_le(a: Seq<u8>, b: Seq<u8>) -> bool
    decreases a.len(),
{
    if a.len() == 0 {
        true
    } else if b.len() == 0 {
        false
    } else if a[0] != b[0] {
        a[0] < b[0]
    } else {
        bytes_le(a.drop_first(), b.drop_first())
    }
}

/// Whether the texts stand in ascending order of their UTF-8 bytes.
pub open spec fn ascending(items: Seq<Seq<char>>) -> bool {
    forall|i: int, j: int|
        0 <= i < j < items.len() ==> bytes_le(
            encode_utf8(#[trigger] items[i]),
            encode_utf8(#[trigger] items[j]),
        )
}

/// Sorts with `sort` of the standard library's slices, which for strings
/// means ascending order of their bytes. The contract claims that much and
/// that nothing is lost or added.
#[verifier::external_body]
fn sort_texts(items: &mut Vec<String>)
    ensures
        texts(final(items)@).to_multiset() == texts(old(items)@).to_multiset(),
        ascending(texts(final(items)@)),
{
    items.sort()
}

/// The pull requests of a campaign, one list of report lines per status.
#[derive(Debug, Clone, PartialEq, Eq)]
pub struct StatusReport {
    pub checks_failed: Vec<String>,
    pub not_approved: Vec<String>,
    pub mergeable: Vec<String>,
    pub merged: Vec<String>,
}

/// The report line of a pull request.
pub open spec fn entry(permalink: Seq<char>) -> Seq<char> {
    "- "@ + permalink
}

/// The text of a report with the given lines in its four sections.
pub open spec fn report_text(
    checks_failed: Seq<Seq<char>>,
    not_approved: Seq<Seq<char>>,
    mergeable: Seq<Seq<char>>,
    merged: Seq<Seq<char>>,
) -> Seq<char> {
    "# Migration Results\n## Checks Failed\n\n"@ + joined(checks_failed)
        + "\n\n## Not Approved\n\n"@ + joined(not_approved) + "\n\n## Mergeable\n\n"@ + joined(
        mergeable,
    ) + "\n\n## Merged\n\n"@ + joined(merged)
}

impl StatusReport {
    /// A report without pull requests.
    pub fn new() -> (out: Self)
        ensures
            out.checks_failed@.len() == 0,
            out.not_approved@.len() == 0,
            out.mergeable@.len() == 0,
            out.merged@.len() == 0,
    {
        StatusReport {
            checks_failed: Vec::new(),
            not_approved: Vec::new(),
            mergeable: Vec::new(),
            merged: Vec::new(),
        }
    }

    /// Puts a pull request at the end of the list of its status and leaves
    /// the other lists alone.
    pub fn add(&mut self, state: &PullState)
        ensures
            texts(final(self).checks_failed@) == if state.status == PullStatus::ChecksFailed {
                texts(old(self).checks_failed@).push(entry(state.permalink@))
            } else {
                texts(old(self).checks_failed@)
            },
            texts(final(self).not_approved@) == if state.status == PullStatus::NeedsApproval {
                texts(old(self).not_approved@).push(entry(state.permalink@))
            } else {
                texts(old(self).not_approved@)
            },
            texts(final(self).mergeable@) == if state.status == PullStatus::Mergeable {
                texts(old(self).mergeable@).push(entry(state.permalink@))
            } else {
                texts(old(self).mergeable@)
            },
            texts(final(self).merged@) == if state.status == PullStatus::Merged {
                texts(old(self).merged@).push(entry(state.permalink@))
            } else {
                texts(old(self).merged@)
            },
    {
        let line = String::from_str("- ").concat(state.permalink.as_str());
        match state.status {
            PullStatus::ChecksFailed => {
                self.checks_failed.push(line);
            },
            PullStatus::NeedsApproval => {
                self.not_approved.push(line);
            },
            PullStatus::Mergeable => {
                self.mergeable.push(line);
            },
            PullStatus::Merged => {
                self.merged.push(line);
            },
        }
    }

    /// Brings every list into ascending order.
    pub fn sort(&mut self)
        ensures
            texts(final(self).checks_failed@).to_multiset() == texts(
                old(self).checks_failed@,
            ).to_multiset(),
            texts(final(self).not_approved@).to_multiset() == texts(
                old(self).not_approved@,
            ).to_multiset(),
            texts(final(self).mergeable@).to_multiset() == texts(
                old(self).mergeable@,
            ).to_multiset(),
            texts(final(self).merged@).to_multiset() == texts(old(self).merged@).to_multiset(),
            ascending(texts(final(self).checks_failed@)),
            ascending(texts(final(self).not_approved@)),
            ascending(texts(final(self).mergeable@)),
            ascending(texts(final(self).merged@)),
    {
        sort_texts(&mut self.checks_failed);
        sort_texts(&mut self.not_approved);
        sort_texts(&mut self.mergeable);
        sort_texts(&mut self.merged);
    }

    /// The report as text: a heading, then the four sections with their
    /// lines.
    pub fn render(&self) -> (out: String)
        ensures
            out@ == report_text(
                texts(self.checks_failed@),
                texts(self.not_approved@),
                texts(self.mergeable@),
                texts(self.merged@),
            ),
    {
        String::from_str("# Migration Results\n## Checks Failed\n\n").concat(
            join_lines(&self.checks_failed).as_str(),
        ).concat("\n\n## Not Approved\n\n").concat(join_lines(&self.not_approved).as_str()).concat(
            "\n\n## Mergeable\n\n",
        ).concat(join_lines(&self.mergeable).as_str()).concat("\n\n## Merged\n\n").concat(
            join_lines(&self.merged).as_str(),
        )
    }
}

/// Clone URL and pull-request number of those among the first `upto` targets
/// that remember a pull request, in the order of the targets.
pub open spec fn lookups(targets: Seq<NamedTarget>, upto: int) -> Seq<(Seq<char>, i64)>
    decreases upto,
{
    if upto <= 0 {
        Seq::empty()
    } else {
        let earlier = lookups(targets, upto - 1);
        let entry = targets[upto - 1];
        match entry.target.pull_request {
            Some(pr) => earlier.push((entry.target.repo@, pr.pr_number)),
            None => earlier,
        }
    }
}

/// Lookups with their URLs as sequences of characters.
pub open spec fn lookups_view(found: Seq<(String, i64)>) -> Seq<(Seq<char>, i64)> {
    found.map_values(|l: (String, i64)| (l.0@, l.1))
}

/// The pull requests a status report is made of: for each target that
/// remembers one, its clone URL and the number; targets without one are left
/// out.
pub fn pull_requests_of(input: &MigrationInput) -> (out: Vec<(String, i64)>)
    ensures
        lookups_view(out@) == lookups(input.targets@, input.targets@.len() as int),
{
    let mut found: Vec<(String, i64)> = Vec::new();
    let mut i: usize = 0;
    assert(lookups_view(found@) =~= lookups(input.targets@, 0));
    while i < input.targets.len()
        invariant
            i <= input.targets@.len(),
            lookups_view(found@) == lookups(input.targets@, i as int),
        decreases input.targets@.len() - i,
    {
        let entry = &input.targets[i];
        let ghost before = found@;
        match &entry.target.pull_request {
            Some(pull) => {
                let lookup = (entry.target.repo.clone(), pull.pr_number);
                found.push(lookup);
                assert(lookups_view(found@) =~= lookups_view(before).push((lookup.0@, lookup.1)));
            },
            None => {},
        }
        i += 1;
    }
    found
}

} // verus!
