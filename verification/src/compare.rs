use vstd::prelude::*;
use vstd::string::*;

use crate::text::{trim, trimmed};

verus! {

/// One line of a line-by-line comparison of an expected text (left) with an
/// actual text (right).
#[derive(Clone, Debug, PartialEq, Eq)]
pub enum DiffLine {
    /// The line is in the expected text only.
    Removed(String),
    /// The line is in both texts.
    Common(String),
    /// The line is in the actual text only.
    Added(String),
}

/// A line of a comparison as plain values.
pub enum DiffLineView {
    Removed(Seq<char>),
    Common(Seq<char>),
    Added(Seq<char>),
}

impl View for DiffLine {
    type V = DiffLineView;

    open spec fn view(&self) -> DiffLineView {
        match self {
            DiffLine::Removed(l) => DiffLineView::Removed(l@),
            DiffLine::Common(l) => DiffLineView::Common(l@),
            DiffLine::Added(l) => DiffLineView::Added(l@),
        }
    }
}

impl DeepView for DiffLine {
    type V = DiffLineView;

    open spec fn deep_view(&self) -> DiffLineView {
        self@
    }
}

/// The line-by-line comparison of `left` with `right` that `diff::lines`
/// computes.
pub uninterp spec fn line_diff(left: Seq<char>, right: Seq<char>) -> Seq<DiffLineView>;

/// Whether two texts can be compared line by line. The comparison fills a
/// table with a row for each line of the one text and a column for each line
/// of the other, and a text has no more lines than characters: the table
/// must not outgrow what the machine can address.
pub open spec fn comparable(left: Seq<char>, right: Seq<char>) -> bool {
    (left.len() + 2) * (right.len() + 2) <= usize::MAX
}

/// `diff::lines`: the comparison of the lines of two texts, each line marked
/// as left only, right only or common; of a common line the left copy is
/// kept. The texts must be small enough for the index arithmetic of the
/// table that `diff::lines` fills. Trusted.
#[verifier::external_body]
fn diff_lines(left: &str, right: &str) -> (lines: Vec<DiffLine>)
    requires
        comparable(left@, right@),
    ensures
        lines.deep_view() == line_diff(left@, right@),
{
    let mut lines = Vec::new();
    for line in diff::lines(left, right) {
        lines.push(
            match line {
                diff::Result::Left(l) => DiffLine::Removed(l.to_string()),
                diff::Result::Both(l, _) => DiffLine::Common(l.to_string()),
                diff::Result::Right(r) => DiffLine::Added(r.to_string()),
            },
        );
    }
    lines
}

/// A line of a comparison as the client is shown it: `- ` before a removed
/// line, `+ ` before an added one, two spaces before a common one.
pub open spec fn rendered(line: DiffLineView) -> Seq<char> {
    match line {
        DiffLineView::Removed(l) => "- "@ + l,
        DiffLineView::Common(l) => "  "@ + l,
        DiffLineView::Added(l) => "+ "@ + l,
    }
}

/// The lines of a comparison as the client is shown them, in order.
pub open spec fn rendered_all(lines: Seq<DiffLineView>) -> Seq<Seq<char>> {
    Seq::new(lines.len(), |i: int| rendered(lines[i]))
}

impl DiffLine {
    /// The line as the client is shown it.
    pub fn render(&self) -> (text: String)
        ensures
            text@ == rendered(self@),
    {
        match self {
            DiffLine::Removed(l) => {
                let mut text = String::from_str("- ");
                text.append(l.as_str());
                text
            },
            DiffLine::Common(l) => {
                let mut text = String::from_str("  ");
                text.append(l.as_str());
                text
            },
            DiffLine::Added(l) => {
                let mut text = String::from_str("+ ");
                text.append(l.as_str());
                text
            },
        }
    }
}

/// Compares the expected output with the actual output line by line, both
/// without the white space at their ends. Texts that are too large to be
/// compared are not compared.
pub fn differences(expected: &str, actual: &str) -> (lines: Option<Vec<DiffLine>>)
    ensures
        lines is Some <==> comparable(trimmed(expected@), trimmed(actual@)),
        lines matches Some(found) ==> found.deep_view() == line_diff(
            trimmed(expected@),
            trimmed(actual@),
        ),
{
    let left = trim(expected);
    let right = trim(actual);
    let rows = left.unicode_len().checked_add(2);
    let columns = right.unicode_len().checked_add(2);
    match (rows, columns) {
        (Some(rows), Some(columns)) => match rows.checked_mul(columns) {
            Some(_) => Some(diff_lines(left, right)),
            None => None,
        },
        _ => {
            assert(!comparable(left@, right@)) by (nonlinear_arith)
                requires
                    left@.len() + 2 > usize::MAX || right@.len() + 2 > usize::MAX,
            ;
            None
        },
    }
}

/// Renders every line of a comparison.
pub fn render_all(lines: &Vec<DiffLine>) -> (texts: Vec<String>)
    ensures
        texts.deep_view() == rendered_all(lines.deep_view()),
{
    let mut texts: Vec<String> = Vec::new();
    let mut i: usize = 0;
    while i < lines.len()
        invariant
            i <= lines.len(),
            texts.len() == i,
            forall|j: int| 0 <= j < i ==> texts[j]@ == rendered(#[trigger] lines[j]@),
        decreases lines.len() - i,
    {
        texts.push(lines[i].render());
        i = i + 1;
    }
    assert(texts.deep_view() =~= rendered_all(lines.deep_view()));
    texts
}

} // verus!
