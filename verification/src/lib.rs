//! Statement-type extraction for SQL query text.
//!
//! The operation takes the report of a SQL parser on a query — either the
//! statement-type label of each top-level statement, in source order, or a
//! failure — and produces the caller-visible outcome: the labels as owned
//! strings on success, and a single fixed error message on any failure.
//! The caller runs the parser and hands its report over as plain values.

use vstd::prelude::*;

verus! {

/// The fixed message carried by every parse failure.
pub open spec fn error_message() -> Seq<char> {
    "error parsing query"@
}

/// The views of a sequence of borrowed labels.
pub open spec fn borrowed_labels_view(labels: Seq<&str>) -> Seq<Seq<char>> {
    labels.map_values(|label: &str| label@)
}

/// The views of a sequence of owned labels.
pub open spec fn owned_labels_view(labels: Seq<String>) -> Seq<Seq<char>> {
    labels.map_values(|label: String| label@)
}

/// The view of a parser report: the label views when the parser accepted the
/// query, nothing when it failed.
pub open spec fn report_view(report: Option<Vec<&str>>) -> Option<Seq<Seq<char>>> {
    match report {
        Some(labels) => Some(borrowed_labels_view(labels@)),
        None => None,
    }
}

/// The view of an outcome of the operation: the label views on success, the
/// message view on failure.
pub open spec fn outcome_view(outcome: Result<Vec<String>, String>) -> Result<
    Seq<Seq<char>>,
    Seq<char>,
> {
    match outcome {
        Ok(labels) => Ok(owned_labels_view(labels@)),
        Err(message) => Err(message@),
    }
}

/// What the operation returns for a given parser report: the reported labels,
/// unchanged and in order, when the parser accepted the query; the fixed
/// error message otherwise.
pub open spec fn extraction(report: Option<Seq<Seq<char>>>) -> Result<Seq<Seq<char>>, Seq<char>> {
    match report {
        Some(labels) => Ok(labels),
        None => Err(error_message()),
    }
}

/// Copies each borrowed label into an owned string, preserving order and
/// multiplicity.
fn owned_labels(labels: &Vec<&str>) -> (owned: Vec<String>)
    ensures
        owned_labels_view(owned@) == borrowed_labels_view(labels@),
{
    let mut owned: Vec<String> = Vec::new();
    let mut i: usize = 0;
    while i < labels.len()
        invariant
            i <= labels@.len(),
            owned@.len() == i,
            forall|j: int| 0 <= j < i ==> #[trigger] owned@[j]@ == labels@[j]@,
        decreases labels@.len() - i,
    {
        owned.push(String::from_str(labels[i]));
        i = i + 1;
    }
    proof {
        assert forall|j: int| 0 <= j < owned@.len() implies owned_labels_view(owned@)[j]
            == borrowed_labels_view(labels@)[j] by {
            assert(owned@[j]@ == labels@[j]@);
        }
        assert(owned_labels_view(owned@) =~= borrowed_labels_view(labels@));
    }
    owned
}

/// Returns the statement-type labels of the report, one per top-level
/// statement and in source order, or the fixed error message when the parser
/// failed on the query.
pub fn statement_types(report: Option<Vec<&str>>) -> (outcome: Result<Vec<String>, String>)
    ensures
        outcome_view(outcome) == extraction(report_view(report)),
        outcome is Ok <==> report is Some,
{
    match report {
        Some(labels) => Ok(owned_labels(&labels)),
        None => Err(String::from_str("error parsing query")),
    }
}

/// The outcome is a function of the parser's report alone: two invocations
/// on identical reports yield identical outcomes, so the operation keeps no
/// hidden state.
pub proof fn lemma_extraction_deterministic(
    report: Option<Seq<Seq<char>>>,
    first: Result<Seq<Seq<char>>, Seq<char>>,
    second: Result<Seq<Seq<char>>, Seq<char>>,
)
    requires
        first == extraction(report),
        second == extraction(report),
    ensures
        first == second,
{
}

/// Every failure of the parser, whatever its reason, surfaces as the one
/// fixed error value: no report maps to an unhandled fault or to a second
/// error shape.
pub proof fn lemma_failure_collapses(report: Option<Seq<Seq<char>>>)
    requires
        report is None,
    ensures
        extraction(report) == Err::<Seq<Seq<char>>, Seq<char>>(error_message()),
{
}

} // verus!
