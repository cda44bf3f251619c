use vstd::prelude::*;
use crate::text::{push_str, str_eq, string_of};

verus! {

/// Feedback: the citation helped.
pub const FEEDBACK_POSITIVE: &'static str = "positive";

/// Feedback: the citation was wrong or off topic.
pub const FEEDBACK_NEGATIVE: &'static str = "negative";

/// Feedback: the citation is irrelevant.
pub const FEEDBACK_IRRELEVANT: &'static str = "irrelevant";

pub open spec fn valid_feedback(f: Seq<char>) -> bool {
    f == "positive"@ || f == "negative"@ || f == "irrelevant"@
}

/// Checks a feedback value: none (clearing the feedback) or one of the
/// three known values; anything else is refused with a message naming it.
pub fn validate_feedback(fb: Option<&str>) -> (r: Result<(), String>)
    ensures
        match fb {
            None => r is Ok,
            Some(f) => if valid_feedback(f@) {
                r is Ok
            } else {
                r matches Err(m) && m@ == "Invalid feedback value: "@ + f@
                    + " (expected positive/negative/irrelevant)"@
            },
        },
{
    match fb {
        None => Ok(()),
        Some(f) => {
            if str_eq(f, FEEDBACK_POSITIVE) || str_eq(f, FEEDBACK_NEGATIVE) || str_eq(f, FEEDBACK_IRRELEVANT) {
                Ok(())
            } else {
                let mut m = string_of("Invalid feedback value: ");
                push_str(&mut m, f);
                push_str(&mut m, " (expected positive/negative/irrelevant)");
                Err(m)
            }
        },
    }
}

/// Filter of the feedback statistics query.
#[derive(Debug)]
pub struct FeedbackStatsQuery {
    /// Only this knowledge base (all when absent).
    pub knowledge_base_id: Option<String>,
    /// Only hits since this Unix second (any time when absent).
    pub since: Option<i64>,
}

/// The knowledge base and start time a statistics query asks for.
pub fn stats_filter(query: Option<FeedbackStatsQuery>) -> (r: (Option<String>, Option<i64>))
    ensures
        match query {
            Some(q) => r.0 == q.knowledge_base_id && r.1 == q.since,
            None => r.0 is None && r.1 is None,
        },
{
    match query {
        Some(q) => (q.knowledge_base_id, q.since),
        None => (None, None),
    }
}

/// What locates a retrieval hit from a citation.
#[derive(Debug)]
pub struct HitRef {
    pub id: String,
    pub document_id: String,
    pub chunk_ref: String,
}

/// Index of the first hit citing `document_id` / `chunk_ref`, if any.
pub fn find_hit_by_ref(hits: &Vec<HitRef>, document_id: &str, chunk_ref: &str) -> (r: Option<usize>)
    ensures
        match r {
            Some(i) => i < hits.len() && hits@[i as int].document_id@ == document_id@
                && hits@[i as int].chunk_ref@ == chunk_ref@ && forall|j: int|
                0 <= j < i ==> !(hits@[j].document_id@ == document_id@ && hits@[j].chunk_ref@
                    == chunk_ref@),
            None => forall|j: int|
                0 <= j < hits.len() ==> !(hits@[j].document_id@ == document_id@ && #[trigger] hits@[j].chunk_ref@
                    == chunk_ref@),
        },
{
    let mut i: usize = 0;
    while i < hits.len()
        invariant
            i <= hits.len(),
            forall|j: int|
                0 <= j < i ==> !(hits@[j].document_id@ == document_id@ && #[trigger] hits@[j].chunk_ref@
                    == chunk_ref@),
        decreases hits.len() - i,
    {
        if str_eq(hits[i].document_id.as_str(), document_id) && str_eq(hits[i].chunk_ref.as_str(), chunk_ref) {
            return Some(i);
        }
        i = i + 1;
    }
    None
}

} // verus!
