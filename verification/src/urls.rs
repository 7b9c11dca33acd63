//! Address lists: decoding the model's proposal, removing repetitions, and
//! keeping what the probes confirmed.

use vstd::prelude::*;
use crate::agent_traits::{texts, ProbeOutcome};
use crate::errors::StageError;

verus! {

/// The error type of `serde_json`.
#[verifier::external_type_specification]
#[verifier::external_body]
pub struct ExJsonError(serde_json::Error);

/// What `serde_json::from_str` makes of a text when it is asked for a list
/// of strings: the list, or `None` where it reports an error.
pub uninterp spec fn json_string_list(text: Seq<char>) -> Option<Seq<Seq<char>>>;

/// Calls `serde_json::from_str` for a `Vec<String>`. The parser reads the
/// text alone, so its answer is a function of the text; nothing more is
/// claimed of it.
#[verifier::external_body]
fn parse_string_list(text: &str) -> (parsed: Result<Vec<String>, serde_json::Error>)
    ensures
        match parsed {
            Ok(list) => json_string_list(text@) == Some(texts(list@)),
            Err(_) => json_string_list(text@) is None,
        },
{
    serde_json::from_str::<Vec<String>>(text)
}

/// Decodes the model's reply to a request for addresses: a JSON array of
/// strings. Any other text is a decode error.
pub fn decode_site_urls(text: &str) -> (decoded: Result<Vec<String>, StageError>)
    ensures
        match decoded {
            Ok(list) => json_string_list(text@) == Some(texts(list@)),
            Err(error) => json_string_list(text@) is None && error == StageError::Decode,
        },
{
    match parse_string_list(text) {
        Ok(list) => Ok(list),
        Err(_) => Err(StageError::Decode),
    }
}

/// A status code in the success class.
pub open spec fn is_success(code: u16) -> bool {
    200 <= code <= 299
}

/// The probe was answered, and with success.
pub open spec fn probe_succeeded(outcome: ProbeOutcome) -> bool {
    outcome matches ProbeOutcome::Status(code) && is_success(code)
}

/// The probe was answered, and without success. A probe that got no answer
/// has neither succeeded nor failed.
pub open spec fn probe_failed(outcome: ProbeOutcome) -> bool {
    outcome matches ProbeOutcome::Status(code) && !is_success(code)
}

impl ProbeOutcome {
    /// Whether the probe was answered with success.
    pub fn succeeded(&self) -> (yes: bool)
        ensures
            yes == probe_succeeded(*self),
    {
        match self {
            ProbeOutcome::Status(code) => 200 <= *code && *code <= 299,
            ProbeOutcome::NoAnswer => false,
        }
    }

    /// Whether the probe was answered without success.
    pub fn failed(&self) -> (yes: bool)
        ensures
            yes == probe_failed(*self),
    {
        match self {
            ProbeOutcome::Status(code) => !(200 <= *code && *code <= 299),
            ProbeOutcome::NoAnswer => false,
        }
    }
}

/// A list without its repetitions: each text stays where it first stood.
pub open spec fn distinct_texts(list: Seq<Seq<char>>) -> Seq<Seq<char>>
    decreases list.len(),
{
    if list.len() == 0 {
        Seq::empty()
    } else {
        let before = distinct_texts(list.drop_last());
        if before.contains(list.last()) {
            before
        } else {
            before.push(list.last())
        }
    }
}

/// The candidates whose probe succeeded, in the order of the candidates.
/// The outcome at an index belongs to the candidate at that index; a
/// candidate without an outcome is not kept.
pub open spec fn retained_urls(candidates: Seq<Seq<char>>, outcomes: Seq<ProbeOutcome>) -> Seq<
    Seq<char>,
>
    decreases candidates.len(),
{
    if candidates.len() == 0 {
        Seq::empty()
    } else {
        let before = retained_urls(candidates.drop_last(), outcomes);
        let at = candidates.len() - 1;
        if at < outcomes.len() && probe_succeeded(outcomes[at]) {
            before.push(candidates.last())
        } else {
            before
        }
    }
}

/// Whether `list` holds the text of `wanted`.
pub fn holds_text(list: &Vec<String>, wanted: &String) -> (found: bool)
    ensures
        found == texts(list@).contains(wanted@),
{
    let mut i: usize = 0;
    while i < list.len()
        invariant
            i <= list.len(),
            forall|k: int| 0 <= k < i ==> list[k]@ != wanted@,
        decreases list.len() - i,
    {
        if list[i] == *wanted {
            assert(texts(list@)[i as int] == wanted@);
            return true;
        }
        i += 1;
    }
    assert forall|k: int| 0 <= k < texts(list@).len() implies texts(list@)[k] != wanted@ by {
        assert(texts(list@)[k] == list[k]@);
    }
    false
}

/// Removes the repetitions from a list of addresses. The order of first
/// occurrence is kept.
pub fn dedup_urls(candidates: &Vec<String>) -> (distinct: Vec<String>)
    ensures
        texts(distinct@) == distinct_texts(texts(candidates@)),
{
    let ghost all = texts(candidates@);
    let mut distinct: Vec<String> = Vec::new();
    let mut i: usize = 0;
    while i < candidates.len()
        invariant
            i <= candidates.len(),
            all == texts(candidates@),
            texts(distinct@) == distinct_texts(all.take(i as int)),
        decreases candidates.len() - i,
    {
        assert(all.take(i + 1).drop_last() =~= all.take(i as int));
        if !holds_text(&distinct, &candidates[i]) {
            distinct.push(candidates[i].clone());
        }
        i += 1;
    }
    assert(all.take(i as int) =~= all);
    distinct
}

/// Keeps the candidates whose probe succeeded. The order of the candidates
/// is kept.
pub fn retain_valid_urls(candidates: &Vec<String>, outcomes: &Vec<ProbeOutcome>) -> (kept: Vec<
    String,
>)
    ensures
        texts(kept@) == retained_urls(texts(candidates@), outcomes@),
{
    let ghost all = texts(candidates@);
    let mut kept: Vec<String> = Vec::new();
    let mut i: usize = 0;
    while i < candidates.len()
        invariant
            i <= candidates.len(),
            all == texts(candidates@),
            texts(kept@) == retained_urls(all.take(i as int), outcomes@),
        decreases candidates.len() - i,
    {
        assert(all.take(i + 1).drop_last() =~= all.take(i as int));
        if i < outcomes.len() && outcomes[i].succeeded() {
            kept.push(candidates[i].clone());
        }
        i += 1;
    }
    assert(all.take(i as int) =~= all);
    kept
}

/// The index of the first probe that failed, or `None` where none did.
pub open spec fn first_failure(outcomes: Seq<ProbeOutcome>) -> Option<int>
    decreases outcomes.len(),
{
    if outcomes.len() == 0 {
        None
    } else {
        match first_failure(outcomes.drop_last()) {
            Some(at) => Some(at),
            None => if probe_failed(outcomes.last()) {
                Some(outcomes.len() - 1)
            } else {
                None
            },
        }
    }
}

/// A failure found among the first probes of a list is the first failure
/// of the whole list.
proof fn lemma_first_failure_stays(outcomes: Seq<ProbeOutcome>, upto: int)
    requires
        0 <= upto <= outcomes.len(),
        first_failure(outcomes.take(upto)) is Some,
    ensures
        first_failure(outcomes) == first_failure(outcomes.take(upto)),
    decreases outcomes.len() - upto,
{
    if upto == outcomes.len() {
        assert(outcomes.take(upto) =~= outcomes);
    } else {
        assert(outcomes.take(upto + 1).drop_last() =~= outcomes.take(upto));
        lemma_first_failure_stays(outcomes, upto + 1);
    }
}

/// Finds the first probe that failed.
pub fn first_failed_probe(outcomes: &Vec<ProbeOutcome>) -> (first: Option<usize>)
    ensures
        match first {
            Some(at) => first_failure(outcomes@) == Some(at as int),
            None => first_failure(outcomes@) is None,
        },
{
    let mut i: usize = 0;
    while i < outcomes.len()
        invariant
            i <= outcomes.len(),
            first_failure(outcomes@.take(i as int)) is None,
        decreases outcomes.len() - i,
    {
        assert(outcomes@.take(i + 1).drop_last() =~= outcomes@.take(i as int));
        if outcomes[i].failed() {
            proof {
                lemma_first_failure_stays(outcomes@, i + 1);
            }
            return Some(i);
        }
        i += 1;
    }
    assert(outcomes@.take(i as int) =~= outcomes@);
    None
}

/// The first failure is a probe that failed, and no probe before it did;
/// where there is none, no probe failed.
pub proof fn lemma_first_failure(outcomes: Seq<ProbeOutcome>)
    ensures
        match first_failure(outcomes) {
            Some(at) => 0 <= at < outcomes.len() && probe_failed(outcomes[at]) && forall|k: int|
                0 <= k < at ==> !probe_failed(#[trigger] outcomes[k]),
            None => forall|k: int| 0 <= k < outcomes.len() ==> !probe_failed(#[trigger] outcomes[k]),
        },
    decreases outcomes.len(),
{
    if outcomes.len() > 0 {
        lemma_first_failure(outcomes.drop_last());
        assert forall|k: int| 0 <= k < outcomes.len() - 1 implies outcomes.drop_last()[k]
            == outcomes[k] by {}
        match first_failure(outcomes.drop_last()) {
            Some(at) => {
                assert(outcomes.drop_last()[at] == outcomes[at]);
                assert forall|k: int| 0 <= k < at implies !probe_failed(
                    #[trigger] outcomes[k],
                ) by {
                    assert(outcomes.drop_last()[k] == outcomes[k]);
                }
            },
            None => {
                assert forall|k: int| 0 <= k < outcomes.len() - 1 implies !probe_failed(
                    #[trigger] outcomes[k],
                ) by {
                    assert(outcomes.drop_last()[k] == outcomes[k]);
                }
            },
        }
    }
}

/// What stays of a list is free of repetitions and holds exactly the texts
/// of the list.
pub proof fn lemma_distinct_texts(list: Seq<Seq<char>>)
    ensures
        distinct_texts(list).no_duplicates(),
        forall|text: Seq<char>| distinct_texts(list).contains(text) <==> list.contains(text),
    decreases list.len(),
{
    if list.len() > 0 {
        let before = distinct_texts(list.drop_last());
        lemma_distinct_texts(list.drop_last());
        assert forall|text: Seq<char>| distinct_texts(list).contains(text) <==> list.contains(
            text,
        ) by {
            if list.contains(text) {
                let at = choose|at: int| 0 <= at < list.len() && list[at] == text;
                if at < list.len() - 1 {
                    assert(list.drop_last()[at] == text);
                    assert(list.drop_last().contains(text));
                    assert(before.contains(text));
                    let found = choose|k: int| 0 <= k < before.len() && before[k] == text;
                    assert(distinct_texts(list)[found] == text);
                } else {
                    if !before.contains(text) {
                        assert(distinct_texts(list)[before.len() as int] == text);
                    }
                }
            }
            if distinct_texts(list).contains(text) {
                let at = choose|at: int|
                    0 <= at < distinct_texts(list).len() && distinct_texts(list)[at] == text;
                if at < before.len() {
                    assert(before[at] == text);
                    assert(before.contains(text));
                    assert(list.drop_last().contains(text));
                    let found = choose|k: int|
                        0 <= k < list.drop_last().len() && list.drop_last()[k] == text;
                    assert(list[found] == text);
                } else {
                    assert(list[list.len() - 1] == text);
                }
            }
        }
    }
}

/// Every address that is kept was a candidate whose probe succeeded, and
/// every candidate whose probe succeeded is kept.
pub proof fn lemma_retained_urls(candidates: Seq<Seq<char>>, outcomes: Seq<ProbeOutcome>)
    ensures
        forall|text: Seq<char>|
            retained_urls(candidates, outcomes).contains(text) <==> exists|at: int|
                0 <= at < candidates.len() && at < outcomes.len() && #[trigger] candidates[at]
                    == text && probe_succeeded(outcomes[at]),
    decreases candidates.len(),
{
    if candidates.len() > 0 {
        let shorter = candidates.drop_last();
        let before = retained_urls(shorter, outcomes);
        let kept = retained_urls(candidates, outcomes);
        let last = candidates.len() - 1;
        lemma_retained_urls(shorter, outcomes);
        assert forall|text: Seq<char>| kept.contains(text) <==> exists|at: int|
            0 <= at < candidates.len() && at < outcomes.len() && #[trigger] candidates[at] == text
                && probe_succeeded(outcomes[at]) by {
            if kept.contains(text) {
                let k = choose|k: int| 0 <= k < kept.len() && kept[k] == text;
                if k < before.len() {
                    assert(before[k] == text);
                    assert(before.contains(text));
                    let at = choose|at: int|
                        0 <= at < shorter.len() && at < outcomes.len() && #[trigger] shorter[at]
                            == text && probe_succeeded(outcomes[at]);
                    assert(candidates[at] == text);
                } else {
                    assert(candidates[last] == text);
                }
            }
            if exists|at: int|
                0 <= at < candidates.len() && at < outcomes.len() && #[trigger] candidates[at]
                    == text && probe_succeeded(outcomes[at]) {
                let at = choose|at: int|
                    0 <= at < candidates.len() && at < outcomes.len() && #[trigger] candidates[at]
                        == text && probe_succeeded(outcomes[at]);
                if at < last {
                    assert(shorter[at] == text);
                    assert(before.contains(text));
                    let k = choose|k: int| 0 <= k < before.len() && before[k] == text;
                    assert(kept[k] == text);
                } else {
                    assert(kept[kept.len() - 1] == text);
                }
            }
        }
    }
}

} // verus!
