//! The run-level view of the orchestrator: which releases are in scope
//! before any I/O happens, and the join of every release's outcome into one
//! result that keeps every failure, never just the first.

use vstd::prelude::*;

use crate::release::{is_release_in_versions, Release};
use crate::search::{SlotFailure, SlotSearch};
use crate::version::{scope_of, Version, VersionError};

verus! {

/// Whether a release is in scope for signature checking.
pub open spec fn release_in_scope(rel: Release, known: Seq<Version>, skip: Seq<String>) -> bool {
    scope_of(rel.version_view(), known, skip) == Some(true)
}

/// The scope filter as a predicate on releases.
pub open spec fn scope_pred(known: Seq<Version>, skip: Seq<String>) -> spec_fn(Release) -> bool {
    |rel: Release| release_in_scope(rel, known, skip)
}

/// One unfolding of `filter` along a growing prefix.
proof fn lemma_filter_take_step<A>(s: Seq<A>, pred: spec_fn(A) -> bool, i: int)
    requires
        0 <= i < s.len(),
    ensures
        s.take(i + 1).filter(pred) == if pred(s[i]) {
            s.take(i).filter(pred).push(s[i])
        } else {
            s.take(i).filter(pred)
        },
{
    reveal(Seq::filter);
    assert(s.take(i + 1).drop_last() =~= s.take(i));
    assert(s.take(i + 1).last() == s[i]);
}

/// Selects the releases in scope. The filter runs before any fetch: a
/// release missing from the result never reaches the signature store. An
/// unparseable version string is a hard error for the whole run.
pub fn releases_in_scope(releases: &Vec<Release>, known: &Vec<Version>, skip: &Vec<String>) -> (r:
    Result<Vec<Release>, VersionError>)
    ensures
        r is Ok <==> (forall|i: int|
            0 <= i < releases@.len() ==> scope_of(
                (#[trigger] releases@[i]).version_view(),
                known@,
                skip@,
            ) is Some),
        r matches Ok(sel) ==> sel@ == releases@.filter(scope_pred(known@, skip@)),
        r matches Err(e) ==> exists|i: int|
            {
                &&& 0 <= i < releases@.len()
                &&& forall|j: int|
                    0 <= j < i ==> scope_of(
                        (#[trigger] releases@[j]).version_view(),
                        known@,
                        skip@,
                    ) is Some
                &&& scope_of((#[trigger] releases@[i]).version_view(), known@, skip@) is None
                &&& e.version@ == releases@[i].version_view()
            },
{
    let ghost pred = scope_pred(known@, skip@);
    let mut selected: Vec<Release> = Vec::new();
    let mut i: usize = 0;
    while i < releases.len()
        invariant
            0 <= i <= releases@.len(),
            forall|j: int|
                0 <= j < i ==> scope_of(
                    (#[trigger] releases@[j]).version_view(),
                    known@,
                    skip@,
                ) is Some,
            selected@ == releases@.take(i as int).filter(pred),
            pred == scope_pred(known@, skip@),
        decreases releases@.len() - i,
    {
        let rel = &releases[i];
        match is_release_in_versions(known, rel, skip) {
            Ok(true) => {
                selected.push(rel.duplicate());
            },
            Ok(false) => {},
            Err(e) => {
                assert(scope_of(releases@[i as int].version_view(), known@, skip@) is None);
                return Err(e);
            },
        }
        proof {
            lemma_filter_take_step(releases@, pred, i as int);
        }
        i = i + 1;
    }
    proof {
        assert(releases@.take(releases@.len() as int) =~= releases@);
    }
    Ok(selected)
}

/// How the search for one release ended.
#[derive(Debug)]
pub enum Outcome {
    Verified,
    /// Every slot up to the bound failed; the per-slot errors, in slot
    /// order, reproduce the diagnosis without re-running.
    Exhausted { failures: Vec<SlotFailure> },
}

/// One release's outcome, labelled with its version.
#[derive(Debug)]
pub struct ReleaseOutcome {
    pub version: String,
    pub outcome: Outcome,
}

/// The run passes iff every in-scope release verified; otherwise it carries
/// the full list of failed releases.
#[derive(Debug)]
pub enum RunResult {
    AllVerified,
    Failed { failed: Vec<ReleaseOutcome> },
}

/// Packs an ended search into the outcome for its release.
pub fn outcome_of_search(search: SlotSearch, version: String) -> (r: ReleaseOutcome)
    requires
        search.wf(),
        !search.searching(),
    ensures
        r.version@ == version@,
        search.is_verified() ==> r.outcome is Verified,
        search.exhausted() ==> (r.outcome matches Outcome::Exhausted { failures } && failures@
            == search.failures_view()),
{
    if search.was_verified() {
        ReleaseOutcome { version, outcome: Outcome::Verified }
    } else {
        ReleaseOutcome { version, outcome: Outcome::Exhausted { failures: search.take_failures() } }
    }
}

/// The outcomes that fail a run.
pub open spec fn failed_pred() -> spec_fn(ReleaseOutcome) -> bool {
    |o: ReleaseOutcome| !(o.outcome is Verified)
}

/// Joins every release's outcome into the run result: success exactly when
/// all searches ended verified, and otherwise every failed release's detail
/// is kept — no short-circuit on the first failure.
pub fn aggregate(outcomes: Vec<ReleaseOutcome>) -> (r: RunResult)
    ensures
        r is AllVerified <==> (forall|i: int|
            0 <= i < outcomes@.len() ==> (#[trigger] outcomes@[i]).outcome is Verified),
        r matches RunResult::Failed { failed } ==> {
            &&& failed@ == outcomes@.filter(failed_pred())
            &&& failed@.len() > 0
        },
{
    let ghost orig = outcomes@;
    let mut remaining = outcomes;
    let mut failed: Vec<ReleaseOutcome> = Vec::new();
    let mut all_ok = true;
    while remaining.len() > 0
        invariant
            remaining@ =~= orig.skip(orig.len() - remaining@.len()),
            remaining@.len() <= orig.len(),
            failed@ == orig.take(orig.len() - remaining@.len()).filter(failed_pred()),
            all_ok == (forall|j: int|
                0 <= j < orig.len() - remaining@.len() ==> (#[trigger] orig[j]).outcome
                    is Verified),
        decreases remaining@.len(),
    {
        let ghost k = orig.len() - remaining@.len();
        let o = remaining.remove(0);
        assert(o == orig[k]);
        proof {
            assert(remaining@ =~= orig.skip(k + 1));
            lemma_filter_take_step(orig, failed_pred(), k);
        }
        match &o.outcome {
            Outcome::Verified => {},
            Outcome::Exhausted { .. } => {
                all_ok = false;
                failed.push(o);
            },
        }
    }
    proof {
        assert(orig.take(orig.len() as int) =~= orig);
    }
    if all_ok {
        RunResult::AllVerified
    } else {
        proof {
            let j = choose|j: int|
                0 <= j < orig.len() && !((#[trigger] orig[j]).outcome is Verified);
            orig.lemma_filter_contains(failed_pred(), j);
        }
        RunResult::Failed { failed }
    }
}

} // verus!
