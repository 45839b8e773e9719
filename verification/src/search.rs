//! The per-release slot search: candidate signature slots are numbered from
//! 1 up to a configured bound, tried strictly in increasing order, each slot
//! fetched by the caller and verified here; the first verified slot ends the
//! search, and an exhausted search keeps every slot's failure for diagnosis.

use vstd::prelude::*;

use crate::keyring::Keyring;
use crate::release::{digest_from_release, digest_of_payload, Release, ReleaseError};
use crate::signature::{verify_ok, verify_result_matches, verify_signature, VerifyError};
use crate::text::{dec_digits, replace_char, replace_char_in, u64_to_dec};
use pgp::composed::signed_key::SignedPublicKey;

verus! {

/// What the caller's fetch of one slot produced. A non-success HTTP status
/// is `NotFound`; connection failures, timeouts and malformed URLs are
/// `Transport`. Neither aborts the run: both just fail the slot.
#[derive(Debug)]
pub enum FetchOutcome {
    Fetched { body: Vec<u8> },
    NotFound,
    Transport { detail: String },
}

/// Why one slot failed.
#[derive(Debug)]
pub enum SlotError {
    /// The store has no artifact at this slot.
    NotFound,
    /// The fetch itself failed.
    Transport { detail: String },
    /// The artifact was fetched but did not verify.
    Verify { error: VerifyError },
}

/// One failed attempt, labelled with its slot number.
#[derive(Debug)]
pub struct SlotFailure {
    pub slot: u64,
    pub error: SlotError,
}

/// The digest is transformed into a store path segment by replacing `:`
/// with `=` (store convention `algo=hex`).
pub fn transform_digest(digest: &String) -> (r: String)
    ensures
        r@ == replace_char(digest@, ':', '='),
{
    replace_char_in(digest, ':', '=')
}

/// The store URL for the candidate signature of `digest` at `slot`:
/// `base_url/<digest with ":" replaced by "=">/signature-<slot>`.
pub open spec fn slot_url(base: Seq<char>, digest: Seq<char>, slot: int) -> Seq<char> {
    base + seq!['/'] + replace_char(digest, ':', '=') + "/signature-"@ + dec_digits(slot as nat)
}

/// Starts the slot search for one release: the digest to vouch for is cut
/// out of the release's payload reference. An abstract release has no
/// payload and cannot be searched.
pub fn search_for_release(release: &Release, max_slots: u64) -> (r: Result<
    SlotSearch,
    ReleaseError,
>)
    requires
        1 <= max_slots < u64::MAX,
    ensures
        (match release {
            Release::Concrete { payload, .. } => {
                &&& r matches Ok(s)
                &&& s.wf()
                &&& s.searching()
                &&& s.next() == 1
                &&& s.max() == max_slots as int
                &&& s.digest_view() == digest_of_payload(payload@)
            },
            Release::Abstract { version } => r matches Err(e)
                && e matches ReleaseError::NotConcrete { version: v } && v@ == version@,
        }),
{
    let digest = digest_from_release(release)?;
    Ok(SlotSearch::new(digest, max_slots))
}

/// The search for one release's signature. The state is `Searching(slot)`
/// until either a slot verifies (`Verified`, terminal) or the bounded slot
/// space is exhausted (`Exhausted`, terminal, carrying every slot's
/// failure in order).
pub struct SlotSearch {
    digest: String,
    max_slots: u64,
    next_slot: u64,
    verified: bool,
    failures: Vec<SlotFailure>,
}

impl SlotSearch {
    /// The digest this search wants vouched for.
    pub closed spec fn digest_view(&self) -> Seq<char> {
        self.digest@
    }

    /// The configured slot bound.
    pub closed spec fn max(&self) -> int {
        self.max_slots as int
    }

    /// The slot the search will try next (1-based); when the search ended
    /// in success, the slot that verified.
    pub closed spec fn next(&self) -> int {
        self.next_slot as int
    }

    pub closed spec fn is_verified(&self) -> bool {
        self.verified
    }

    /// The failures recorded so far, one per attempted-and-failed slot.
    pub closed spec fn failures_view(&self) -> Seq<SlotFailure> {
        self.failures@
    }

    /// The state invariant: slots are attempted in order starting at 1, one
    /// recorded failure per failed slot, and a success happens at a slot
    /// within the bound.
    pub open spec fn wf(&self) -> bool {
        &&& self.max() < u64::MAX
        &&& 1 <= self.next() <= self.max() + 1
        &&& self.failures_view().len() == self.next() - 1
        &&& forall|j: int|
            0 <= j < self.failures_view().len() ==> (#[trigger] self.failures_view()[j]).slot == j
                + 1
        &&& (self.is_verified() ==> self.next() <= self.max())
    }

    /// Still probing: no success yet and slots remain.
    pub open spec fn searching(&self) -> bool {
        !self.is_verified() && self.next() <= self.max()
    }

    /// Terminal failure: every slot up to the bound failed.
    pub open spec fn exhausted(&self) -> bool {
        !self.is_verified() && self.next() > self.max()
    }

    /// How many slots have been fetched and judged so far.
    pub open spec fn attempts(&self) -> int {
        self.failures_view().len() + if self.is_verified() {
            1int
        } else {
            0int
        }
    }

    /// Starts the search for `digest` at slot 1.
    pub fn new(digest: String, max_slots: u64) -> (r: SlotSearch)
        requires
            1 <= max_slots < u64::MAX,
        ensures
            r.wf(),
            r.searching(),
            r.next() == 1,
            r.max() == max_slots as int,
            r.digest_view() == digest@,
            r.attempts() == 0,
    {
        SlotSearch { digest, max_slots, next_slot: 1, verified: false, failures: Vec::new() }
    }

    /// The slot to fetch next.
    pub fn current_slot(&self) -> (r: u64)
        requires
            self.wf(),
            self.searching(),
        ensures
            r as int == self.next(),
    {
        self.next_slot
    }

    /// Whether the search has ended, in success or exhaustion. A terminal
    /// search admits no further step, so slots past a verified one are
    /// never probed.
    pub fn is_done(&self) -> (r: bool)
        requires
            self.wf(),
        ensures
            r == !self.searching(),
    {
        self.verified || self.next_slot > self.max_slots
    }

    pub fn was_verified(&self) -> (r: bool)
        ensures
            r == self.is_verified(),
    {
        self.verified
    }

    /// The URL the caller must fetch for the current slot.
    pub fn request_url(&self, base_url: &String) -> (r: String)
        requires
            self.wf(),
            self.searching(),
        ensures
            r@ == slot_url(base_url@, self.digest_view(), self.next()),
    {
        let mut url = base_url.clone();
        url.append("/");
        let seg = transform_digest(&self.digest);
        url.append(seg.as_str());
        url.append("/signature-");
        let slot = u64_to_dec(self.next_slot);
        url.append(slot.as_str());
        proof {
            reveal_strlit("/");
            assert(("/")@ =~= seq!['/']);
            assert(url@ =~= slot_url(base_url@, self.digest_view(), self.next()));
        }
        url
    }

    /// Whether a fetch outcome settles the current slot in success: the
    /// artifact came back and verifies for this search's digest.
    pub open spec fn slot_success(
        keys: Seq<SignedPublicKey>,
        digest: Seq<char>,
        outcome: FetchOutcome,
    ) -> bool {
        outcome matches FetchOutcome::Fetched { body } && verify_ok(keys, body@, digest)
    }

    /// How a fetch outcome is recorded when the slot fails.
    pub open spec fn slot_failure_error(
        keys: Seq<SignedPublicKey>,
        digest: Seq<char>,
        outcome: FetchOutcome,
        e: SlotError,
    ) -> bool {
        match outcome {
            FetchOutcome::NotFound => e is NotFound,
            FetchOutcome::Transport { detail } => e matches SlotError::Transport { detail: d }
                && d@ == detail@,
            FetchOutcome::Fetched { body } => e matches SlotError::Verify { error }
                && verify_result_matches(keys, body@, digest, Err(error)),
        }
    }

    /// Judges the current slot from the caller's fetch outcome: on a
    /// verifying artifact the search ends in success at this slot and
    /// nothing is recorded; on any failure the slot's error is appended and
    /// the search advances.
    pub fn step(&mut self, keyring: &Keyring, outcome: FetchOutcome)
        requires
            old(self).wf(),
            old(self).searching(),
        ensures
            final(self).wf(),
            final(self).digest_view() == old(self).digest_view(),
            final(self).max() == old(self).max(),
            if Self::slot_success(keyring@, old(self).digest_view(), outcome) {
                &&& final(self).is_verified()
                &&& final(self).next() == old(self).next()
                &&& final(self).failures_view() == old(self).failures_view()
            } else {
                &&& !final(self).is_verified()
                &&& final(self).next() == old(self).next() + 1
                &&& final(self).failures_view().len() == old(self).failures_view().len() + 1
                &&& final(self).failures_view().drop_last() == old(self).failures_view()
                &&& final(self).failures_view().last().slot as int == old(self).next()
                &&& Self::slot_failure_error(
                    keyring@,
                    old(self).digest_view(),
                    outcome,
                    final(self).failures_view().last().error,
                )
            },
    {
        let slot = self.next_slot;
        let error: SlotError = match outcome {
            FetchOutcome::Fetched { body } => {
                match verify_signature(keyring, &body, &self.digest) {
                    Ok(_) => {
                        self.verified = true;
                        return ;
                    },
                    Err(e) => SlotError::Verify { error: e },
                }
            },
            FetchOutcome::NotFound => SlotError::NotFound,
            FetchOutcome::Transport { detail } => SlotError::Transport { detail },
        };
        self.failures.push(SlotFailure { slot, error });
        proof {
            assert(self.failures@.drop_last() =~= old(self).failures@);
        }
        self.next_slot = self.next_slot + 1;
    }

    /// Hands out the recorded per-slot failures, consuming the search.
    pub fn take_failures(self) -> (r: Vec<SlotFailure>)
        ensures
            r@ == self.failures_view(),
    {
        self.failures
    }

    /// Law: an exhausted search attempted exactly the configured number of
    /// slots, 1 up to the bound in order, and recorded one failure each.
    pub proof fn lemma_exhausted_attempts(&self)
        requires
            self.wf(),
            self.exhausted(),
        ensures
            self.attempts() == self.max(),
            self.failures_view().len() == self.max(),
            forall|j: int|
                0 <= j < self.failures_view().len() ==> (#[trigger] self.failures_view()[j]).slot
                    == j + 1,
    {
    }

    /// Law: a search that verified at slot `s` attempted exactly slots 1
    /// through `s`, so no slot past the verified one was ever fetched.
    pub proof fn lemma_verified_attempts(&self)
        requires
            self.wf(),
            self.is_verified(),
        ensures
            self.attempts() == self.next(),
            self.attempts() <= self.max(),
    {
    }
}

} // verus!
