//! Inbound activity pipeline for federated votes: verify the actor's
//! authority over the targeted community, record the activity in the
//! dedup ledger, reject ineligible actors, and apply or undo the vote
//! as the site's federation policy decides.

use vstd::prelude::*;
use crate::dedup::{ledger_knows, DedupLedger, RecordOutcome};
use crate::objects::{CommunityScope, Fetched, Person, Post, PostOrComment};
use crate::policy::{
    decide_vote, default_local_site, spec_decide_vote_effective, FederationMode, LocalSite,
    ObjectKind, VoteDecision, VoteType,
};
use crate::votes::{
    has_vote, lemma_delete_erases, lemma_upsert_idempotent, rows_unique, spec_delete, spec_upsert,
    VoteRow, VoteStore,
};

verus! {

/// Why an activity was rejected: rejection is a terminal outcome that
/// leaves no mutation beyond the dedup record.
#[derive(Clone, Copy, Debug, PartialEq, Eq, Structural)]
pub enum RejectReason {
    /// The actor holds no authority in the scope the activity targets.
    NotAuthorized,
    /// The actor is not eligible to vote (an automated account).
    IneligibleActor,
}

/// Why processing failed before a policy decision could be applied.
#[derive(Clone, Copy, Debug, PartialEq, Eq, Structural)]
pub enum FailReason {
    /// A referenced actor or object could not be located.
    NotFound,
    /// A network dereference could not complete.
    Unreachable,
}

/// Terminal state of processing one inbound activity.
#[derive(Clone, Copy, Debug, PartialEq, Eq, Structural)]
pub enum Outcome {
    /// The vote was applied (idempotent upsert).
    Applied,
    /// Policy rejected the vote; the actor's prior vote was undone.
    UndoApplied,
    /// The activity was rejected with no state change beyond dedup.
    Rejected(RejectReason),
    /// The activity identifier was already processed: a duplicate,
    /// discarded without reapplying effects. Not an error.
    Discarded,
    /// Processing failed; re-delivery of the same identifier is
    /// permanently discarded once the dedup record exists.
    Failed(FailReason),
}

/// A federated vote activity: a signed, identified message. The
/// identifier and actor fields round-trip exactly as received.
#[derive(Clone, Debug)]
pub struct Vote {
    /// Globally unique activity identifier (URL), immutable once issued.
    pub id: String,
    /// Federation identifier (URL) of the issuing actor.
    pub actor: String,
    /// Federation identifier (URL) of the post or comment voted on.
    pub object: String,
    pub kind: VoteType,
}

/// The vote-table key a dereferenced target object stands for.
pub open spec fn spec_object_key(o: PostOrComment) -> (ObjectKind, u64) {
    match o {
        PostOrComment::Post(p) => (ObjectKind::Post, p.id),
        PostOrComment::Comment(c) => (ObjectKind::Comment, c.id),
    }
}

/// Step one of the pipeline: the actor's authority over the community
/// the activity targets. A banned actor is not authorized; a community
/// that cannot be dereferenced fails the activity. Runs before dedup
/// and before any mutation.
pub open spec fn spec_verify(vote: Vote, community: Fetched<CommunityScope>) -> Result<(), Outcome> {
    match community {
        Fetched::Found(c) => {
            if c.spec_bans(vote.actor@) {
                Err(Outcome::Rejected(RejectReason::NotAuthorized))
            } else {
                Ok(())
            }
        },
        Fetched::NotFound => Err(Outcome::Failed(FailReason::NotFound)),
        Fetched::Unreachable => Err(Outcome::Failed(FailReason::Unreachable)),
    }
}

/// Steps two to five of the pipeline, for an activity whose authority
/// was already verified: dedup, dereference results, actor
/// eligibility, policy decision, vote mutation. Returns the outcome,
/// the ledger after, and the vote table after.
pub open spec fn spec_receive(
    vote: Vote,
    actor: Fetched<Person>,
    object: Fetched<PostOrComment>,
    site: Option<LocalSite>,
    ledger: Seq<Seq<char>>,
    votes: Seq<VoteRow>,
) -> (Outcome, Seq<Seq<char>>, Seq<VoteRow>) {
    if ledger_knows(ledger, vote.id@) {
        (Outcome::Discarded, ledger, votes)
    } else {
        let ledger1 = ledger.push(vote.id@);
        match actor {
            Fetched::NotFound => (Outcome::Failed(FailReason::NotFound), ledger1, votes),
            Fetched::Unreachable => (Outcome::Failed(FailReason::Unreachable), ledger1, votes),
            Fetched::Found(a) => match object {
                Fetched::NotFound => (Outcome::Failed(FailReason::NotFound), ledger1, votes),
                Fetched::Unreachable => (Outcome::Failed(FailReason::Unreachable), ledger1, votes),
                Fetched::Found(o) => {
                    if a.bot_account {
                        (Outcome::Rejected(RejectReason::IneligibleActor), ledger1, votes)
                    } else {
                        let (kind, oid) = spec_object_key(o);
                        match spec_decide_vote_effective(vote.kind, kind, site) {
                            VoteDecision::Apply => (
                                Outcome::Applied,
                                ledger1,
                                spec_upsert(
                                    votes,
                                    VoteRow {
                                        actor_id: a.id,
                                        object_kind: kind,
                                        object_id: oid,
                                        value: vote.kind,
                                    },
                                ),
                            ),
                            VoteDecision::RejectAndUndo => (
                                Outcome::UndoApplied,
                                ledger1,
                                spec_delete(votes, a.id, kind, oid),
                            ),
                        }
                    }
                },
            },
        }
    }
}

/// The whole pipeline for one inbound vote activity: verify, then
/// receive. Verification failure leaves both the ledger and the vote
/// table untouched, so an unauthorized actor's activity never reaches
/// the dedup ledger.
pub open spec fn spec_process(
    vote: Vote,
    community: Fetched<CommunityScope>,
    actor: Fetched<Person>,
    object: Fetched<PostOrComment>,
    site: Option<LocalSite>,
    ledger: Seq<Seq<char>>,
    votes: Seq<VoteRow>,
) -> (Outcome, Seq<Seq<char>>, Seq<VoteRow>) {
    match spec_verify(vote, community) {
        Err(o) => (o, ledger, votes),
        Ok(_) => spec_receive(vote, actor, object, site, ledger, votes),
    }
}

impl Vote {
    /// Build a vote activity issued by `actor` on `object_id`, under a
    /// freshly generated activity identifier the caller supplies.
    pub fn new(object_id: String, actor: &Person, kind: VoteType, id: String) -> (v: Vote)
        ensures
            v.id@ == id@,
            v.actor@ == actor.ap_id@,
            v.object@ == object_id@,
            v.kind == kind,
    {
        Vote { actor: actor.ap_id.clone(), object: object_id, kind, id }
    }

    /// The activity's unique identifier.
    pub fn id(&self) -> (r: &String)
        ensures
            r@ == self.id@,
    {
        &self.id
    }

    /// The identifier of the issuing actor.
    pub fn actor(&self) -> (r: &String)
        ensures
            r@ == self.actor@,
    {
        &self.actor
    }

    /// Verify the actor's authority over the community this activity
    /// targets, which the transport layer dereferenced into
    /// `community`. Runs before dedup and before any mutation.
    pub fn verify(&self, community: &Fetched<CommunityScope>) -> (r: Result<(), Outcome>)
        ensures
            r == spec_verify(*self, *community),
    {
        match community {
            Fetched::Found(c) => {
                if c.bans(&self.actor) {
                    Err(Outcome::Rejected(RejectReason::NotAuthorized))
                } else {
                    Ok(())
                }
            },
            Fetched::NotFound => Err(Outcome::Failed(FailReason::NotFound)),
            Fetched::Unreachable => Err(Outcome::Failed(FailReason::Unreachable)),
        }
    }

    /// Process a verified activity: record it in the dedup ledger, and
    /// unless it is a duplicate, check the dereferenced actor and
    /// object, reject automated accounts, then apply or undo the vote
    /// as the policy for the (fresh) site settings decides. A missing
    /// site row falls back to the explicit permissive default.
    pub fn receive(
        &self,
        actor: &Fetched<Person>,
        object: &Fetched<PostOrComment>,
        site: &Option<LocalSite>,
        ledger: &mut DedupLedger,
        votes: &mut VoteStore,
    ) -> (o: Outcome)
        requires
            old(votes).wf(),
        ensures
            final(votes).wf(),
            ({
                let (so, sl, sv) = spec_receive(
                    *self,
                    *actor,
                    *object,
                    *site,
                    old(ledger)@,
                    old(votes)@,
                );
                o == so && final(ledger)@ == sl && final(votes)@ == sv
            }),
    {
        if ledger.record_if_new(&self.id) == RecordOutcome::AlreadyPresent {
            return Outcome::Discarded;
        }
        let a = match actor {
            Fetched::Found(a) => a,
            Fetched::NotFound => {
                return Outcome::Failed(FailReason::NotFound);
            },
            Fetched::Unreachable => {
                return Outcome::Failed(FailReason::Unreachable);
            },
        };
        let obj = match object {
            Fetched::Found(o) => o,
            Fetched::NotFound => {
                return Outcome::Failed(FailReason::NotFound);
            },
            Fetched::Unreachable => {
                return Outcome::Failed(FailReason::Unreachable);
            },
        };
        if a.bot_account {
            return Outcome::Rejected(RejectReason::IneligibleActor);
        }
        let (kind, oid) = match obj {
            PostOrComment::Post(p) => (ObjectKind::Post, p.id),
            PostOrComment::Comment(c) => (ObjectKind::Comment, c.id),
        };
        let decision = match site {
            Some(s) => decide_vote(self.kind, kind, s),
            None => {
                let d = default_local_site();
                decide_vote(self.kind, kind, &d)
            },
        };
        match decision {
            VoteDecision::Apply => {
                votes.upsert(a.id, kind, oid, self.kind);
                Outcome::Applied
            },
            VoteDecision::RejectAndUndo => {
                votes.delete(a.id, kind, oid);
                Outcome::UndoApplied
            },
        }
    }
}

/// Run the whole pipeline for one inbound vote activity: verify the
/// actor's authority over `community`, then receive the activity.
pub fn process_vote_activity(
    vote: &Vote,
    community: &Fetched<CommunityScope>,
    actor: &Fetched<Person>,
    object: &Fetched<PostOrComment>,
    site: &Option<LocalSite>,
    ledger: &mut DedupLedger,
    votes: &mut VoteStore,
) -> (o: Outcome)
    requires
        old(votes).wf(),
    ensures
        final(votes).wf(),
        ({
            let (so, sl, sv) = spec_process(
                *vote,
                *community,
                *actor,
                *object,
                *site,
                old(ledger)@,
                old(votes)@,
            );
            o == so && final(ledger)@ == sl && final(votes)@ == sv
        }),
{
    match vote.verify(community) {
        Err(o) => o,
        Ok(_) => vote.receive(actor, object, site, ledger, votes),
    }
}

/// Processing the same inbound activity twice mutates state exactly
/// once: whatever the first delivery did past verification, the second
/// delivery of the same identifier is discarded and changes nothing.
pub proof fn lemma_duplicate_delivery_discarded(
    vote: Vote,
    community: Fetched<CommunityScope>,
    actor: Fetched<Person>,
    object: Fetched<PostOrComment>,
    site: Option<LocalSite>,
    ledger: Seq<Seq<char>>,
    votes: Seq<VoteRow>,
)
    requires
        spec_verify(vote, community) is Ok,
        !ledger_knows(ledger, vote.id@),
    ensures
        ({
            let (o1, l1, v1) = spec_process(vote, community, actor, object, site, ledger, votes);
            let (o2, l2, v2) = spec_process(vote, community, actor, object, site, l1, v1);
            &&& o2 == Outcome::Discarded
            &&& l2 == l1
            &&& v2 == v1
        }),
{
    let (o1, l1, v1) = spec_process(vote, community, actor, object, site, ledger, votes);
    assert(l1 == ledger.push(vote.id@));
    assert(l1[l1.len() - 1] == vote.id@);
    assert(ledger_knows(l1, vote.id@));
}

/// An actor with no authority in the targeted scope has the activity
/// rejected with zero mutations: neither the dedup ledger nor the vote
/// table changes, however well-formed the activity otherwise is.
pub proof fn lemma_unauthorized_rejected(
    vote: Vote,
    community: CommunityScope,
    actor: Fetched<Person>,
    object: Fetched<PostOrComment>,
    site: Option<LocalSite>,
    ledger: Seq<Seq<char>>,
    votes: Seq<VoteRow>,
)
    requires
        community.spec_bans(vote.actor@),
    ensures
        spec_process(vote, Fetched::Found(community), actor, object, site, ledger, votes) == (
            Outcome::Rejected(RejectReason::NotAuthorized),
            ledger,
            votes,
        ),
{
}

/// Under `post_downvotes == LocalOnly`, a federated `Dislike` on a
/// post is rejected and undone: any pre-existing vote by that actor on
/// that post is removed and no downvote is recorded.
pub proof fn lemma_localonly_downvote_undone(
    vote: Vote,
    community: CommunityScope,
    actor: Person,
    post: Post,
    site: LocalSite,
    ledger: Seq<Seq<char>>,
    votes: Seq<VoteRow>,
)
    requires
        vote.kind == VoteType::Dislike,
        site.post_downvotes == FederationMode::LocalOnly,
        !community.spec_bans(vote.actor@),
        !actor.bot_account,
        !ledger_knows(ledger, vote.id@),
        rows_unique(votes),
    ensures
        ({
            let (o, l, v) = spec_process(
                vote,
                Fetched::Found(community),
                Fetched::Found(actor),
                Fetched::Found(PostOrComment::Post(post)),
                Some(site),
                ledger,
                votes,
            );
            &&& o == Outcome::UndoApplied
            &&& v == spec_delete(votes, actor.id, ObjectKind::Post, post.id)
            &&& !has_vote(v, actor.id, ObjectKind::Post, post.id)
        }),
{
    lemma_delete_erases(votes, actor.id, ObjectKind::Post, post.id);
}

/// Idempotence of vote application at the pipeline level: two
/// deliveries of an identical `Like` (same actor, same object) under
/// fresh activity identifiers are both applied, and the vote table
/// after the second equals the vote table after the first.
pub proof fn lemma_identical_like_idempotent(
    first: Vote,
    second: Vote,
    community: CommunityScope,
    actor: Person,
    object: PostOrComment,
    site: Option<LocalSite>,
    ledger: Seq<Seq<char>>,
    votes: Seq<VoteRow>,
)
    requires
        first.kind == VoteType::Like,
        second.kind == VoteType::Like,
        first.actor@ == second.actor@,
        first.object@ == second.object@,
        second.id@ != first.id@,
        !ledger_knows(ledger, first.id@),
        !ledger_knows(ledger, second.id@),
        !community.spec_bans(first.actor@),
        !actor.bot_account,
        spec_decide_vote_effective(VoteType::Like, spec_object_key(object).0, site)
            == VoteDecision::Apply,
        rows_unique(votes),
    ensures
        ({
            let (o1, l1, v1) = spec_process(
                first,
                Fetched::Found(community),
                Fetched::Found(actor),
                Fetched::Found(object),
                site,
                ledger,
                votes,
            );
            let (o2, l2, v2) = spec_process(
                second,
                Fetched::Found(community),
                Fetched::Found(actor),
                Fetched::Found(object),
                site,
                l1,
                v1,
            );
            &&& o1 == Outcome::Applied
            &&& o2 == Outcome::Applied
            &&& v2 == v1
        }),
{
    let (o1, l1, v1) = spec_process(
        first,
        Fetched::Found(community),
        Fetched::Found(actor),
        Fetched::Found(object),
        site,
        ledger,
        votes,
    );
    assert(!ledger_knows(l1, second.id@)) by {
        if ledger_knows(l1, second.id@) {
            let i = choose|i: int| 0 <= i < l1.len() && l1[i] == second.id@;
            if i < ledger.len() {
                assert(ledger[i] == second.id@);
            } else {
                assert(l1[i] == first.id@);
            }
        }
    }
    let row = VoteRow {
        actor_id: actor.id,
        object_kind: spec_object_key(object).0,
        object_id: spec_object_key(object).1,
        value: VoteType::Like,
    };
    assert(v1 == spec_upsert(votes, row));
    lemma_upsert_idempotent(votes, row);
}

} // verus!
