use federation_core::dedup::{DedupLedger, RecordOutcome};
use federation_core::objects::{Community, CommunityScope, Fetched, Person, Post, PostOrComment};
use federation_core::policy::{
    decide_vote, FederationMode, LocalSite, ObjectKind, VoteDecision, VoteType,
};
use federation_core::votes::VoteStore;
use federation_core::voting::{
    process_vote_activity, FailReason, Outcome, RejectReason, Vote,
};

fn person(id: u64, ap_id: &str, bot: bool) -> Person {
    Person {
        id,
        ap_id: ap_id.to_string(),
        name: ap_id.to_string(),
        display_name: None,
        bio: None,
        instance_id: 2,
        local: false,
        bot_account: bot,
        deleted: false,
    }
}

fn community(id: u64, ap_id: &str) -> Community {
    Community {
        id,
        ap_id: ap_id.to_string(),
        name: "test".to_string(),
        icon: None,
        banner: None,
        removed: false,
        deleted: false,
    }
}

fn scope(banned: &[&str]) -> CommunityScope {
    CommunityScope {
        community: community(10, "https://here/c/test"),
        banned_actors: banned.iter().map(|s| s.to_string()).collect(),
    }
}

fn post(id: u64) -> Post {
    Post {
        id,
        ap_id: format!("https://here/post/{}", id),
        name: "Test".to_string(),
        creator_id: 1,
        community_id: 10,
        removed: false,
        deleted: false,
    }
}

fn site_with(post_downvotes: FederationMode) -> LocalSite {
    LocalSite {
        name: "test site".to_string(),
        private_instance: false,
        post_upvotes: FederationMode::All,
        post_downvotes,
        comment_upvotes: FederationMode::All,
        comment_downvotes: FederationMode::All,
    }
}

fn vote(id: &str, actor: &str, kind: VoteType) -> Vote {
    Vote {
        id: id.to_string(),
        actor: actor.to_string(),
        object: "https://here/post/42".to_string(),
        kind,
    }
}

#[test]
fn decide_vote_mode_table() {
    for kind in [ObjectKind::Post, ObjectKind::Comment] {
        for vt in [VoteType::Like, VoteType::Dislike] {
            for mode in
                [FederationMode::All, FederationMode::LocalOnly, FederationMode::Disabled]
            {
                let site = LocalSite {
                    name: String::new(),
                    private_instance: false,
                    post_upvotes: mode,
                    post_downvotes: mode,
                    comment_upvotes: mode,
                    comment_downvotes: mode,
                };
                let expected = if mode == FederationMode::All {
                    VoteDecision::Apply
                } else {
                    VoteDecision::RejectAndUndo
                };
                assert_eq!(decide_vote(vt, kind, &site), expected);
            }
        }
    }
}

#[test]
fn duplicate_delivery_is_discarded_once_recorded() {
    let mut ledger = DedupLedger::new();
    let mut votes = VoteStore::new();
    let v = vote("https://here/activities/like/1", "https://far/u/alice", VoteType::Like);
    let actor = Fetched::Found(person(5, "https://far/u/alice", false));
    let object = Fetched::Found(PostOrComment::Post(post(42)));
    let site = Some(site_with(FederationMode::All));

    let first = process_vote_activity(
        &v,
        &Fetched::Found(scope(&[])),
        &actor,
        &object,
        &site,
        &mut ledger,
        &mut votes,
    );
    assert_eq!(first, Outcome::Applied);
    assert_eq!(votes.len(), 1);
    assert_eq!(ledger.len(), 1);

    let second = process_vote_activity(
        &v,
        &Fetched::Found(scope(&[])),
        &actor,
        &object,
        &site,
        &mut ledger,
        &mut votes,
    );
    assert_eq!(second, Outcome::Discarded);
    assert_eq!(votes.len(), 1);
    assert_eq!(ledger.len(), 1);
    assert_eq!(votes.vote_of(5, ObjectKind::Post, 42), Some(VoteType::Like));
}

#[test]
fn unauthorized_actor_causes_no_mutation() {
    let mut ledger = DedupLedger::new();
    let mut votes = VoteStore::new();
    let v = vote("https://here/activities/like/2", "https://far/u/banned", VoteType::Like);
    let outcome = process_vote_activity(
        &v,
        &Fetched::Found(scope(&["https://far/u/banned"])),
        &Fetched::Found(person(6, "https://far/u/banned", false)),
        &Fetched::Found(PostOrComment::Post(post(42))),
        &Some(site_with(FederationMode::All)),
        &mut ledger,
        &mut votes,
    );
    assert_eq!(outcome, Outcome::Rejected(RejectReason::NotAuthorized));
    assert_eq!(ledger.len(), 0);
    assert_eq!(votes.len(), 0);
}

#[test]
fn localonly_downvote_is_undone() {
    let mut ledger = DedupLedger::new();
    let mut votes = VoteStore::new();
    // The remote actor holds a pre-existing upvote on the post.
    votes.upsert(5, ObjectKind::Post, 42, VoteType::Like);

    let v = vote("https://here/activities/dislike/3", "https://far/u/alice", VoteType::Dislike);
    let outcome = process_vote_activity(
        &v,
        &Fetched::Found(scope(&[])),
        &Fetched::Found(person(5, "https://far/u/alice", false)),
        &Fetched::Found(PostOrComment::Post(post(42))),
        &Some(site_with(FederationMode::LocalOnly)),
        &mut ledger,
        &mut votes,
    );
    assert_eq!(outcome, Outcome::UndoApplied);
    // The prior vote is removed and no downvote is recorded.
    assert_eq!(votes.vote_of(5, ObjectKind::Post, 42), None);
    assert_eq!(votes.len(), 0);
}

#[test]
fn identical_like_twice_equals_once() {
    let mut ledger = DedupLedger::new();
    let mut votes = VoteStore::new();
    let actor = Fetched::Found(person(5, "https://far/u/alice", false));
    let object = Fetched::Found(PostOrComment::Post(post(42)));
    let site = Some(site_with(FederationMode::All));

    let a = vote("https://here/activities/like/4", "https://far/u/alice", VoteType::Like);
    let b = vote("https://here/activities/like/5", "https://far/u/alice", VoteType::Like);
    let first = process_vote_activity(
        &a, &Fetched::Found(scope(&[])), &actor, &object, &site, &mut ledger, &mut votes,
    );
    let second = process_vote_activity(
        &b, &Fetched::Found(scope(&[])), &actor, &object, &site, &mut ledger, &mut votes,
    );
    assert_eq!(first, Outcome::Applied);
    assert_eq!(second, Outcome::Applied);
    assert_eq!(votes.len(), 1);
    assert_eq!(votes.vote_of(5, ObjectKind::Post, 42), Some(VoteType::Like));
}

#[test]
fn bot_account_is_rejected_after_dedup() {
    let mut ledger = DedupLedger::new();
    let mut votes = VoteStore::new();
    let v = vote("https://here/activities/like/6", "https://far/u/bot", VoteType::Like);
    let outcome = process_vote_activity(
        &v,
        &Fetched::Found(scope(&[])),
        &Fetched::Found(person(7, "https://far/u/bot", true)),
        &Fetched::Found(PostOrComment::Post(post(42))),
        &Some(site_with(FederationMode::All)),
        &mut ledger,
        &mut votes,
    );
    assert_eq!(outcome, Outcome::Rejected(RejectReason::IneligibleActor));
    assert_eq!(votes.len(), 0);
    // The activity identifier is recorded before the eligibility check.
    assert_eq!(ledger.len(), 1);
}

#[test]
fn dereference_failures_fail_the_activity() {
    let mut ledger = DedupLedger::new();
    let mut votes = VoteStore::new();
    let v = vote("https://here/activities/like/7", "https://far/u/alice", VoteType::Like);
    let outcome = process_vote_activity(
        &v,
        &Fetched::Found(scope(&[])),
        &Fetched::NotFound,
        &Fetched::Found(PostOrComment::Post(post(42))),
        &Some(site_with(FederationMode::All)),
        &mut ledger,
        &mut votes,
    );
    assert_eq!(outcome, Outcome::Failed(FailReason::NotFound));
    // Recorded in the ledger: a re-delivery is discarded, not retried.
    assert_eq!(ledger.len(), 1);

    let w = vote("https://here/activities/like/8", "https://far/u/alice", VoteType::Like);
    let outcome = process_vote_activity(
        &w,
        &Fetched::Found(scope(&[])),
        &Fetched::Found(person(5, "https://far/u/alice", false)),
        &Fetched::Unreachable,
        &Some(site_with(FederationMode::All)),
        &mut ledger,
        &mut votes,
    );
    assert_eq!(outcome, Outcome::Failed(FailReason::Unreachable));
    assert_eq!(votes.len(), 0);

    let outcome = process_vote_activity(
        &w,
        &Fetched::NotFound,
        &Fetched::Found(person(5, "https://far/u/alice", false)),
        &Fetched::Found(PostOrComment::Post(post(42))),
        &Some(site_with(FederationMode::All)),
        &mut ledger,
        &mut votes,
    );
    assert_eq!(outcome, Outcome::Failed(FailReason::NotFound));
}

#[test]
fn missing_site_row_defaults_to_accepting_votes() {
    let mut ledger = DedupLedger::new();
    let mut votes = VoteStore::new();
    let v = vote("https://here/activities/dislike/9", "https://far/u/alice", VoteType::Dislike);
    let outcome = process_vote_activity(
        &v,
        &Fetched::Found(scope(&[])),
        &Fetched::Found(person(5, "https://far/u/alice", false)),
        &Fetched::Found(PostOrComment::Post(post(42))),
        &None,
        &mut ledger,
        &mut votes,
    );
    assert_eq!(outcome, Outcome::Applied);
    assert_eq!(votes.vote_of(5, ObjectKind::Post, 42), Some(VoteType::Dislike));
}

#[test]
fn comment_votes_use_comment_modes() {
    let mut ledger = DedupLedger::new();
    let mut votes = VoteStore::new();
    let comment = federation_core::objects::Comment {
        id: 77,
        ap_id: "https://here/comment/77".to_string(),
        content: "hi".to_string(),
        creator_id: 1,
        post_id: 42,
        removed: false,
        deleted: false,
    };
    let mut site = site_with(FederationMode::All);
    site.comment_upvotes = FederationMode::Disabled;
    let v = vote("https://here/activities/like/10", "https://far/u/alice", VoteType::Like);
    let outcome = process_vote_activity(
        &v,
        &Fetched::Found(scope(&[])),
        &Fetched::Found(person(5, "https://far/u/alice", false)),
        &Fetched::Found(PostOrComment::Comment(comment)),
        &Some(site),
        &mut ledger,
        &mut votes,
    );
    assert_eq!(outcome, Outcome::UndoApplied);
    assert_eq!(votes.vote_of(5, ObjectKind::Comment, 77), None);
}

#[test]
fn vote_construction_and_accessors() {
    let actor = person(5, "https://far/u/alice", false);
    let v = Vote::new(
        "https://here/post/42".to_string(),
        &actor,
        VoteType::Like,
        "https://here/activities/like/11".to_string(),
    );
    assert_eq!(v.id(), "https://here/activities/like/11");
    assert_eq!(v.actor(), "https://far/u/alice");
    assert_eq!(v.object, "https://here/post/42");
    assert_eq!(v.kind, VoteType::Like);

    let ok = v.verify(&Fetched::Found(scope(&[])));
    assert!(ok.is_ok());
    let banned = v.verify(&Fetched::Found(scope(&["https://far/u/alice"])));
    assert_eq!(banned.unwrap_err(), Outcome::Rejected(RejectReason::NotAuthorized));
    let gone = v.verify(&Fetched::<CommunityScope>::NotFound);
    assert_eq!(gone.unwrap_err(), Outcome::Failed(FailReason::NotFound));
}

#[test]
fn dedup_ledger_records_once() {
    let mut ledger = DedupLedger::new();
    let id = "https://here/activities/like/12".to_string();
    assert_eq!(ledger.record_if_new(&id), RecordOutcome::Inserted);
    assert_eq!(ledger.record_if_new(&id), RecordOutcome::AlreadyPresent);
    assert_eq!(ledger.len(), 1);
}

#[test]
fn vote_store_upsert_and_delete_are_idempotent() {
    let mut votes = VoteStore::new();
    votes.upsert(1, ObjectKind::Post, 2, VoteType::Like);
    votes.upsert(1, ObjectKind::Post, 2, VoteType::Like);
    assert_eq!(votes.len(), 1);
    votes.upsert(1, ObjectKind::Post, 2, VoteType::Dislike);
    assert_eq!(votes.len(), 1);
    assert_eq!(votes.vote_of(1, ObjectKind::Post, 2), Some(VoteType::Dislike));
    votes.delete(1, ObjectKind::Post, 2);
    votes.delete(1, ObjectKind::Post, 2);
    assert_eq!(votes.len(), 0);
    assert_eq!(votes.vote_of(1, ObjectKind::Post, 2), None);
}
