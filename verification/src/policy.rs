//! Vote policy engine: decides, from the site's federation settings and
//! the kind of the target object, whether an inbound federated vote is
//! applied or rejected-and-undone.

use vstd::prelude::*;

verus! {

/// Per-action federation policy: accept activities of a kind from
/// everywhere, from the local instance only, or not at all.
#[derive(Clone, Copy, Debug, PartialEq, Eq, Structural)]
pub enum FederationMode {
    All,
    LocalOnly,
    Disabled,
}

/// The kind of a federated vote activity.
#[derive(Clone, Copy, Debug, PartialEq, Eq, Structural)]
pub enum VoteType {
    Like,
    Dislike,
}

/// The kind of object a vote targets.
#[derive(Clone, Copy, Debug, PartialEq, Eq, Structural)]
pub enum ObjectKind {
    Post,
    Comment,
}

/// Site-wide settings of the local instance, one row owned by the
/// storage layer. The four mode fields are read fresh for every policy
/// decision, never cached, since administrators may change them.
#[derive(Clone, Debug)]
pub struct LocalSite {
    pub name: String,
    pub private_instance: bool,
    pub post_upvotes: FederationMode,
    pub post_downvotes: FederationMode,
    pub comment_upvotes: FederationMode,
    pub comment_downvotes: FederationMode,
}

/// What the vote policy engine decides for an inbound vote.
#[derive(Clone, Copy, Debug, PartialEq, Eq, Structural)]
pub enum VoteDecision {
    /// Upsert this actor's vote on the object.
    Apply,
    /// The mode forbids this vote: remove any existing vote by this
    /// actor on the object instead, so that the rejection still leaves
    /// a concrete local state.
    RejectAndUndo,
}

impl LocalSite {
    /// The mode that governs a vote of kind `vote` on an object of
    /// kind `object`.
    pub open spec fn spec_mode_for(self, vote: VoteType, object: ObjectKind) -> FederationMode {
        match (object, vote) {
            (ObjectKind::Post, VoteType::Like) => self.post_upvotes,
            (ObjectKind::Post, VoteType::Dislike) => self.post_downvotes,
            (ObjectKind::Comment, VoteType::Like) => self.comment_upvotes,
            (ObjectKind::Comment, VoteType::Dislike) => self.comment_downvotes,
        }
    }

    /// Fallback used when the local site row cannot be read: the
    /// explicit default accepts votes from everywhere, matching the
    /// storage layer's defaults for a fresh site, and is not private.
    pub open spec fn is_default(self) -> bool {
        &&& self.name@ == Seq::<char>::empty()
        &&& self.private_instance == false
        &&& self.post_upvotes == FederationMode::All
        &&& self.post_downvotes == FederationMode::All
        &&& self.comment_upvotes == FederationMode::All
        &&& self.comment_downvotes == FederationMode::All
    }
}

/// The mode in force when the local site row may be missing: a missing
/// row falls back to the explicit default, which accepts votes from
/// everywhere.
pub open spec fn spec_effective_mode(site: Option<LocalSite>, vote: VoteType, object: ObjectKind) -> FederationMode {
    match site {
        Some(s) => s.spec_mode_for(vote, object),
        None => FederationMode::All,
    }
}

/// The vote policy: a federated vote is applied only when the mode for
/// its direction and object kind is `All`; any other mode rejects the
/// vote and forces an undo of that actor's prior vote.
pub open spec fn spec_decide_vote(vote: VoteType, object: ObjectKind, site: LocalSite) -> VoteDecision {
    if site.spec_mode_for(vote, object) != FederationMode::All {
        VoteDecision::RejectAndUndo
    } else {
        VoteDecision::Apply
    }
}

/// Decide whether an inbound vote of kind `vote` on an object of kind
/// `object` must be applied or rejected-and-undone under `site`.
pub fn decide_vote(vote: VoteType, object: ObjectKind, site: &LocalSite) -> (d: VoteDecision)
    ensures
        d == spec_decide_vote(vote, object, *site),
{
    let mode = match (object, vote) {
        (ObjectKind::Post, VoteType::Like) => site.post_upvotes,
        (ObjectKind::Post, VoteType::Dislike) => site.post_downvotes,
        (ObjectKind::Comment, VoteType::Like) => site.comment_upvotes,
        (ObjectKind::Comment, VoteType::Dislike) => site.comment_downvotes,
    };
    if mode != FederationMode::All {
        VoteDecision::RejectAndUndo
    } else {
        VoteDecision::Apply
    }
}

/// The vote policy applied to a possibly missing local site row: the
/// missing row is replaced by the explicit permissive default.
pub open spec fn spec_decide_vote_effective(vote: VoteType, object: ObjectKind, site: Option<LocalSite>) -> VoteDecision {
    if spec_effective_mode(site, vote, object) != FederationMode::All {
        VoteDecision::RejectAndUndo
    } else {
        VoteDecision::Apply
    }
}

/// The explicit default settings (see [`LocalSite::is_default`]), used
/// when the storage layer has no local site row.
pub fn default_local_site() -> (s: LocalSite)
    ensures
        s.is_default(),
{
    LocalSite {
        name: String::new(),
        private_instance: false,
        post_upvotes: FederationMode::All,
        post_downvotes: FederationMode::All,
        comment_upvotes: FederationMode::All,
        comment_downvotes: FederationMode::All,
    }
}

} // verus!
