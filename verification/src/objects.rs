//! The objects the federation core reads: actors, communities, posts
//! and comments, each carrying the plain values the core's decisions
//! depend on. Persistent rows and remote representations are owned by
//! the storage and transport layers; a network dereference hands the
//! core a [`Fetched`] value.

use vstd::prelude::*;

verus! {

/// What a network or storage dereference of an identifier came back
/// with. The transport layer performs the fetch; the core is verified
/// for every possible answer.
#[derive(Clone, Debug)]
pub enum Fetched<T> {
    /// The identifier resolved to this object.
    Found(T),
    /// The identifier is not known where the fetch was allowed to look.
    NotFound,
    /// The fetch could not complete (network failure or timeout).
    Unreachable,
}

/// A local or remote participant able to issue activities.
#[derive(Clone, Debug)]
pub struct Person {
    pub id: u64,
    /// Federation identifier (URL) of this person.
    pub ap_id: String,
    pub name: String,
    pub display_name: Option<String>,
    pub bio: Option<String>,
    pub instance_id: u64,
    pub local: bool,
    /// Automated accounts are not eligible to vote.
    pub bot_account: bool,
    pub deleted: bool,
}

/// A community: the scope an activity targets.
#[derive(Clone, Debug)]
pub struct Community {
    pub id: u64,
    /// Federation identifier (URL) of this community.
    pub ap_id: String,
    pub name: String,
    /// Identifiers of the images this community owns; purging the
    /// community deletes them with it.
    pub icon: Option<String>,
    pub banner: Option<String>,
    pub removed: bool,
    pub deleted: bool,
}

/// A community as the authority verifier dereferences it: the
/// community row together with its ban state, which the storage layer
/// keeps beside the community. Actors hold authority in the scope only
/// while not banned from it.
#[derive(Clone, Debug)]
pub struct CommunityScope {
    pub community: Community,
    /// Federation identifiers of the actors banned from this scope.
    pub banned_actors: Vec<String>,
}

/// A post inside a community.
#[derive(Clone, Debug)]
pub struct Post {
    pub id: u64,
    /// Federation identifier (URL) of this post.
    pub ap_id: String,
    pub name: String,
    pub creator_id: u64,
    pub community_id: u64,
    pub removed: bool,
    pub deleted: bool,
}

/// A comment on a post.
#[derive(Clone, Debug)]
pub struct Comment {
    pub id: u64,
    /// Federation identifier (URL) of this comment.
    pub ap_id: String,
    pub content: String,
    pub creator_id: u64,
    pub post_id: u64,
    pub removed: bool,
    pub deleted: bool,
}

/// The target of a vote activity, as a dereference returns it.
#[derive(Clone, Debug)]
pub enum PostOrComment {
    Post(Post),
    Comment(Comment),
}

/// A local account, as the authentication layer hands it to the core.
#[derive(Clone, Copy, Debug, PartialEq, Eq, Structural)]
pub struct LocalUser {
    pub id: u64,
    pub person_id: u64,
    pub admin: bool,
}

/// A local account together with its person row.
#[derive(Clone, Debug)]
pub struct LocalUserView {
    pub local_user: LocalUser,
    pub person: Person,
}

/// An owned copy of an optional text value, equal to the one given.
pub(crate) fn clone_opt_string(o: &Option<String>) -> (r: Option<String>)
    ensures
        r == *o,
{
    match o {
        Some(s) => Some(s.clone()),
        None => None,
    }
}

impl Person {
    /// An owned copy of this person, equal to it.
    pub fn duplicate(&self) -> (r: Person)
        ensures
            r == *self,
    {
        Person {
            id: self.id,
            ap_id: self.ap_id.clone(),
            name: self.name.clone(),
            display_name: clone_opt_string(&self.display_name),
            bio: clone_opt_string(&self.bio),
            instance_id: self.instance_id,
            local: self.local,
            bot_account: self.bot_account,
            deleted: self.deleted,
        }
    }
}

impl Community {
    /// An owned copy of this community, equal to it.
    pub fn duplicate(&self) -> (r: Community)
        ensures
            r == *self,
    {
        Community {
            id: self.id,
            ap_id: self.ap_id.clone(),
            name: self.name.clone(),
            icon: clone_opt_string(&self.icon),
            banner: clone_opt_string(&self.banner),
            removed: self.removed,
            deleted: self.deleted,
        }
    }
}

impl Post {
    /// An owned copy of this post, equal to it.
    pub fn duplicate(&self) -> (r: Post)
        ensures
            r == *self,
    {
        Post {
            id: self.id,
            ap_id: self.ap_id.clone(),
            name: self.name.clone(),
            creator_id: self.creator_id,
            community_id: self.community_id,
            removed: self.removed,
            deleted: self.deleted,
        }
    }
}

impl Comment {
    /// An owned copy of this comment, equal to it.
    pub fn duplicate(&self) -> (r: Comment)
        ensures
            r == *self,
    {
        Comment {
            id: self.id,
            ap_id: self.ap_id.clone(),
            content: self.content.clone(),
            creator_id: self.creator_id,
            post_id: self.post_id,
            removed: self.removed,
            deleted: self.deleted,
        }
    }
}

impl CommunityScope {
    /// Whether the actor with federation identifier `actor` is banned
    /// from this community.
    pub open spec fn spec_bans(self, actor: Seq<char>) -> bool {
        exists|i: int| 0 <= i < self.banned_actors@.len() && self.banned_actors@[i]@ == actor
    }

    /// Check whether `actor` is banned from this community.
    pub fn bans(&self, actor: &String) -> (r: bool)
        ensures
            r == self.spec_bans(actor@),
    {
        let n = self.banned_actors.len();
        for i in 0..n
            invariant
                n == self.banned_actors.len(),
                forall|k: int| 0 <= k < i ==> self.banned_actors@[k]@ != actor@,
        {
            if self.banned_actors[i] == *actor {
                return true;
            }
        }
        false
    }
}

} // verus!
