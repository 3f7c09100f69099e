//! A model of the persistent state the core reads and asks to change:
//! the local site row, persons and their local accounts, communities,
//! posts, comments, and the moderation log. A host binds this model to
//! its database; the core's contracts say how each operation changes
//! it.

use vstd::prelude::*;
use crate::objects::{Comment, Community, LocalUser, LocalUserView, Person, Post};
use crate::policy::LocalSite;

verus! {

/// A moderation-log record of an admin purging a community.
#[derive(Clone, Debug)]
pub struct AdminPurgeCommunity {
    pub admin_person_id: u64,
    pub reason: Option<String>,
}

/// The local instance's stored state. Identifiers are allocated from
/// `next_id`, so every entity row keeps an identifier below it.
pub struct Store {
    pub local_site: Option<LocalSite>,
    pub persons: Vec<Person>,
    pub local_users: Vec<LocalUser>,
    pub communities: Vec<Community>,
    pub posts: Vec<Post>,
    pub comments: Vec<Comment>,
    pub modlog: Vec<AdminPurgeCommunity>,
    pub next_id: u64,
}

/// Whether some community in `cs` has identifier `id`.
pub open spec fn has_community(cs: Seq<Community>, id: u64) -> bool {
    exists|i: int| 0 <= i < cs.len() && cs[i].id == id
}

/// Whether some post in `ps` has identifier `id`.
pub open spec fn has_post(ps: Seq<Post>, id: u64) -> bool {
    exists|i: int| 0 <= i < ps.len() && ps[i].id == id
}

impl Store {
    /// Well-formedness: identifiers stay below the allocator and
    /// community and post identifiers are unique, so reads by
    /// identifier are deterministic.
    pub open spec fn wf(&self) -> bool {
        &&& forall|i: int, j: int|
            0 <= i < j < self.communities@.len() ==> (#[trigger] self.communities@[i].id)
                != (#[trigger] self.communities@[j].id)
        &&& forall|i: int, j: int|
            0 <= i < j < self.posts@.len() ==> (#[trigger] self.posts@[i].id)
                != (#[trigger] self.posts@[j].id)
        &&& forall|i: int|
            0 <= i < self.communities@.len() ==> (#[trigger] self.communities@[i].id)
                < self.next_id
        &&& forall|i: int|
            0 <= i < self.posts@.len() ==> (#[trigger] self.posts@[i].id) < self.next_id
        &&& forall|i: int|
            0 <= i < self.comments@.len() ==> (#[trigger] self.comments@[i].id) < self.next_id
        &&& forall|i: int|
            0 <= i < self.persons@.len() ==> (#[trigger] self.persons@[i].id) < self.next_id
        &&& forall|i: int|
            0 <= i < self.local_users@.len() ==> (#[trigger] self.local_users@[i].id)
                < self.next_id
    }

    /// An empty store.
    pub fn new() -> (s: Store)
        ensures
            s.wf(),
            s.local_site is None,
            s.persons@ == Seq::<Person>::empty(),
            s.local_users@ == Seq::<LocalUser>::empty(),
            s.communities@ == Seq::<Community>::empty(),
            s.posts@ == Seq::<Post>::empty(),
            s.comments@ == Seq::<Comment>::empty(),
            s.modlog@ == Seq::<AdminPurgeCommunity>::empty(),
    {
        Store {
            local_site: None,
            persons: Vec::new(),
            local_users: Vec::new(),
            communities: Vec::new(),
            posts: Vec::new(),
            comments: Vec::new(),
            modlog: Vec::new(),
            next_id: 1,
        }
    }

    /// Install the local site row.
    pub fn set_local_site(&mut self, site: LocalSite)
        requires
            old(self).wf(),
        ensures
            final(self).wf(),
            final(self).local_site == Some(site),
            final(self).persons@ == old(self).persons@,
            final(self).local_users@ == old(self).local_users@,
            final(self).communities@ == old(self).communities@,
            final(self).posts@ == old(self).posts@,
            final(self).comments@ == old(self).comments@,
            final(self).modlog@ == old(self).modlog@,
            final(self).next_id == old(self).next_id,
    {
        self.local_site = Some(site);
    }

    /// Create a person and its local account. The person's federation
    /// identifier is its handle, supplied as `name`.
    pub fn create_user(
        &mut self,
        instance_id: u64,
        name: String,
        bio: Option<String>,
        admin: bool,
    ) -> (r: LocalUserView)
        requires
            old(self).wf(),
            old(self).next_id + 2 <= u64::MAX,
        ensures
            final(self).wf(),
            r.person == (Person {
                id: old(self).next_id,
                ap_id: name,
                name: name,
                display_name: Some(name),
                bio: bio,
                instance_id: instance_id,
                local: true,
                bot_account: false,
                deleted: false,
            }),
            r.local_user == (LocalUser {
                id: (old(self).next_id + 1) as u64,
                person_id: old(self).next_id,
                admin: admin,
            }),
            final(self).persons@ == old(self).persons@.push(r.person),
            final(self).local_users@ == old(self).local_users@.push(r.local_user),
            final(self).next_id == old(self).next_id + 2,
            final(self).local_site == old(self).local_site,
            final(self).communities@ == old(self).communities@,
            final(self).posts@ == old(self).posts@,
            final(self).comments@ == old(self).comments@,
            final(self).modlog@ == old(self).modlog@,
    {
        let person = Person {
            id: self.next_id,
            ap_id: name.clone(),
            name: name.clone(),
            display_name: Some(name),
            bio,
            instance_id,
            local: true,
            bot_account: false,
            deleted: false,
        };
        let local_user = LocalUser { id: self.next_id + 1, person_id: self.next_id, admin };
        let view = LocalUserView { local_user, person: person.duplicate() };
        self.persons.push(person);
        self.local_users.push(local_user);
        self.next_id = self.next_id + 2;
        view
    }

    /// Create a community under a fresh identifier.
    pub fn create_community(&mut self, name: String, ap_id: String) -> (r: Community)
        requires
            old(self).wf(),
            old(self).next_id + 1 <= u64::MAX,
        ensures
            final(self).wf(),
            r == (Community {
                id: old(self).next_id,
                ap_id: ap_id,
                name: name,
                icon: None::<String>,
                banner: None::<String>,
                removed: false,
                deleted: false,
            }),
            final(self).communities@ == old(self).communities@.push(r),
            final(self).next_id == old(self).next_id + 1,
            final(self).local_site == old(self).local_site,
            final(self).persons@ == old(self).persons@,
            final(self).local_users@ == old(self).local_users@,
            final(self).posts@ == old(self).posts@,
            final(self).comments@ == old(self).comments@,
            final(self).modlog@ == old(self).modlog@,
    {
        let community = Community {
            id: self.next_id,
            ap_id,
            name,
            icon: None,
            banner: None,
            removed: false,
            deleted: false,
        };
        let copy = community.duplicate();
        self.communities.push(community);
        self.next_id = self.next_id + 1;
        copy
    }

    /// Create a post under a fresh identifier.
    pub fn create_post(
        &mut self,
        name: String,
        ap_id: String,
        creator_id: u64,
        community_id: u64,
    ) -> (r: Post)
        requires
            old(self).wf(),
            old(self).next_id + 1 <= u64::MAX,
        ensures
            final(self).wf(),
            r == (Post {
                id: old(self).next_id,
                ap_id: ap_id,
                name: name,
                creator_id: creator_id,
                community_id: community_id,
                removed: false,
                deleted: false,
            }),
            final(self).posts@ == old(self).posts@.push(r),
            final(self).next_id == old(self).next_id + 1,
            final(self).local_site == old(self).local_site,
            final(self).persons@ == old(self).persons@,
            final(self).local_users@ == old(self).local_users@,
            final(self).communities@ == old(self).communities@,
            final(self).comments@ == old(self).comments@,
            final(self).modlog@ == old(self).modlog@,
    {
        let post = Post {
            id: self.next_id,
            ap_id,
            name,
            creator_id,
            community_id,
            removed: false,
            deleted: false,
        };
        let copy = post.duplicate();
        self.posts.push(post);
        self.next_id = self.next_id + 1;
        copy
    }

    /// Create a comment under a fresh identifier.
    pub fn create_comment(
        &mut self,
        content: String,
        ap_id: String,
        creator_id: u64,
        post_id: u64,
    ) -> (r: Comment)
        requires
            old(self).wf(),
            old(self).next_id + 1 <= u64::MAX,
        ensures
            final(self).wf(),
            r == (Comment {
                id: old(self).next_id,
                ap_id: ap_id,
                content: content,
                creator_id: creator_id,
                post_id: post_id,
                removed: false,
                deleted: false,
            }),
            final(self).comments@ == old(self).comments@.push(r),
            final(self).next_id == old(self).next_id + 1,
            final(self).local_site == old(self).local_site,
            final(self).persons@ == old(self).persons@,
            final(self).local_users@ == old(self).local_users@,
            final(self).communities@ == old(self).communities@,
            final(self).posts@ == old(self).posts@,
            final(self).modlog@ == old(self).modlog@,
    {
        let comment = Comment {
            id: self.next_id,
            ap_id,
            content,
            creator_id,
            post_id,
            removed: false,
            deleted: false,
        };
        let copy = comment.duplicate();
        self.comments.push(comment);
        self.next_id = self.next_id + 1;
        copy
    }

    /// Mark the post with identifier `post_id` deleted (or undeleted).
    /// Returns whether such a post exists.
    pub fn set_post_deleted(&mut self, post_id: u64, deleted: bool) -> (r: bool)
        requires
            old(self).wf(),
        ensures
            final(self).wf(),
            r == has_post(old(self).posts@, post_id),
            !r ==> final(self).posts@ == old(self).posts@,
            r ==> exists|i: int|
                0 <= i < old(self).posts@.len() && old(self).posts@[i].id == post_id
                    && final(self).posts@ == old(self).posts@.update(
                    i,
                    Post { deleted, ..old(self).posts@[i] },
                ),
            final(self).local_site == old(self).local_site,
            final(self).persons@ == old(self).persons@,
            final(self).local_users@ == old(self).local_users@,
            final(self).communities@ == old(self).communities@,
            final(self).comments@ == old(self).comments@,
            final(self).modlog@ == old(self).modlog@,
            final(self).next_id == old(self).next_id,
    {
        let n = self.posts.len();
        for i in 0..n
            invariant
                self.wf(),
                n == self.posts.len(),
                *self == *old(self),
                forall|k: int| 0 <= k < i ==> self.posts@[k].id != post_id,
        {
            if self.posts[i].id == post_id {
                let updated = Post {
                    id: self.posts[i].id,
                    ap_id: self.posts[i].ap_id.clone(),
                    name: self.posts[i].name.clone(),
                    creator_id: self.posts[i].creator_id,
                    community_id: self.posts[i].community_id,
                    removed: self.posts[i].removed,
                    deleted,
                };
                assert(updated == (Post { deleted, ..old(self).posts@[i as int] }));
                self.posts.set(i, updated);
                proof {
                    assert forall|k: int| 0 <= k < self.posts@.len() implies (#[trigger] self
                        .posts@[k].id) == old(self).posts@[k].id by {
                    }
                }
                return true;
            }
        }
        false
    }
}

} // verus!
