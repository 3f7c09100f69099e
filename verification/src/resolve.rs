//! Object resolver: maps an externally supplied identifier to one of a
//! closed set of typed objects. A trust gate keeps anonymous callers
//! from using the service as an open network-fetch proxy: only an
//! authenticated caller's query may consult a remote dereference.
//! Visibility filtering then hides deleted and removed objects from
//! everyone but admins, collapsing them into "not found" so that
//! deletion is not distinguishable from non-existence.

use vstd::prelude::*;
use crate::objects::{Comment, Community, Fetched, LocalUserView, Person, Post};
use crate::store::Store;

verus! {

/// A resolution query: the identifier (URL) to resolve.
#[derive(Clone, Debug)]
pub struct ResolveObject {
    pub q: String,
}

/// The closed set of object types a query can resolve to.
#[derive(Clone, Debug)]
pub enum UserOrCommunity {
    User(Person),
    Community(Community),
}

/// What a search query can locate, locally or remotely.
#[derive(Clone, Debug)]
pub enum SearchableObjects {
    Post(Post),
    Comment(Comment),
    PersonOrCommunity(UserOrCommunity),
}

/// The resolver's answer: exactly one field is set.
#[derive(Clone, Debug)]
pub struct ResolveObjectResponse {
    pub post: Option<Post>,
    pub comment: Option<Comment>,
    pub person: Option<Person>,
    pub community: Option<Community>,
}

/// Why a query could not be answered. A hidden object answers
/// `NotFound`, the same as a missing one, on purpose.
#[derive(Clone, Copy, Debug, PartialEq, Eq, Structural)]
pub enum ResolveError {
    NotFound,
    /// The local site row could not be read.
    StorageFailure,
}

/// The first element of `s` satisfying `p`, if any.
pub open spec fn first_match<T>(s: Seq<T>, p: spec_fn(T) -> bool) -> Option<T>
    decreases s.len(),
{
    if s.len() == 0 {
        None
    } else if p(s[0]) {
        Some(s[0])
    } else {
        first_match(s.drop_first(), p)
    }
}

/// A scan that stops at index `i`, with no match before it, returns
/// the element there.
pub proof fn lemma_first_match_found<T>(s: Seq<T>, p: spec_fn(T) -> bool, i: int)
    requires
        0 <= i < s.len(),
        p(s[i]),
        forall|k: int| 0 <= k < i ==> !p(s[k]),
    ensures
        first_match(s, p) == Some(s[i]),
    decreases i,
{
    if i > 0 {
        assert(!p(s[0]));
        assert(s.drop_first()[i - 1] == s[i]);
        assert forall|k: int| 0 <= k < i - 1 implies !p(s.drop_first()[k]) by {
            assert(s.drop_first()[k] == s[k + 1]);
        }
        lemma_first_match_found(s.drop_first(), p, i - 1);
    }
}

/// A scan that matches nowhere returns nothing.
pub proof fn lemma_first_match_none<T>(s: Seq<T>, p: spec_fn(T) -> bool)
    requires
        forall|k: int| 0 <= k < s.len() ==> !p(s[k]),
    ensures
        first_match(s, p) is None,
    decreases s.len(),
{
    if s.len() > 0 {
        assert forall|k: int| 0 <= k < s.drop_first().len() implies !p(s.drop_first()[k]) by {
            assert(s.drop_first()[k] == s[k + 1]);
        }
        lemma_first_match_none(s.drop_first(), p);
    }
}

/// Whether a post carries the queried identifier.
pub open spec fn post_ap_is(q: Seq<char>) -> spec_fn(Post) -> bool {
    |p: Post| p.ap_id@ == q
}

/// Whether a comment carries the queried identifier.
pub open spec fn comment_ap_is(q: Seq<char>) -> spec_fn(Comment) -> bool {
    |c: Comment| c.ap_id@ == q
}

/// Whether a person carries the queried identifier.
pub open spec fn person_ap_is(q: Seq<char>) -> spec_fn(Person) -> bool {
    |p: Person| p.ap_id@ == q
}

/// Whether a community carries the queried identifier.
pub open spec fn community_ap_is(q: Seq<char>) -> spec_fn(Community) -> bool {
    |c: Community| c.ap_id@ == q
}

/// The locally known object a query resolves to, if any: the first
/// post with that identifier, else the first comment, person, or
/// community.
pub open spec fn spec_search_local(store: Store, q: Seq<char>) -> Option<SearchableObjects> {
    match first_match(store.posts@, post_ap_is(q)) {
        Some(p) => Some(SearchableObjects::Post(p)),
        None => match first_match(store.comments@, comment_ap_is(q)) {
            Some(c) => Some(SearchableObjects::Comment(c)),
            None => match first_match(store.persons@, person_ap_is(q)) {
                Some(p) => Some(SearchableObjects::PersonOrCommunity(UserOrCommunity::User(p))),
                None => match first_match(store.communities@, community_ap_is(q)) {
                    Some(c) => Some(
                        SearchableObjects::PersonOrCommunity(UserOrCommunity::Community(c)),
                    ),
                    None => None,
                },
            },
        },
    }
}

/// Search the local store for the object the identifier names.
pub fn search_local(store: &Store, q: &String) -> (r: Option<SearchableObjects>)
    ensures
        r == spec_search_local(*store, q@),
{
    let np = store.posts.len();
    for i in 0..np
        invariant
            np == store.posts@.len(),
            forall|k: int| 0 <= k < i ==> store.posts@[k].ap_id@ != q@,
    {
        if store.posts[i].ap_id == *q {
            proof {
                lemma_first_match_found(store.posts@, post_ap_is(q@), i as int);
            }
            return Some(SearchableObjects::Post(store.posts[i].duplicate()));
        }
    }
    proof {
        lemma_first_match_none(store.posts@, post_ap_is(q@));
    }
    let nc = store.comments.len();
    for i in 0..nc
        invariant
            nc == store.comments@.len(),
            first_match(store.posts@, post_ap_is(q@)) is None,
            forall|k: int| 0 <= k < i ==> store.comments@[k].ap_id@ != q@,
    {
        if store.comments[i].ap_id == *q {
            proof {
                lemma_first_match_found(store.comments@, comment_ap_is(q@), i as int);
            }
            return Some(SearchableObjects::Comment(store.comments[i].duplicate()));
        }
    }
    proof {
        lemma_first_match_none(store.comments@, comment_ap_is(q@));
    }
    let nu = store.persons.len();
    for i in 0..nu
        invariant
            nu == store.persons@.len(),
            first_match(store.posts@, post_ap_is(q@)) is None,
            first_match(store.comments@, comment_ap_is(q@)) is None,
            forall|k: int| 0 <= k < i ==> store.persons@[k].ap_id@ != q@,
    {
        if store.persons[i].ap_id == *q {
            proof {
                lemma_first_match_found(store.persons@, person_ap_is(q@), i as int);
            }
            return Some(
                SearchableObjects::PersonOrCommunity(
                    UserOrCommunity::User(store.persons[i].duplicate()),
                ),
            );
        }
    }
    proof {
        lemma_first_match_none(store.persons@, person_ap_is(q@));
    }
    let ncm = store.communities.len();
    for i in 0..ncm
        invariant
            ncm == store.communities@.len(),
            first_match(store.posts@, post_ap_is(q@)) is None,
            first_match(store.comments@, comment_ap_is(q@)) is None,
            first_match(store.persons@, person_ap_is(q@)) is None,
            forall|k: int| 0 <= k < i ==> store.communities@[k].ap_id@ != q@,
    {
        if store.communities[i].ap_id == *q {
            proof {
                lemma_first_match_found(store.communities@, community_ap_is(q@), i as int);
            }
            return Some(
                SearchableObjects::PersonOrCommunity(
                    UserOrCommunity::Community(store.communities[i].duplicate()),
                ),
            );
        }
    }
    proof {
        lemma_first_match_none(store.communities@, community_ap_is(q@));
    }
    None
}

/// The pure visibility decision: a deleted or removed object is
/// visible only to admin-level callers.
pub open spec fn spec_visible(deleted: bool, removed: bool, is_admin: bool) -> bool {
    is_admin || (!deleted && !removed)
}

/// Visibility of a resolved object to a caller with (or without) the
/// admin role.
pub open spec fn spec_object_visible(o: SearchableObjects, is_admin: bool) -> bool {
    match o {
        SearchableObjects::Post(p) => spec_visible(p.deleted, p.removed, is_admin),
        SearchableObjects::Comment(c) => spec_visible(c.deleted, c.removed, is_admin),
        SearchableObjects::PersonOrCommunity(UserOrCommunity::User(u)) => spec_visible(
            u.deleted,
            false,
            is_admin,
        ),
        SearchableObjects::PersonOrCommunity(UserOrCommunity::Community(c)) => spec_visible(
            c.deleted,
            c.removed,
            is_admin,
        ),
    }
}

/// Decide whether `o` is visible to a caller with the given role.
pub fn object_visible(o: &SearchableObjects, is_admin: bool) -> (r: bool)
    ensures
        r == spec_object_visible(*o, is_admin),
{
    match o {
        SearchableObjects::Post(p) => is_admin || (!p.deleted && !p.removed),
        SearchableObjects::Comment(c) => is_admin || (!c.deleted && !c.removed),
        SearchableObjects::PersonOrCommunity(UserOrCommunity::User(u)) => is_admin || !u.deleted,
        SearchableObjects::PersonOrCommunity(UserOrCommunity::Community(c)) => is_admin || (
        !c.deleted && !c.removed),
    }
}

/// The admin flag of a possibly anonymous caller.
pub open spec fn spec_is_admin(user: Option<LocalUserView>) -> bool {
    match user {
        Some(v) => v.local_user.admin,
        None => false,
    }
}

/// What the caller is answered for a located object: the response with
/// the one matching field set, or `NotFound` when visibility filtering
/// hides the object from this caller.
pub open spec fn spec_convert_response(o: SearchableObjects, user: Option<LocalUserView>) -> Result<
    ResolveObjectResponse,
    ResolveError,
> {
    if !spec_object_visible(o, spec_is_admin(user)) {
        Err(ResolveError::NotFound)
    } else {
        match o {
            SearchableObjects::Post(p) => Ok(
                ResolveObjectResponse {
                    post: Some(p),
                    comment: None,
                    person: None,
                    community: None,
                },
            ),
            SearchableObjects::Comment(c) => Ok(
                ResolveObjectResponse {
                    post: None,
                    comment: Some(c),
                    person: None,
                    community: None,
                },
            ),
            SearchableObjects::PersonOrCommunity(UserOrCommunity::User(u)) => Ok(
                ResolveObjectResponse {
                    post: None,
                    comment: None,
                    person: Some(u),
                    community: None,
                },
            ),
            SearchableObjects::PersonOrCommunity(UserOrCommunity::Community(c)) => Ok(
                ResolveObjectResponse {
                    post: None,
                    comment: None,
                    person: None,
                    community: Some(c),
                },
            ),
        }
    }
}

/// Build the response for a located object, applying visibility
/// filtering for the caller.
pub fn convert_response(object: SearchableObjects, local_user_view: &Option<LocalUserView>) -> (r:
    Result<ResolveObjectResponse, ResolveError>)
    ensures
        r == spec_convert_response(object, *local_user_view),
{
    let is_admin = match local_user_view {
        Some(v) => v.local_user.admin,
        None => false,
    };
    if !object_visible(&object, is_admin) {
        return Err(ResolveError::NotFound);
    }
    match object {
        SearchableObjects::Post(p) => Ok(
            ResolveObjectResponse { post: Some(p), comment: None, person: None, community: None },
        ),
        SearchableObjects::Comment(c) => Ok(
            ResolveObjectResponse { post: None, comment: Some(c), person: None, community: None },
        ),
        SearchableObjects::PersonOrCommunity(UserOrCommunity::User(u)) => Ok(
            ResolveObjectResponse { post: None, comment: None, person: Some(u), community: None },
        ),
        SearchableObjects::PersonOrCommunity(UserOrCommunity::Community(c)) => Ok(
            ResolveObjectResponse { post: None, comment: None, person: None, community: Some(c) },
        ),
    }
}

/// The trust gate: whether this caller's query may be answered with a
/// remote network dereference. Only an authenticated caller may — or
/// any caller in a non-production diagnostic build of the host.
pub open spec fn spec_may_fetch_remote(authenticated: bool, diagnostic: bool) -> bool {
    authenticated || diagnostic
}

/// Decide the trust gate for a caller.
pub fn may_fetch_remote(authenticated: bool, diagnostic: bool) -> (r: bool)
    ensures
        r == spec_may_fetch_remote(authenticated, diagnostic),
{
    authenticated || diagnostic
}

/// What resolving `q` answers: storage failure with no site row; "not
/// found" on a private instance for anonymous callers; otherwise the
/// local object under that identifier or, only through the trust gate,
/// the remotely dereferenced one — filtered by visibility.
pub open spec fn spec_resolve_object(
    store: Store,
    q: Seq<char>,
    user: Option<LocalUserView>,
    remote: Fetched<SearchableObjects>,
    diagnostic: bool,
) -> Result<ResolveObjectResponse, ResolveError> {
    match store.local_site {
        None => Err(ResolveError::StorageFailure),
        Some(site) => {
            if site.private_instance && user is None {
                Err(ResolveError::NotFound)
            } else {
                let local = spec_search_local(store, q);
                let found = if spec_may_fetch_remote(user is Some, diagnostic) {
                    match local {
                        Some(o) => Some(o),
                        None => match remote {
                            Fetched::Found(o) => Some(o),
                            Fetched::NotFound => None,
                            Fetched::Unreachable => None,
                        },
                    }
                } else {
                    local
                };
                match found {
                    None => Err(ResolveError::NotFound),
                    Some(o) => spec_convert_response(o, user),
                }
            }
        },
    }
}

/// Resolve an identifier for a caller. The caller's authentication
/// decides the trust gate: for an anonymous caller the answer is drawn
/// from the local store alone, whatever `remote` holds, while an
/// authenticated caller falls back to the remote dereference the
/// transport layer performed for the same identifier.
pub fn resolve_object(
    data: &ResolveObject,
    store: &Store,
    local_user_view: &Option<LocalUserView>,
    remote: Fetched<SearchableObjects>,
    diagnostic: bool,
) -> (r: Result<ResolveObjectResponse, ResolveError>)
    ensures
        r == spec_resolve_object(*store, data.q@, *local_user_view, remote, diagnostic),
{
    let site = match &store.local_site {
        None => {
            return Err(ResolveError::StorageFailure);
        },
        Some(s) => s,
    };
    let is_authenticated = local_user_view.is_some();
    if site.private_instance && !is_authenticated {
        return Err(ResolveError::NotFound);
    }
    let local = search_local(store, &data.q);
    let found = if may_fetch_remote(is_authenticated, diagnostic) {
        match local {
            Some(o) => Some(o),
            None => match remote {
                Fetched::Found(o) => Some(o),
                Fetched::NotFound => None,
                Fetched::Unreachable => None,
            },
        }
    } else {
        local
    };
    match found {
        None => Err(ResolveError::NotFound),
        Some(o) => convert_response(o, local_user_view),
    }
}

/// The resolution trust gate: an identifier known only remotely is
/// answered `NotFound` for an anonymous caller, whatever the remote
/// dereference would have returned, while an authenticated caller
/// receives the resolved object when it exists and is visible.
pub proof fn lemma_resolution_trust_gate(
    store: Store,
    q: Seq<char>,
    user: LocalUserView,
    remote: SearchableObjects,
)
    requires
        store.local_site is Some,
        spec_search_local(store, q) is None,
        spec_object_visible(remote, user.local_user.admin),
    ensures
        spec_resolve_object(store, q, None::<LocalUserView>, Fetched::Found(remote), false)
            == Err::<ResolveObjectResponse, ResolveError>(ResolveError::NotFound),
        spec_resolve_object(store, q, Some(user), Fetched::Found(remote), false)
            == spec_convert_response(remote, Some(user)),
        spec_resolve_object(store, q, Some(user), Fetched::Found(remote), false) is Ok,
{
}

/// Visibility of a deleted post: a non-admin authenticated caller is
/// answered `NotFound`, while an admin receives the post with its
/// deleted flag still set.
pub proof fn lemma_deleted_post_visibility(
    store: Store,
    q: Seq<char>,
    post: Post,
    regular: LocalUserView,
    admin: LocalUserView,
    remote: Fetched<SearchableObjects>,
    diagnostic: bool,
)
    requires
        store.local_site is Some,
        spec_search_local(store, q) == Some(SearchableObjects::Post(post)),
        post.deleted,
        !regular.local_user.admin,
        admin.local_user.admin,
    ensures
        spec_resolve_object(store, q, Some(regular), remote, diagnostic) == Err::<
            ResolveObjectResponse,
            ResolveError,
        >(ResolveError::NotFound),
        spec_resolve_object(store, q, Some(admin), remote, diagnostic) == Ok::<
            ResolveObjectResponse,
            ResolveError,
        >(
            (ResolveObjectResponse {
                post: Some(post),
                comment: None,
                person: None,
                community: None,
            }),
        ),
{
}

} // verus!
