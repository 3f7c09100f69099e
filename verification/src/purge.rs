//! Admin purge of a community: an admin-only mutation that deletes the
//! community (and with it the images it owns), writes a moderation-log
//! record, and submits exactly one outbound dispatch item describing
//! the removal. The purge's response is settled here; the item's later
//! delivery succeeds or fails independently.

use vstd::prelude::*;
use crate::dispatch::{spec_submit, DispatchQueue, SendActivityData, SubmitOutcome};
use crate::objects::{clone_opt_string, Community, LocalUserView};
use crate::store::{has_community, AdminPurgeCommunity, Store};

verus! {

/// The request: which community to purge, and the reason to log.
#[derive(Clone, Debug)]
pub struct PurgeCommunity {
    pub community_id: u64,
    pub reason: Option<String>,
}

/// The response of a mutation that has nothing else to report.
#[derive(Clone, Copy, Debug, PartialEq, Eq, Structural)]
pub struct SuccessResponse {
    pub success: bool,
}

impl Default for SuccessResponse {
    /// The response a completed mutation returns.
    fn default() -> (r: SuccessResponse)
        ensures
            r.success == true,
    {
        SuccessResponse { success: true }
    }
}

/// Why a purge request was refused.
#[derive(Clone, Copy, Debug, PartialEq, Eq, Structural)]
pub enum PurgeError {
    /// Only an admin may purge an item.
    NotAdmin,
    /// No community has the requested identifier.
    CouldntFindCommunity,
    /// The community was purged and logged, but the outbound queue was
    /// saturated, so no dispatch item was accepted: the saturation is
    /// reported rather than hidden, and the committed mutation stands.
    DispatchSaturated,
}

/// Find the index of the community with identifier `id`.
fn find_community(communities: &Vec<Community>, id: u64) -> (r: Option<usize>)
    ensures
        match r {
            Some(i) => i < communities@.len() && communities@[i as int].id == id,
            None => !has_community(communities@, id),
        },
{
    let n = communities.len();
    for i in 0..n
        invariant
            n == communities.len(),
            forall|k: int| 0 <= k < i ==> communities@[k].id != id,
    {
        if communities[i].id == id {
            return Some(i);
        }
    }
    None
}

/// Purge a community: admin-only. On success the community row is
/// removed, a moderation-log record {admin, reason} is written, and
/// exactly one outbound dispatch item describing "community removed"
/// is submitted; the response does not wait on — and is never altered
/// by — the item's delivery. The mutations committed before a
/// saturated queue is discovered are not rolled back.
pub fn purge_community(
    data: &PurgeCommunity,
    store: &mut Store,
    queue: &mut DispatchQueue,
    local_user_view: &LocalUserView,
) -> (r: Result<SuccessResponse, PurgeError>)
    requires
        old(store).wf(),
    ensures
        final(store).wf(),
        final(queue).cap() == old(queue).cap(),
        !local_user_view.local_user.admin ==> ({
            &&& r == Err::<SuccessResponse, PurgeError>(PurgeError::NotAdmin)
            &&& *final(store) == *old(store)
            &&& final(queue)@ == old(queue)@
        }),
        local_user_view.local_user.admin && !has_community(
            old(store).communities@,
            data.community_id,
        ) ==> ({
            &&& r == Err::<SuccessResponse, PurgeError>(PurgeError::CouldntFindCommunity)
            &&& *final(store) == *old(store)
            &&& final(queue)@ == old(queue)@
        }),
        local_user_view.local_user.admin && has_community(
            old(store).communities@,
            data.community_id,
        ) ==> ({
            let i = choose|i: int|
                0 <= i < old(store).communities@.len() && old(store).communities@[i].id
                    == data.community_id;
            let item = (SendActivityData::RemoveCommunity {
                moderator: local_user_view.person,
                community: old(store).communities@[i],
                reason: data.reason,
                removed: true,
            });
            let (sr, sq) = spec_submit(old(queue)@, old(queue).cap(), item);
            &&& final(store).communities@ == old(store).communities@.remove(i)
            &&& !has_community(final(store).communities@, data.community_id)
            &&& final(store).modlog@ == old(store).modlog@.push(
                (AdminPurgeCommunity {
                    admin_person_id: local_user_view.person.id,
                    reason: data.reason,
                }),
            )
            &&& final(store).local_site == old(store).local_site
            &&& final(store).persons@ == old(store).persons@
            &&& final(store).local_users@ == old(store).local_users@
            &&& final(store).posts@ == old(store).posts@
            &&& final(store).comments@ == old(store).comments@
            &&& final(store).next_id == old(store).next_id
            &&& final(queue)@ == sq
            &&& r == (if sr == SubmitOutcome::Accepted {
                Ok::<SuccessResponse, PurgeError>(SuccessResponse { success: true })
            } else {
                Err::<SuccessResponse, PurgeError>(PurgeError::DispatchSaturated)
            })
        }),
{
    if !local_user_view.local_user.admin {
        return Err(PurgeError::NotAdmin);
    }
    let i = match find_community(&store.communities, data.community_id) {
        None => {
            return Err(PurgeError::CouldntFindCommunity);
        },
        Some(i) => i,
    };
    proof {
        let j = choose|j: int|
            0 <= j < store.communities@.len() && store.communities@[j].id == data.community_id;
        if j < i as int {
            assert(store.communities@[j].id != store.communities@[i as int].id);
        }
        if (i as int) < j {
            assert(store.communities@[i as int].id != store.communities@[j].id);
        }
    }
    let community = store.communities.remove(i);
    proof {
        let oldc = old(store).communities@;
        let newc = store.communities@;
        assert forall|a: int, b: int| 0 <= a < b < newc.len() implies (#[trigger] newc[a].id)
            != (#[trigger] newc[b].id) by {
            let a0: int = if a < i as int {
                a
            } else {
                a + 1
            };
            let b0: int = if b < i as int {
                b
            } else {
                b + 1
            };
            assert(newc[a] == oldc[a0]);
            assert(newc[b] == oldc[b0]);
        }
        assert forall|a: int| 0 <= a < newc.len() implies (#[trigger] newc[a].id)
            < store.next_id by {
            let a0: int = if a < i as int {
                a
            } else {
                a + 1
            };
            assert(newc[a] == oldc[a0]);
        }
        assert forall|a: int| 0 <= a < newc.len() implies (#[trigger] newc[a].id)
            != data.community_id by {
            let a0: int = if a < i as int {
                a
            } else {
                a + 1
            };
            assert(newc[a] == oldc[a0]);
        }
    }
    store.modlog.push(
        AdminPurgeCommunity {
            admin_person_id: local_user_view.person.id,
            reason: clone_opt_string(&data.reason),
        },
    );
    let item = SendActivityData::RemoveCommunity {
        moderator: local_user_view.person.duplicate(),
        community,
        reason: clone_opt_string(&data.reason),
        removed: true,
    };
    match queue.submit(item) {
        SubmitOutcome::Accepted => Ok(SuccessResponse { success: true }),
        SubmitOutcome::Saturated => Err(PurgeError::DispatchSaturated),
    }
}

} // verus!
