use federation_core::dispatch::{DispatchQueue, SendActivityData, SubmitOutcome};
use federation_core::objects::{Community, Person};
use federation_core::policy::{FederationMode, LocalSite};
use federation_core::purge::{purge_community, PurgeCommunity, PurgeError, SuccessResponse};
use federation_core::store::Store;

fn person(id: u64, name: &str) -> Person {
    Person {
        id,
        ap_id: name.to_string(),
        name: name.to_string(),
        display_name: None,
        bio: None,
        instance_id: 1,
        local: true,
        bot_account: false,
        deleted: false,
    }
}

fn item(n: u64) -> SendActivityData {
    SendActivityData::RemoveCommunity {
        moderator: person(n, "mod"),
        community: Community {
            id: n,
            ap_id: format!("https://here/c/{}", n),
            name: "c".to_string(),
            icon: None,
            banner: None,
            removed: false,
            deleted: false,
        },
        reason: None,
        removed: true,
    }
}

fn site() -> LocalSite {
    LocalSite {
        name: "test site".to_string(),
        private_instance: false,
        post_upvotes: FederationMode::All,
        post_downvotes: FederationMode::All,
        comment_upvotes: FederationMode::All,
        comment_downvotes: FederationMode::All,
    }
}

fn item_community_id(data: &SendActivityData) -> u64 {
    match data {
        SendActivityData::RemoveCommunity { community, .. } => community.id,
    }
}

#[test]
fn queue_is_fifo() {
    let mut q = DispatchQueue::new(8);
    assert_eq!(q.submit(item(1)), SubmitOutcome::Accepted);
    assert_eq!(q.submit(item(2)), SubmitOutcome::Accepted);
    assert_eq!(q.len(), 2);
    assert_eq!(item_community_id(&q.pop_next().unwrap()), 1);
    assert_eq!(item_community_id(&q.pop_next().unwrap()), 2);
    assert!(q.pop_next().is_none());
}

#[test]
fn saturated_queue_rejects_new_items() {
    let mut q = DispatchQueue::new(1);
    assert_eq!(q.capacity(), 1);
    assert_eq!(q.submit(item(1)), SubmitOutcome::Accepted);
    assert_eq!(q.submit(item(2)), SubmitOutcome::Saturated);
    assert_eq!(q.len(), 1);
    // The rejected item left no trace; the accepted one is intact.
    assert_eq!(item_community_id(&q.pop_next().unwrap()), 1);
}

#[test]
fn admin_purge_deletes_logs_and_dispatches_once() {
    let mut store = Store::new();
    store.set_local_site(site());
    let admin = store.create_user(1, "admin".to_string(), None, true);
    let mut community = store.create_community("test".to_string(), "https://here/c/test".to_string());
    community.icon = Some("https://here/image/icon.png".to_string());
    let community_id = community.id;

    let mut queue = DispatchQueue::new(8);
    let data = PurgeCommunity { community_id, reason: Some("spam".to_string()) };
    let res = purge_community(&data, &mut store, &mut queue, &admin);
    assert_eq!(res.unwrap(), SuccessResponse { success: true });

    // The community row (which owns its images) is gone.
    assert!(store.communities.iter().all(|c| c.id != community_id));
    // One moderation-log record {admin, reason} was written.
    assert_eq!(store.modlog.len(), 1);
    assert_eq!(store.modlog[0].admin_person_id, admin.person.id);
    assert_eq!(store.modlog[0].reason.as_deref(), Some("spam"));
    // Exactly one dispatch item describing the removal was submitted.
    assert_eq!(queue.len(), 1);
    match queue.pop_next().unwrap() {
        SendActivityData::RemoveCommunity { moderator, community, reason, removed } => {
            assert_eq!(moderator.id, admin.person.id);
            assert_eq!(community.id, community_id);
            assert_eq!(reason.as_deref(), Some("spam"));
            assert!(removed);
        },
    }
    // The purge's response was settled above; abandoning the popped
    // item (a failed delivery) cannot reach back into it.
    assert_eq!(queue.len(), 0);
    assert_eq!(store.modlog.len(), 1);
}

#[test]
fn success_response_defaults_to_success() {
    let r = SuccessResponse::default();
    assert!(r.success);
}

#[test]
fn purge_requires_admin() {
    let mut store = Store::new();
    store.set_local_site(site());
    let user = store.create_user(1, "user".to_string(), None, false);
    let community = store.create_community("test".to_string(), "https://here/c/test".to_string());
    let mut queue = DispatchQueue::new(8);

    let data = PurgeCommunity { community_id: community.id, reason: None };
    let res = purge_community(&data, &mut store, &mut queue, &user);
    assert_eq!(res.unwrap_err(), PurgeError::NotAdmin);
    assert_eq!(store.communities.len(), 1);
    assert_eq!(store.modlog.len(), 0);
    assert_eq!(queue.len(), 0);
}

#[test]
fn purge_of_unknown_community_fails() {
    let mut store = Store::new();
    store.set_local_site(site());
    let admin = store.create_user(1, "admin".to_string(), None, true);
    let mut queue = DispatchQueue::new(8);

    let data = PurgeCommunity { community_id: 999, reason: None };
    let res = purge_community(&data, &mut store, &mut queue, &admin);
    assert_eq!(res.unwrap_err(), PurgeError::CouldntFindCommunity);
    assert_eq!(store.modlog.len(), 0);
    assert_eq!(queue.len(), 0);
}

#[test]
fn purge_reports_saturation_without_rolling_back() {
    let mut store = Store::new();
    store.set_local_site(site());
    let admin = store.create_user(1, "admin".to_string(), None, true);
    let community = store.create_community("test".to_string(), "https://here/c/test".to_string());
    let mut queue = DispatchQueue::new(0);

    let data = PurgeCommunity { community_id: community.id, reason: None };
    let res = purge_community(&data, &mut store, &mut queue, &admin);
    assert_eq!(res.unwrap_err(), PurgeError::DispatchSaturated);
    // The committed mutations stand; only the dispatch was refused.
    assert!(store.communities.iter().all(|c| c.id != community.id));
    assert_eq!(store.modlog.len(), 1);
    assert_eq!(queue.len(), 0);
}
