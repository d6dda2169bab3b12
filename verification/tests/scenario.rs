use movie_night::errors::ServiceError;
use movie_night::listing::build_listings;
use movie_night::service::{add_proposal, add_proposal_now, mark_watched_now};
use movie_night::store::ProposalStore;

fn payload(title: &str) -> String {
    format!(
        "{{\"Title\":\"{}\",\"Year\":\"1999\",\"Director\":\"D\",\"Genre\":\"G\",\"Plot\":\"P\",\"Poster\":\"U\"}}",
        title
    )
}

#[test]
fn add_proposal_extracts_then_inserts() {
    let mut store = ProposalStore::new();
    let p = add_proposal(&mut store, " tt0133093 (suggested)", "Ana".to_string(), 77).unwrap();
    assert_eq!(p.catalog_id, "tt0133093".to_string());
    assert_eq!(p.proposed_by, "Ana".to_string());
    assert_eq!(p.proposed_at, 77);
    assert!(p.watched_at.is_none());
    assert_eq!(p.veto_count, 0);
    assert_eq!(store.len(), 1);
}

#[test]
fn add_proposal_rejects_before_touching_the_store() {
    let mut store = ProposalStore::new();
    let r = add_proposal(&mut store, "NO ID HERE", "Ana".to_string(), 77);
    assert!(matches!(r, Err(ServiceError::Validation)));
    assert_eq!(store.len(), 0);
}

#[test]
fn add_proposal_detects_conflict_on_the_extracted_id() {
    let mut store = ProposalStore::new();
    add_proposal(&mut store, "tt0133093", "Ana".to_string(), 1).unwrap();
    let r = add_proposal(&mut store, "watch tt0133093 again", "Ben".to_string(), 2);
    assert!(matches!(r, Err(ServiceError::Conflict)));
    assert_eq!(store.len(), 1);
}

#[test]
fn add_proposal_now_stamps_a_server_side_time() {
    let mut store = ProposalStore::new();
    let p = add_proposal_now(&mut store, "tt0133093", "Ana".to_string()).unwrap();
    assert_eq!(p.catalog_id, "tt0133093".to_string());
    assert!(p.watched_at.is_none());
    assert_eq!(p.veto_count, 0);
    // The service stamped a real clock reading, not a caller-supplied one.
    assert!(p.proposed_at > 1_600_000_000);
}

#[test]
fn mark_watched_now_is_idempotent_in_outcome() {
    let mut store = ProposalStore::new();
    add_proposal_now(&mut store, "tt0133093", "Ana".to_string()).unwrap();
    mark_watched_now(&mut store, "tt0133093").unwrap();
    let first = store.get("tt0133093").unwrap().watched_at;
    assert!(first.is_some());
    mark_watched_now(&mut store, "tt0133093").unwrap();
    assert_eq!(store.get("tt0133093").unwrap().watched_at, first);
    assert!(matches!(
        mark_watched_now(&mut store, "zz404"),
        Err(ServiceError::NotFound)
    ));
}

#[test]
fn proposal_to_listing_end_to_end() {
    // A member proposes a title by pasting text around its catalog id; the
    // validator extracts the id, the store gains a row, and the listing
    // joins the stored row with the catalog payload fetched for it.
    let mut store = ProposalStore::new();
    let p = add_proposal(&mut store, "tt0133093 tonight?", "Ana".to_string(), 42).unwrap();
    assert_eq!(p.catalog_id, "tt0133093".to_string());

    let all = store.list_open();
    assert_eq!(all.len(), 1);
    let bodies = vec![Some(payload("The Matrix"))];
    let listings = build_listings(&all, &bodies).unwrap();
    assert_eq!(listings.len(), 1);
    assert_eq!(listings[0].db_info.catalog_id, "tt0133093".to_string());
    assert_eq!(listings[0].db_info.proposed_by, "Ana".to_string());
    assert_eq!(listings[0].api_info.title, "The Matrix".to_string());
}
