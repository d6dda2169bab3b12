use movie_night::errors::ServiceError;
use movie_night::listing::{build_listings, catalog_id_lines};
use movie_night::store::ProposalStore;

fn payload(title: &str) -> String {
    format!(
        "{{\"title\":\"{}\",\"year\":\"2000\",\"director\":\"D\",\"genre\":\"G\",\"plot\":\"P\",\"poster\":\"U\"}}",
        title
    )
}

fn three_proposals() -> ProposalStore {
    let mut store = ProposalStore::new();
    store.insert("aa1".to_string(), "Ana".to_string(), 1).unwrap();
    store.insert("bb2".to_string(), "Ben".to_string(), 2).unwrap();
    store.insert("cc3".to_string(), "Cyd".to_string(), 3).unwrap();
    store
}

#[test]
fn aggregation_preserves_input_order() {
    let store = three_proposals();
    let proposals = store.list_open();
    let bodies = vec![
        Some(payload("First")),
        Some(payload("Second")),
        Some(payload("Third")),
    ];
    let listings = build_listings(&proposals, &bodies).unwrap();
    assert_eq!(listings.len(), 3);
    assert_eq!(listings[0].db_info.catalog_id, "aa1".to_string());
    assert_eq!(listings[0].api_info.title, "First".to_string());
    assert_eq!(listings[1].db_info.catalog_id, "bb2".to_string());
    assert_eq!(listings[1].api_info.title, "Second".to_string());
    assert_eq!(listings[2].db_info.catalog_id, "cc3".to_string());
    assert_eq!(listings[2].api_info.title, "Third".to_string());
}

#[test]
fn one_failed_fetch_fails_the_whole_aggregation() {
    let store = three_proposals();
    let proposals = store.list_open();
    let bodies = vec![Some(payload("First")), None, Some(payload("Third"))];
    let r = build_listings(&proposals, &bodies);
    assert!(matches!(r, Err(ServiceError::Upstream)));
}

#[test]
fn one_unparseable_payload_fails_the_whole_aggregation() {
    let store = three_proposals();
    let proposals = store.list_open();
    let bodies = vec![
        Some(payload("First")),
        Some("{\"error\":\"rate limited\"}".to_string()),
        Some(payload("Third")),
    ];
    let r = build_listings(&proposals, &bodies);
    assert!(matches!(r, Err(ServiceError::Upstream)));
}

#[test]
fn empty_batch_aggregates_to_an_empty_listing() {
    let store = ProposalStore::new();
    let proposals = store.list_open();
    let bodies: Vec<Option<String>> = vec![];
    let listings = build_listings(&proposals, &bodies).unwrap();
    assert!(listings.is_empty());
}

#[test]
fn id_lines_joins_with_newlines_in_order() {
    let store = three_proposals();
    let all = store.list_open();
    assert_eq!(catalog_id_lines(&all), "aa1\nbb2\ncc3".to_string());
}

#[test]
fn id_lines_of_one_proposal_has_no_newline() {
    let mut store = ProposalStore::new();
    store.insert("zz9".to_string(), "Zoe".to_string(), 9).unwrap();
    let all = store.list_open();
    assert_eq!(catalog_id_lines(&all), "zz9".to_string());
}

#[test]
fn id_lines_of_nothing_is_empty() {
    let store = ProposalStore::new();
    let all = store.list_open();
    assert_eq!(catalog_id_lines(&all), "".to_string());
}
