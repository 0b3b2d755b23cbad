use pockets_for_me_api::admin::elastic::{
    ensure_index_deleted_items, ensure_index_mapped_items, ElasticFailure, MappingPhase,
    MappingStep,
};
use pockets_for_me_api::constants::elastic_url;
use pockets_for_me_api::text::{join_words, same_text};
use pockets_for_me_api::types::response::CreatedResponse;
use pockets_for_me_api::types::{Shards, SuggestResponse, Sugestee, Suggestion};

#[test]
fn deleting_an_absent_index_is_fine() {
    assert!(ensure_index_deleted_items::<&str>(Ok(())).is_ok());
    assert!(ensure_index_deleted_items(Err(ElasticFailure::IndexNotFound("items"))).is_ok());
    match ensure_index_deleted_items(Err(ElasticFailure::IndexAlreadyExists("items"))) {
        Err(ElasticFailure::IndexAlreadyExists(e)) => assert_eq!(e, "items"),
        _ => panic!("the failure must be passed on"),
    }
    match ensure_index_deleted_items(Err(ElasticFailure::Other("down"))) {
        Err(ElasticFailure::Other(e)) => assert_eq!(e, "down"),
        _ => panic!("the failure must be passed on"),
    }
}

#[test]
fn mapping_goes_on_after_an_existing_index() {
    assert!(matches!(
        ensure_index_mapped_items::<&str>(MappingPhase::CreateIndex, Ok(())),
        MappingStep::PutMapping
    ));
    assert!(matches!(
        ensure_index_mapped_items(
            MappingPhase::CreateIndex,
            Err(ElasticFailure::IndexAlreadyExists("items"))
        ),
        MappingStep::PutMapping
    ));
    assert!(matches!(
        ensure_index_mapped_items(MappingPhase::CreateIndex, Err(ElasticFailure::Other("down"))),
        MappingStep::Finished(Err(ElasticFailure::Other("down")))
    ));
    assert!(matches!(
        ensure_index_mapped_items(
            MappingPhase::CreateIndex,
            Err(ElasticFailure::IndexNotFound("items"))
        ),
        MappingStep::Finished(Err(ElasticFailure::IndexNotFound("items")))
    ));
    assert!(matches!(
        ensure_index_mapped_items::<&str>(MappingPhase::PutMapping, Ok(())),
        MappingStep::Finished(Ok(()))
    ));
    assert!(matches!(
        ensure_index_mapped_items(
            MappingPhase::PutMapping,
            Err(ElasticFailure::IndexAlreadyExists("items"))
        ),
        MappingStep::Finished(Err(ElasticFailure::IndexAlreadyExists("items")))
    ));
}

#[test]
fn elastic_url_defaults_to_localhost() {
    assert_eq!(elastic_url(None), "http://localhost:9200");
    assert_eq!(
        elastic_url(Some(String::from("https://example.org:443"))),
        "https://example.org:443"
    );
}

#[test]
fn join_words_places_separators_between() {
    let words = vec![String::from("a"), String::from("bc"), String::from("")];
    assert_eq!(join_words(&words, ", "), "a, bc, ");
    assert_eq!(join_words(&Vec::new(), "-"), "");
    assert_eq!(join_words(&vec![String::from("one")], " "), "one");
}

#[test]
fn same_text_compares_characters() {
    assert!(same_text("Phone", "Phone"));
    assert!(!same_text("Phone", "phone"));
    assert!(!same_text("", " "));
}

#[test]
fn accessors_give_fields() {
    let response = SuggestResponse {
        shards: Shards { total: 2, successful: 1, failed: 1 },
        qux: vec![Sugestee {
            text: String::from("appl"),
            offset: 0,
            length: 4,
            suggestions: vec![Suggestion { text: String::from("apple"), freq: 7 }],
        }],
    };
    let inner = response.inner();
    assert_eq!(inner.len(), 1);
    assert_eq!(inner[0].text(), "appl");
    assert_eq!(inner[0].suggestions()[0].text(), "apple");
    assert_eq!(inner[0].suggestions()[0].freq(), 7);
    assert_eq!(CreatedResponse::new(String::from("x1")).id, "x1");
}

#[test]
fn suggestion_replies_are_read_on_2xx() {
    assert!(!SuggestResponse::is_ok_status(199));
    assert!(SuggestResponse::is_ok_status(200));
    assert!(SuggestResponse::is_ok_status(204));
    assert!(SuggestResponse::is_ok_status(299));
    assert!(!SuggestResponse::is_ok_status(300));
    assert!(!SuggestResponse::is_ok_status(404));
}
