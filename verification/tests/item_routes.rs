use pockets_for_me_api::generate::elastic_id;
use pockets_for_me_api::routes::items::{
    item_create_document, item_create_reply, item_get_reply, item_search_reply,
    item_search_results, suggested_names, Reply, ReplyBody, Status,
};
use pockets_for_me_api::types::elastic::items::ItemElastic;
use pockets_for_me_api::types::query::items::ItemClient;
use pockets_for_me_api::types::{Shards, SuggestResponse, Sugestee, Suggestion};

fn submitted(category: &str) -> ItemClient {
    ItemClient {
        category: String::from(category),
        make: String::from("Apple"),
        model: String::from("iPhone"),
        version: String::from("4"),
        description: String::from(
            "Apple's last truly reliable phone; the Nokia brick of the smartphone era",
        ),
        dimensions: [59, 116, 10],
    }
}

/// The documents an index holds, by identifier.
fn lookup(store: &[(String, ItemElastic)], id: &str) -> Option<ItemElastic> {
    store.iter().find(|(k, _)| k == id).map(|(_, d)| d.clone())
}

fn error_message(reply: &Reply) -> &str {
    match &reply.body {
        ReplyBody::Error(m) => m.as_str(),
        _ => panic!("not an error reply"),
    }
}

fn sugestee(text: &str, suggestions: &[&str]) -> Sugestee {
    Sugestee {
        text: String::from(text),
        offset: 0,
        length: text.len() as u64,
        suggestions: suggestions
            .iter()
            .map(|s| Suggestion { text: String::from(*s), freq: 1 })
            .collect(),
    }
}

fn shards() -> Shards {
    Shards { total: 1, successful: 1, failed: 0 }
}

#[test]
fn post_get() {
    let mut store: Vec<(String, ItemElastic)> = Vec::new();

    // Add a new item and get its id
    let document = item_create_document(submitted("Phone")).unwrap();
    let new_id = elastic_id();
    store.push((new_id.clone(), document));
    let res = item_create_reply::<()>(Ok(new_id.clone()));
    assert_eq!(res.status, Status::Created);
    let created_id = match res.body {
        ReplyBody::Created(c) => c.id,
        _ => panic!("not a created reply"),
    };

    // Check that the item exists with the correct contents
    let res = item_get_reply::<()>(Ok(lookup(&store, &created_id)));
    assert_eq!(res.status, Status::Success);
    let j = match res.body {
        ReplyBody::Item(item) => item,
        _ => panic!("not an item reply"),
    };
    assert_eq!(j.model, "iPhone");
    assert_eq!(j.dimension_x, 116);
}

#[test]
fn bad_get() {
    let store: Vec<(String, ItemElastic)> = Vec::new();
    let res = item_get_reply::<()>(Ok(lookup(&store, "spam")));
    assert_eq!(res.status, Status::NotFound);
}

#[test]
fn bad_post_category() {
    let res = item_create_document(submitted("phine"));
    let reply = res.unwrap_err();
    assert_eq!(reply.status, Status::BadRequest);
    assert_eq!(error_message(&reply), "Invalid item category 'phine'");
}

#[test]
fn index_failures_are_bad_gateway() {
    let created = item_create_reply(Err("connection refused"));
    assert_eq!(created.status, Status::BadGateway);
    assert_eq!(error_message(&created), "Database error");

    let fetched = item_get_reply(Err("timeout"));
    assert_eq!(fetched.status, Status::BadGateway);
    assert_eq!(error_message(&fetched), "Could not get item");

    let searched = item_search_results(Err("timeout")).unwrap_err();
    assert_eq!(searched.status, Status::BadGateway);
    assert_eq!(error_message(&searched), "Could not get item");

    let suggested = item_search_reply::<(), &str>(Vec::new(), Err(()));
    assert_eq!(suggested.status, Status::BadGateway);
    assert_eq!(error_message(&suggested), "Could not get item suggestions");

    let unreadable = item_search_reply::<(), &str>(Vec::new(), Ok(Err("bad json")));
    assert_eq!(unreadable.status, Status::InternalServerError);
    assert_eq!(error_message(&unreadable), "Could not read item suggestions");
}

#[test]
fn missing_item_message() {
    let res = item_get_reply::<()>(Ok(None));
    assert_eq!(error_message(&res), "Item not found");
}

#[test]
fn created_reply_names_the_id() {
    let res = item_create_reply::<()>(Ok(String::from("abc123")));
    match res.body {
        ReplyBody::Created(c) => assert_eq!(c.id, "abc123"),
        _ => panic!("not a created reply"),
    }
}

#[test]
fn search_results_pass_through() {
    let item = item_create_document(submitted("Phone")).unwrap();
    let found = item_search_results::<()>(Ok(vec![item.clone()])).unwrap();
    assert_eq!(found, vec![item.clone()]);

    let response = SuggestResponse {
        shards: shards(),
        qux: vec![sugestee("appl", &["apple"]), sugestee("iphon", &["iphone", "iphones"])],
    };
    let reply = item_search_reply::<(), ()>(found, Ok(Ok(response)));
    assert_eq!(reply.status, Status::Success);
    match reply.body {
        ReplyBody::Search(search) => {
            assert_eq!(search.results[0].model, "iPhone");
            assert_eq!(search.results[0].dimension_x, 116);
            assert_eq!(search.suggestions[0], "appl iphone");
            assert_eq!(
                search.suggestions,
                vec!["appl iphone", "appl iphones", "apple iphone"]
            );
        }
        _ => panic!("not a search reply"),
    }
}

#[test]
fn no_words_no_suggestions() {
    assert!(suggested_names(&Vec::new()).is_empty());
}

#[test]
fn one_word_suggestions_start_with_a_space() {
    let names = suggested_names(&vec![sugestee("iphon", &["iphone", "iphonx"])]);
    assert_eq!(names, vec![" iphone", " iphonx", "iphone"]);
}

#[test]
fn words_without_suggestions_are_kept() {
    let names = suggested_names(&vec![
        sugestee("the", &[]),
        sugestee("appl", &["apple", "apply"]),
        sugestee("phone", &[]),
    ]);
    assert_eq!(names, vec!["the apple phone"]);
}

#[test]
fn last_word_suggestions_follow_the_stem() {
    let names = suggested_names(&vec![
        sugestee("red", &["read"]),
        sugestee("appl", &[]),
        sugestee("iphon", &["iphone"]),
    ]);
    assert_eq!(names, vec!["red appl iphone", "read appl iphone"]);
}

#[test]
fn fresh_ids_are_simple_v4_uuids() {
    let a = elastic_id();
    let b = elastic_id();
    assert_ne!(a, b);
    for id in [&a, &b] {
        assert_eq!(id.len(), 32);
        assert!(id.chars().all(|c| c.is_ascii_digit() || ('a'..='f').contains(&c)));
        assert_eq!(id.chars().nth(12), Some('4'));
        assert!(matches!(id.chars().nth(16), Some('8' | '9' | 'a' | 'b')));
    }
}
