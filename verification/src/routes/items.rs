use vstd::prelude::*;

use crate::text::{join_words, seq_join, views};
use crate::types::elastic::items::{invalid_category_message, is_document_of, names_a_category, ItemElastic};
use crate::types::query::items::ItemClient;
use crate::types::response::{CreatedResponse, SearchResponse};
use crate::types::{ElasticId, SuggestResponse, Sugestee};

verus! {

/// The word that stands for `suggestee` in the best guess: its first
/// suggestion, or the word itself when it has none.
pub open spec fn best_word(suggestee: Sugestee) -> Seq<char> {
    if suggestee.suggestions@.len() == 0 {
        suggestee.text@
    } else {
        suggestee.suggestions@[0].text@
    }
}

/// The given words of `suggestees`.
pub open spec fn given_words(suggestees: Seq<Sugestee>) -> Seq<Seq<char>> {
    suggestees.map_values(|s: Sugestee| s.text@)
}

/// The best guess: each word replaced by its best suggestion.
pub open spec fn best_guess(suggestees: Seq<Sugestee>) -> Seq<char> {
    seq_join(suggestees.map_values(|s: Sugestee| best_word(s)), seq![' '])
}

/// The stem: every given word but the last, joined by spaces.
pub open spec fn stem(suggestees: Seq<Sugestee>) -> Seq<char> {
    seq_join(given_words(suggestees.drop_last()), seq![' '])
}

/// The suggested queries for the words `suggestees`: none when there are no
/// words; otherwise, for each suggestion of the last word, the stem, a space
/// and that suggestion, followed by the best guess.
pub open spec fn spec_suggested_names(suggestees: Seq<Sugestee>) -> Seq<Seq<char>> {
    if suggestees.len() == 0 {
        Seq::empty()
    } else {
        let last = suggestees.last();
        Seq::new(
            last.suggestions@.len(),
            |i: int| stem(suggestees) + seq![' '] + last.suggestions@[i].text@,
        ).push(best_guess(suggestees))
    }
}

/// Without words there are no suggested queries; otherwise there is one
/// per suggestion for the last word, and the best guess comes last.
pub proof fn lemma_suggestion_count(suggestees: Seq<Sugestee>)
    ensures
        suggestees.len() == 0 ==> spec_suggested_names(suggestees).len() == 0,
        suggestees.len() > 0 ==> {
            &&& spec_suggested_names(suggestees).len() == suggestees.last().suggestions@.len() + 1
            &&& spec_suggested_names(suggestees).last() == best_guess(suggestees)
        },
{
}

/// The typed words before the last one, all of them and in order.
pub open spec fn typed_words_before_last(suggestees: Seq<Sugestee>) -> Seq<Seq<char>> {
    Seq::new((suggestees.len() - 1) as nat, |k: int| suggestees[k].text@)
}

/// Each word written as its first (top-ranked) suggestion when it has one,
/// and as typed otherwise.
pub open spec fn top_ranked_words(suggestees: Seq<Sugestee>) -> Seq<Seq<char>> {
    Seq::new(
        suggestees.len(),
        |k: int|
            if suggestees[k].suggestions@.len() > 0 {
                suggestees[k].suggestions@[0].text@
            } else {
                suggestees[k].text@
            },
    )
}

/// Suggested query `i`, for `i` below the number of suggestions for the
/// last word, is every typed word before the last one, in order and
/// separated by single spaces, then a space, then suggestion `i` for the
/// last word.
pub proof fn lemma_suggestion_keeps_typed_words(suggestees: Seq<Sugestee>, i: int)
    requires
        suggestees.len() > 0,
        0 <= i < suggestees.last().suggestions@.len(),
    ensures
        spec_suggested_names(suggestees)[i] == seq_join(typed_words_before_last(suggestees), seq![' '])
            + seq![' '] + suggestees.last().suggestions@[i].text@,
{
    assert(given_words(suggestees.drop_last()) =~= typed_words_before_last(suggestees));
}

/// The last suggested query, the best guess, writes every word that has
/// suggestions as its first (top-ranked) suggestion, whatever the
/// frequencies, and every other word as typed, separated by single spaces.
pub proof fn lemma_best_guess_takes_top_suggestion(suggestees: Seq<Sugestee>)
    requires
        suggestees.len() > 0,
    ensures
        spec_suggested_names(suggestees).last() == seq_join(top_ranked_words(suggestees), seq![' ']),
{
    assert(suggestees.map_values(|s: Sugestee| best_word(s)) =~= top_ranked_words(suggestees));
}

/// Composes the suggested queries for the words `suggestees`.
pub fn suggested_names(suggestees: &Vec<Sugestee>) -> (names: Vec<String>)
    ensures
        views(names@) == spec_suggested_names(suggestees@),
        suggestees@.len() == 0 ==> names@.len() == 0,
        suggestees@.len() > 0 ==> names@.len() == suggestees@.last().suggestions@.len() + 1,
        suggestees@.len() > 0 ==> forall|i: int|
            0 <= i < suggestees@.last().suggestions@.len() ==> (#[trigger] names@[i])@ == seq_join(
                typed_words_before_last(suggestees@),
                seq![' '],
            ) + seq![' '] + suggestees@.last().suggestions@[i].text@,
        suggestees@.len() > 0 ==> names@.last()@ == seq_join(top_ranked_words(suggestees@), seq![' ']),
{
    let mut names: Vec<String> = Vec::new();
    let count = suggestees.len();
    if count == 0 {
        assert(views(names@) =~= spec_suggested_names(suggestees@));
        assert(names@.len() == 0);
        return names;
    }
    proof {
        reveal_strlit(" ");
        assert(" "@ =~= seq![' ']);
    }
    let last_index = count - 1;
    let ghost all = suggestees@;

    // The stem: all words but the last.
    let mut stem_words: Vec<String> = Vec::new();
    let mut i: usize = 0;
    while i < last_index
        invariant
            all == suggestees@,
            last_index == all.len() - 1,
            0 <= i <= last_index,
            views(stem_words@) =~= given_words(all.take(i as int)),
        decreases last_index - i,
    {
        let ghost before = stem_words@;
        let word = suggestees[i].text.clone();
        stem_words.push(word);
        assert(stem_words@ == before.push(word));
        assert(views(before.push(word)) =~= views(before).push(word@));
        assert(all.take(i + 1) =~= all.take(i as int).push(all[i as int]));
        assert(given_words(all.take(i as int).push(all[i as int])) =~= given_words(
            all.take(i as int),
        ).push(all[i as int].text@));
        i = i + 1;
    }
    assert(all.take(last_index as int) =~= all.drop_last());
    let stem_text = join_words(&stem_words, " ");
    assert(stem_text@ == stem(all));

    // One query per suggestion for the last word.
    let last = &suggestees[last_index];
    let ghost last_view = all.last();
    let n_last = last.suggestions.len();
    let mut j: usize = 0;
    while j < n_last
        invariant
            all == suggestees@,
            last_index == all.len() - 1,
            *last == all.last(),
            n_last == last.suggestions@.len(),
            stem_text@ == stem(all),
            " "@ == seq![' '],
            0 <= j <= n_last,
            views(names@) =~= Seq::new(
                j as nat,
                |k: int| stem(all) + seq![' '] + last.suggestions@[k].text@,
            ),
        decreases n_last - j,
    {
        let mut query = stem_text.clone();
        query.append(" ");
        query.append(last.suggestions[j].text.as_str());
        let ghost before = names@;
        names.push(query);
        assert(views(before.push(query)) =~= views(before).push(query@));
        j = j + 1;
    }

    // The best guess.
    let mut best_words: Vec<String> = Vec::new();
    let mut k: usize = 0;
    while k < count
        invariant
            all == suggestees@,
            count == all.len(),
            0 <= k <= count,
            views(best_words@) =~= all.take(k as int).map_values(|s: Sugestee| best_word(s)),
        decreases count - k,
    {
        let s = &suggestees[k];
        let word = if s.suggestions.len() == 0 {
            s.text.clone()
        } else {
            s.suggestions[0].text.clone()
        };
        let ghost before = best_words@;
        best_words.push(word);
        assert(views(before.push(word)) =~= views(before).push(word@));
        assert(all.take(k + 1) =~= all.take(k as int).push(all[k as int]));
        assert(all.take(k + 1).map_values(|s: Sugestee| best_word(s)) =~= all.take(
            k as int,
        ).map_values(|s: Sugestee| best_word(s)).push(best_word(all[k as int])));
        k = k + 1;
    }
    assert(all.take(count as int) =~= all);
    let best = join_words(&best_words, " ");
    let ghost before = names@;
    names.push(best);
    assert(views(before.push(best)) =~= views(before).push(best@));
    assert(views(names@) =~= spec_suggested_names(all));
    proof {
        lemma_suggestion_count(all);
        lemma_best_guess_takes_top_suggestion(all);
        assert(names@.last()@ == views(names@).last());
        assert forall|i: int| 0 <= i < all.last().suggestions@.len() implies (#[trigger] names@[i])@
            == seq_join(typed_words_before_last(all), seq![' ']) + seq![' '] + all.last().suggestions@[i].text@ by {
            lemma_suggestion_keeps_typed_words(all, i);
            assert(names@[i]@ == views(names@)[i]);
        }
    }
    names
}

/// The status of a reply of the item endpoints.
#[derive(Debug, Clone, Copy, PartialEq, Eq, Structural)]
pub enum Status {
    Success,
    Created,
    BadRequest,
    NotFound,
    InternalServerError,
    BadGateway,
    ServiceUnavailable,
}

/// What a reply of the item endpoints carries.
#[derive(Debug, Clone)]
pub enum ReplyBody {
    /// An error, described by its message.
    Error(String),
    /// A document was created.
    Created(CreatedResponse),
    /// A stored item.
    Item(ItemElastic),
    /// The results and suggestions of a search.
    Search(SearchResponse<ItemElastic>),
}

/// A reply of the item endpoints.
#[derive(Debug, Clone)]
pub struct Reply {
    pub status: Status,
    pub body: ReplyBody,
}

/// `reply` has status `status` and an error body with message `message`.
pub open spec fn is_error_reply(reply: Reply, status: Status, message: Seq<char>) -> bool {
    &&& reply.status == status
    &&& reply.body matches ReplyBody::Error(m) && m@ == message
}

fn error_reply(status: Status, message: &str) -> (reply: Reply)
    ensures
        is_error_reply(reply, status, message@),
{
    Reply { status, body: ReplyBody::Error(message.to_owned()) }
}

/// First step of creating an item: the document to index, or the refusal
/// of a submission whose category is unknown.
pub fn item_create_document(item_client: ItemClient) -> (step: Result<ItemElastic, Reply>)
    ensures
        step is Ok <==> names_a_category(item_client.category@),
        step matches Ok(item) ==> is_document_of(item, item_client),
        step matches Err(reply) ==> is_error_reply(
            reply,
            Status::BadRequest,
            invalid_category_message(item_client.category@),
        ),
{
    match ItemElastic::from_item_client(item_client) {
        Ok(item) => Ok(item),
        Err(e) => Err(Reply { status: Status::BadRequest, body: ReplyBody::Error(e) }),
    }
}

/// Last step of creating an item: the reply once the index has stored the
/// document under `id`, or failed to.
pub fn item_create_reply<E>(indexed: Result<ElasticId, E>) -> (reply: Reply)
    ensures
        indexed matches Ok(id) ==> {
            &&& reply.status == Status::Created
            &&& reply.body matches ReplyBody::Created(created)
            &&& created.id == id
        },
        indexed is Err ==> is_error_reply(reply, Status::BadGateway, "Database error"@),
{
    match indexed {
        Ok(id) => Reply { status: Status::Created, body: ReplyBody::Created(CreatedResponse::new(id)) },
        Err(_) => error_reply(Status::BadGateway, "Database error"),
    }
}

/// The reply to a request for one item, given what the index answered: a
/// failure, no such document, or the document.
pub fn item_get_reply<E>(fetched: Result<Option<ItemElastic>, E>) -> (reply: Reply)
    ensures
        fetched is Err ==> is_error_reply(reply, Status::BadGateway, "Could not get item"@),
        fetched matches Ok(None) ==> is_error_reply(reply, Status::NotFound, "Item not found"@),
        fetched matches Ok(Some(item)) ==> reply.status == Status::Success && reply.body == ReplyBody::Item(item),
{
    match fetched {
        Err(_) => error_reply(Status::BadGateway, "Could not get item"),
        Ok(None) => error_reply(Status::NotFound, "Item not found"),
        Ok(Some(item)) => Reply { status: Status::Success, body: ReplyBody::Item(item) },
    }
}

/// First step of a search: the documents found, or the reply when the
/// search itself failed.
pub fn item_search_results<E>(searched: Result<Vec<ItemElastic>, E>) -> (step: Result<Vec<ItemElastic>, Reply>)
    ensures
        searched matches Ok(results) ==> step == Ok::<Vec<ItemElastic>, Reply>(results),
        searched is Err ==> (step matches Err(reply) && is_error_reply(
            reply,
            Status::BadGateway,
            "Could not get item"@,
        )),
{
    match searched {
        Ok(results) => Ok(results),
        Err(_) => Err(error_reply(Status::BadGateway, "Could not get item")),
    }
}

/// Last step of a search: the reply, given the documents found and the
/// outcome of the suggestion request (the request failed, its reply could
/// not be read, or it was read).
pub fn item_search_reply<E, F>(
    results: Vec<ItemElastic>,
    suggested: Result<Result<SuggestResponse, F>, E>,
) -> (reply: Reply)
    ensures
        suggested is Err ==> is_error_reply(reply, Status::BadGateway, "Could not get item suggestions"@),
        suggested matches Ok(Err(_)) ==> is_error_reply(
            reply,
            Status::InternalServerError,
            "Could not read item suggestions"@,
        ),
        suggested matches Ok(Ok(response)) ==> {
            &&& reply.status == Status::Success
            &&& reply.body matches ReplyBody::Search(search)
            &&& search.results == results
            &&& views(search.suggestions@) == spec_suggested_names(response.qux@)
        },
{
    match suggested {
        Err(_) => error_reply(Status::BadGateway, "Could not get item suggestions"),
        Ok(Err(_)) => error_reply(Status::InternalServerError, "Could not read item suggestions"),
        Ok(Ok(response)) => {
            let suggestions = suggested_names(response.inner());
            Reply {
                status: Status::Success,
                body: ReplyBody::Search(SearchResponse { results, suggestions }),
            }
        },
    }
}

} // verus!
