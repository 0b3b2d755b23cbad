use std::str::FromStr;
use vstd::prelude::*;

use super::{is_descending, is_rearrangement, lemma_dimension_order_irrelevant, sort_dimensions_descending};
use crate::text::same_text;
use crate::types::query::items::{spec_item_name, ItemClient};

verus! {

/// The categories an item can belong to.
#[derive(Debug, Clone, Copy, PartialEq, Eq, Structural)]
pub enum ItemCategories {
    Phone,
    Tablet,
}

/// The name under which a category is written.
pub open spec fn category_name(category: ItemCategories) -> Seq<char> {
    match category {
        ItemCategories::Phone => "Phone"@,
        ItemCategories::Tablet => "Tablet"@,
    }
}

/// `s` is the name of some category.
pub open spec fn names_a_category(s: Seq<char>) -> bool {
    s == category_name(ItemCategories::Phone) || s == category_name(ItemCategories::Tablet)
}

/// The message with which an unknown category name is refused.
pub open spec fn invalid_category_message(s: Seq<char>) -> Seq<char> {
    "Invalid item category '"@ + s + "'"@
}

/// Reads a category from its name; anything but an exact name is refused
/// with a message that quotes it.
impl FromStr for ItemCategories {
    type Err = String;

    fn from_str(s: &str) -> (parsed: Result<ItemCategories, String>)
        ensures
            parsed is Ok <==> names_a_category(s@),
            parsed matches Ok(c) ==> s@ == category_name(c),
            parsed matches Err(msg) ==> msg@ == invalid_category_message(s@),
    {
        if same_text(s, "Phone") {
            Ok(ItemCategories::Phone)
        } else if same_text(s, "Tablet") {
            Ok(ItemCategories::Tablet)
        } else {
            let mut msg = String::new();
            msg.append("Invalid item category '");
            msg.append(s);
            msg.append("'");
            Err(msg)
        }
    }
}

/// The two category names differ, so a category read back from its own
/// name is that category.
pub proof fn lemma_category_name_reads_back(c: ItemCategories, d: ItemCategories)
    ensures
        category_name(c) == category_name(d) <==> c == d,
        names_a_category(category_name(c)),
{
    reveal_strlit("Phone");
    reveal_strlit("Tablet");
    assert(category_name(ItemCategories::Phone).len() != category_name(ItemCategories::Tablet).len());
}

/// An item as it is stored in the search index.
#[derive(Debug, Clone, PartialEq, Eq)]
pub struct ItemElastic {
    pub category: ItemCategories,
    pub description: String,
    pub dimension_x: i64,
    pub dimension_y: i64,
    pub dimension_z: i64,
    pub make: String,
    pub model: String,
    pub name: String,
    pub version: String,
}

/// `item` is the document that `client` describes: the category read from
/// its name, the dimensions in descending order, the computed display name,
/// and every other field copied unchanged.
pub open spec fn is_document_of(item: ItemElastic, client: ItemClient) -> bool {
    &&& client.category@ == category_name(item.category)
    &&& item.description == client.description
    &&& is_descending((item.dimension_x, item.dimension_y, item.dimension_z))
    &&& is_rearrangement(client.dimensions@, (item.dimension_x, item.dimension_y, item.dimension_z))
    &&& item.make == client.make
    &&& item.model == client.model
    &&& item.version == client.version
    &&& item.name@ == spec_item_name(client.model@, client.version@, client.make@)
}

impl ItemElastic {
    /// Converts a submitted item into the document to store, or refuses it
    /// when its category is not one of the known names.
    pub fn from_item_client(item_client: ItemClient) -> (converted: Result<ItemElastic, String>)
        ensures
            converted is Ok <==> names_a_category(item_client.category@),
            converted matches Ok(item) ==> is_document_of(item, item_client),
            converted matches Err(msg) ==> msg@ == invalid_category_message(item_client.category@),
    {
        let item = item_client;
        let (dimension_x, dimension_y, dimension_z) = sort_dimensions_descending(&item.dimensions);
        let category = match ItemCategories::from_str(item.category.as_str()) {
            Ok(c) => c,
            Err(msg) => return Err(msg),
        };
        let name = item.name();
        Ok(ItemElastic {
            category,
            description: item.description,
            dimension_x,
            dimension_y,
            dimension_z,
            make: item.make,
            model: item.model,
            name,
            version: item.version,
        })
    }
}

/// A document does not depend on the order in which the client listed the
/// dimensions: for two submissions that differ at most in that order, the
/// documents hold the same category, dimensions, texts and name.
pub proof fn lemma_document_ignores_dimension_order(
    first: ItemElastic,
    first_client: ItemClient,
    second: ItemElastic,
    second_client: ItemClient,
)
    requires
        is_document_of(first, first_client),
        is_document_of(second, second_client),
        first_client.category == second_client.category,
        first_client.description == second_client.description,
        first_client.make == second_client.make,
        first_client.model == second_client.model,
        first_client.version == second_client.version,
        is_rearrangement(
            first_client.dimensions@,
            (second_client.dimensions[0], second_client.dimensions[1], second_client.dimensions[2]),
        ),
    ensures
        first.category == second.category,
        first.dimension_x == second.dimension_x,
        first.dimension_y == second.dimension_y,
        first.dimension_z == second.dimension_z,
        first.description == second.description,
        first.make == second.make,
        first.model == second.model,
        first.version == second.version,
        first.name@ == second.name@,
{
    lemma_category_name_reads_back(first.category, second.category);
    lemma_dimension_order_irrelevant(
        first_client.dimensions@,
        second_client.dimensions@,
        (first.dimension_x, first.dimension_y, first.dimension_z),
        (second.dimension_x, second.dimension_y, second.dimension_z),
    );
}

} // verus!
