use vstd::prelude::*;

use crate::types::ElasticId;

verus! {

/// The reply to a successful creation: the identifier of the new document.
#[derive(Debug, Clone)]
pub struct CreatedResponse {
    pub id: ElasticId,
}

impl CreatedResponse {
    /// The reply that names the document `id`.
    pub fn new(id: ElasticId) -> (response: CreatedResponse)
        ensures
            response.id == id,
    {
        CreatedResponse { id: id }
    }
}

/// The reply to a search: the documents found and the suggested queries.
#[derive(Debug, Clone)]
pub struct SearchResponse<T> {
    pub results: Vec<T>,
    pub suggestions: Vec<String>,
}

} // verus!
