use vstd::prelude::*;

verus! {

/// The address of the search index when none is configured.
pub open spec fn default_elastic_url() -> Seq<char> {
    "http://localhost:9200"@
}

/// The address of the search index: the configured one if there is one,
/// the local default otherwise.
pub fn elastic_url(configured: Option<String>) -> (url: String)
    ensures
        configured matches Some(u) ==> url == u,
        configured is None ==> url@ == default_elastic_url(),
{
    match configured {
        Some(u) => u,
        None => "http://localhost:9200".to_owned(),
    }
}

} // verus!
