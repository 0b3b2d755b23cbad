pub mod elastic;
pub mod query;
pub mod response;

use vstd::prelude::*;

verus! {

/// The identifier under which the search index stores a document.
pub type ElasticId = String;

/// Shard statistics of a search index reply.
#[derive(Debug, Clone, Copy)]
pub struct Shards {
    pub total: u32,
    pub successful: u32,
    pub failed: u32,
}

/// The reply of the search index to a suggestion request.
#[derive(Debug)]
pub struct SuggestResponse {
    pub shards: Shards,
    pub qux: Vec<Sugestee>,
}

impl SuggestResponse {
    /// Whether the HTTP status of the index's reply to a suggestion request
    /// marks a reply to read as suggestions: any status from 200 to 299.
    pub fn is_ok_status(status: u16) -> (ok: bool)
        ensures
            ok == (200 <= status && status <= 299),
    {
        200 <= status && status <= 299
    }

    /// The suggestees, one per word of the suggested text.
    pub fn inner(&self) -> (inner: &Vec<Sugestee>)
        ensures
            *inner == self.qux,
    {
        &self.qux
    }
}

/// One word of the text that suggestions were asked for, with the
/// suggestions for that word.
#[derive(Debug)]
pub struct Sugestee {
    pub text: String,
    pub offset: u64,
    pub length: u64,
    pub suggestions: Vec<Suggestion>,
}

impl Sugestee {
    /// The word as it was given.
    pub fn text(&self) -> (text: &str)
        ensures
            text@ == self.text@,
    {
        self.text.as_str()
    }

    /// The suggestions for this word, best first.
    pub fn suggestions(&self) -> (suggestions: &Vec<Suggestion>)
        ensures
            *suggestions == self.suggestions,
    {
        &self.suggestions
    }
}

/// One suggested replacement for a word.
#[derive(Debug)]
pub struct Suggestion {
    pub text: String,
    pub freq: u64,
}

impl Suggestion {
    /// The text of the suggestion.
    pub fn text(&self) -> (text: &str)
        ensures
            text@ == self.text@,
    {
        self.text.as_str()
    }

    /// The frequency of the suggestion.
    pub fn freq(&self) -> (freq: u64)
        ensures
            freq == self.freq,
    {
        self.freq
    }
}

} // verus!
