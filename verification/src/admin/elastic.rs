use vstd::prelude::*;

verus! {

/// A failed request to the search index, classified by what the index
/// administration needs to tell apart; `E` is the failure as the client
/// reported it.
#[derive(Debug)]
pub enum ElasticFailure<E> {
    /// The index named in the request does not exist.
    IndexNotFound(E),
    /// The index to create exists already.
    IndexAlreadyExists(E),
    /// Any other failure.
    Other(E),
}

/// Decides the outcome of deleting the items index: a deletion that
/// succeeded, or that failed because there was no such index, leaves the
/// index absent as wanted; any other failure is passed on.
pub fn ensure_index_deleted_items<E>(deleted: Result<(), ElasticFailure<E>>) -> (outcome: Result<
    (),
    ElasticFailure<E>,
>)
    ensures
        outcome is Ok <==> (deleted is Ok || deleted matches Err(ElasticFailure::IndexNotFound(_))),
        outcome matches Err(f) ==> deleted == Err::<(), ElasticFailure<E>>(f),
{
    match deleted {
        Ok(()) => Ok(()),
        Err(ElasticFailure::IndexNotFound(_)) => Ok(()),
        Err(f) => Err(f),
    }
}

/// The step that mapping the items index has reached.
#[derive(Debug, Clone, Copy, PartialEq, Eq, Structural)]
pub enum MappingPhase {
    /// The request that creates the index has been answered.
    CreateIndex,
    /// The request that puts the document mapping has been answered.
    PutMapping,
}

/// What to do after a step of mapping the items index.
#[derive(Debug)]
pub enum MappingStep<E> {
    /// Put the document mapping on the index next.
    PutMapping,
    /// Stop, with this outcome.
    Finished(Result<(), ElasticFailure<E>>),
}

/// Decides the next step of making sure that the items index exists with
/// the document mapping, from the phase just answered and its answer: a
/// created index, or one that existed already, goes on to the mapping; a
/// mapping put finishes with success; any other failure finishes with that
/// failure.
pub fn ensure_index_mapped_items<E>(phase: MappingPhase, answer: Result<(), ElasticFailure<E>>) -> (step: MappingStep<E>)
    ensures
        phase == MappingPhase::CreateIndex ==> {
            &&& step is PutMapping <==> (answer is Ok || answer matches Err(ElasticFailure::IndexAlreadyExists(_)))
            &&& step matches MappingStep::Finished(outcome) ==> outcome == answer
        },
        phase == MappingPhase::PutMapping ==> step == MappingStep::Finished(answer),
{
    match phase {
        MappingPhase::CreateIndex => match answer {
            Ok(()) => MappingStep::PutMapping,
            Err(ElasticFailure::IndexAlreadyExists(_)) => MappingStep::PutMapping,
            Err(f) => MappingStep::Finished(Err(f)),
        },
        MappingPhase::PutMapping => MappingStep::Finished(answer),
    }
}

} // verus!
