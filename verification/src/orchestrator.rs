//! A run over all configured chains: one worker for each, all of them run
//! to their end, and the run fails only where a worker could not be run or
//! ended in failure itself.

use crate::worker::{
    after_listing, chain_result, initial, listing_failed, wf, ChainError, ChainWorker, ContractList,
    Phase, Reply,
};
use vstd::prelude::*;

verus! {

/// What the caller got back from a worker it had started.
#[derive(Debug, Clone, Copy, PartialEq, Eq, Structural)]
pub enum Joined {
    /// The worker could not be run to its end.
    Lost,
    /// The worker ended in failure.
    Failed(ChainError),
    /// The worker ended without failure.
    Completed,
}

/// Why a run fails.
#[derive(Debug, Clone, Copy, PartialEq, Eq, Structural)]
pub enum RunError {
    /// The worker at this place could not be run to its end.
    JoinHandle { worker: usize },
    /// The worker at this place ended in failure.
    ExtractChain { worker: usize, error: ChainError },
}

/// What is got back from a worker that ended with the given result.
pub open spec fn joined_of(result: Result<(), ChainError>) -> Joined {
    match result {
        Ok(_) => Joined::Completed,
        Err(error) => Joined::Failed(error),
    }
}

/// Tells what is got back from a worker that ended with the given result.
pub fn returned(result: Result<(), ChainError>) -> (r: Joined)
    ensures
        r == joined_of(result),
{
    match result {
        Ok(_) => Joined::Completed,
        Err(error) => Joined::Failed(error),
    }
}

/// The result of a run, judged from the worker at `start` on: the failure of
/// the first worker that was lost or failed, if there is one.
pub open spec fn run_result_from(results: Seq<Joined>, start: int) -> Result<(), RunError>
    decreases results.len() - start,
{
    if start < 0 || start >= results.len() {
        Ok(())
    } else {
        match results[start] {
            Joined::Lost => Err(RunError::JoinHandle { worker: start as usize }),
            Joined::Failed(error) => Err(RunError::ExtractChain { worker: start as usize, error }),
            Joined::Completed => run_result_from(results, start + 1),
        }
    }
}

/// The result of a run.
pub open spec fn run_result(results: Seq<Joined>) -> Result<(), RunError> {
    run_result_from(results, 0)
}

/// Makes the workers of a run: one for each chain, in the order of the
/// configuration, each waiting for its listing.
pub fn spawn_all(chains: &Vec<u64>, base: &str) -> (workers: Vec<ChainWorker>)
    ensures
        workers@.len() == chains@.len(),
        forall|i: int| 0 <= i < chains@.len() ==> (#[trigger] workers@[i])@ == initial(base@, chains@[i]),
{
    let mut workers: Vec<ChainWorker> = Vec::new();
    let mut i: usize = 0;
    while i < chains.len()
        invariant
            i <= chains.len(),
            workers@.len() == i,
            forall|j: int| 0 <= j < i ==> (#[trigger] workers@[j])@ == initial(base@, chains@[j]),
        decreases chains.len() - i,
    {
        workers.push(ChainWorker::new(chains[i], base));
        i = i + 1;
    }
    workers
}

/// Judges a run once every worker has been waited for.
pub fn conclude(results: &Vec<Joined>) -> (r: Result<(), RunError>)
    ensures
        r == run_result(results@),
{
    let mut i: usize = 0;
    while i < results.len()
        invariant
            i <= results.len(),
            run_result(results@) == run_result_from(results@, i as int),
        decreases results.len() - i,
    {
        match results[i] {
            Joined::Lost => {
                return Err(RunError::JoinHandle { worker: i });
            },
            Joined::Failed(error) => {
                return Err(RunError::ExtractChain { worker: i, error });
            },
            Joined::Completed => {},
        }
        i = i + 1;
    }
    Ok(())
}

/// A run succeeds exactly if every worker ended without failure.
pub proof fn run_succeeds_iff_all_completed(results: Seq<Joined>, start: int)
    requires
        0 <= start,
    ensures
        run_result_from(results, start) is Ok <==> forall|i: int|
            start <= i < results.len() ==> #[trigger] results[i] == Joined::Completed,
    decreases results.len() - start,
{
    if start < results.len() {
        run_succeeds_iff_all_completed(results, start + 1);
    }
}

/// The results of workers that each got the given reply to the request for
/// its listing and then ended.
pub open spec fn results_after_listings(
    base: Seq<char>,
    chains: Seq<u64>,
    replies: Seq<Reply<ContractList>>,
) -> Seq<Joined> {
    Seq::new(
        chains.len(),
        |i: int| joined_of(chain_result(after_listing(initial(base, chains[i]), replies[i]))),
    )
}

/// Whatever chains are configured, if no chain's listing can be had, every
/// worker still ends, none in failure, and the run succeeds.
pub proof fn run_survives_listing_failures(
    base: Seq<char>,
    chains: Seq<u64>,
    replies: Seq<Reply<ContractList>>,
)
    requires
        chains.len() > 0,
        replies.len() == chains.len(),
        forall|i: int| 0 <= i < replies.len() ==> listing_failed(#[trigger] replies[i]),
    ensures
        results_after_listings(base, chains, replies).len() == chains.len(),
        forall|i: int|
            0 <= i < chains.len() ==> {
                let w = after_listing(initial(base, #[trigger] chains[i]), replies[i]);
                wf(w) && w.phase == Phase::Finished && w.chain_id == chains[i] && chain_result(w) is Ok
            },
        run_result(results_after_listings(base, chains, replies)) is Ok,
{
    let results = results_after_listings(base, chains, replies);
    assert forall|i: int| 0 <= i < results.len() implies #[trigger] results[i] == Joined::Completed by {
        assert(listing_failed(replies[i]));
    }
    run_succeeds_iff_all_completed(results, 0);
}

} // verus!
