use sourcify_extractor::orchestrator::{conclude, returned, spawn_all, Joined, RunError};
use sourcify_extractor::worker::{Action, ChainError, ContractList, Phase, Reply};

#[test]
fn one_worker_for_each_chain() {
    let workers = spawn_all(&vec![1, 5, 1, 11155111], "http://registry");
    assert_eq!(workers.len(), 4);
    let ids: Vec<u64> = workers.iter().map(|w| w.chain_id()).collect();
    assert_eq!(ids, vec![1, 5, 1, 11155111]);
    for w in workers.iter() {
        assert_eq!(w.phase(), Phase::AwaitListing);
    }
    assert_eq!(workers[3].listing_url(), "http://registry/contracts/list/11155111");
    assert!(spawn_all(&vec![], "http://registry").is_empty());
}

#[test]
fn run_completes_when_every_listing_fails() {
    let mut workers = spawn_all(&vec![1, 10, 137], "http://registry");
    let mut results = Vec::new();
    for w in workers.iter_mut() {
        let reply: Reply<ContractList> = Reply::Response { status: 500, body: None };
        assert_eq!(w.on_listing(reply), Action::Done);
        assert!(w.listing_unavailable());
        results.push(returned(w.result()));
    }
    assert_eq!(results, vec![Joined::Completed, Joined::Completed, Joined::Completed]);
    assert_eq!(conclude(&results), Ok(()));
}

#[test]
fn run_without_workers_succeeds() {
    assert_eq!(conclude(&vec![]), Ok(()));
}

#[test]
fn lost_worker_fails_the_run() {
    assert_eq!(
        conclude(&vec![Joined::Completed, Joined::Lost, Joined::Completed]),
        Err(RunError::JoinHandle { worker: 1 })
    );
}

#[test]
fn failed_worker_fails_the_run() {
    assert_eq!(
        conclude(&vec![Joined::Completed, Joined::Completed, Joined::Failed(ChainError::UnreadableListing)]),
        Err(RunError::ExtractChain { worker: 2, error: ChainError::UnreadableListing })
    );
}

#[test]
fn first_failure_decides() {
    assert_eq!(
        conclude(&vec![Joined::Failed(ChainError::UnreadableListing), Joined::Lost]),
        Err(RunError::ExtractChain { worker: 0, error: ChainError::UnreadableListing })
    );
    assert_eq!(
        conclude(&vec![Joined::Lost, Joined::Failed(ChainError::UnreadableListing)]),
        Err(RunError::JoinHandle { worker: 0 })
    );
}

#[test]
fn returned_keeps_the_result() {
    assert_eq!(returned(Ok(())), Joined::Completed);
    assert_eq!(returned(Err(ChainError::UnreadableListing)), Joined::Failed(ChainError::UnreadableListing));
}
