use sourcify_extractor::contract::{
    AuxFile, CompilerInfo, ContractError, ContractInfo, MissingField, Source, SourceFile,
};
use sourcify_extractor::worker::{
    info_url, list_url, status_is_success, Action, ChainError, ChainWorker, ContractList,
    ContractOutcome, Phase, Reply,
};

const BASE: &str = "https://sourcify.dev/server";

fn list(full: &[&str], partial: &[&str]) -> ContractList {
    ContractList {
        full: full.iter().map(|a| a.to_string()).collect(),
        partial: partial.iter().map(|a| a.to_string()).collect(),
    }
}

fn listed(full: &[&str], partial: &[&str]) -> Reply<ContractList> {
    Reply::Response { status: 200, body: Some(list(full, partial)) }
}

fn contract(language: &str, metadata: Option<&str>) -> Reply<ContractInfo> {
    let mut files = vec![AuxFile { name: "creator-tx-hash.txt".to_string(), content: "0x01".to_string() }];
    if let Some(text) = metadata {
        files.push(AuxFile { name: "metadata.json".to_string(), content: text.to_string() });
    }
    Reply::Response {
        status: 200,
        body: Some(ContractInfo {
            compiler: CompilerInfo { version: "0.8.19".to_string() },
            language: language.to_string(),
            sources: vec![SourceFile {
                path: "A.sol".to_string(),
                source: Source { content: "contract A {}".to_string() },
            }],
            settings: serde_json::Value::Null,
            files,
        }),
    }
}

fn fetch(chain: u64, address: &str) -> Action {
    Action::Fetch(format!("{}/contracts/full_match/{}/{}", BASE, chain, address))
}

#[test]
fn request_addresses() {
    assert_eq!(list_url(BASE, 1), "https://sourcify.dev/server/contracts/list/1");
    assert_eq!(list_url("http://localhost:5555", 11155111), "http://localhost:5555/contracts/list/11155111");
    assert_eq!(
        info_url(BASE, 100, "0xAbC0000000000000000000000000000000000001"),
        "https://sourcify.dev/server/contracts/full_match/100/0xAbC0000000000000000000000000000000000001"
    );
    assert_eq!(info_url("", 0, ""), "/contracts/full_match/0/");
    assert_eq!(ChainWorker::new(5, BASE).listing_url(), "https://sourcify.dev/server/contracts/list/5");
}

#[test]
fn success_is_the_range_of_two_hundred() {
    assert!(status_is_success(200));
    assert!(status_is_success(204));
    assert!(status_is_success(299));
    assert!(!status_is_success(199));
    assert!(!status_is_success(300));
    assert!(!status_is_success(404));
    assert!(!status_is_success(500));
    assert!(!status_is_success(0));
}

#[test]
fn into_addresses_keeps_order_and_duplicates() {
    assert_eq!(list(&["a", "b"], &["c", "a"]).into_addresses(), vec!["a", "b", "c", "a"]);
    assert_eq!(list(&[], &[]).into_addresses(), Vec::<String>::new());
    assert_eq!(list(&[], &["x"]).into_addresses(), vec!["x"]);
}

#[test]
fn new_worker_waits_for_its_listing() {
    let w = ChainWorker::new(42, BASE);
    assert_eq!(w.chain_id(), 42);
    assert_eq!(w.phase(), Phase::AwaitListing);
    assert!(w.addresses().is_empty());
    assert!(w.outcomes().is_empty());
    assert!(!w.listing_unavailable());
    assert_eq!(w.result(), Ok(()));
}

#[test]
fn listing_with_server_error_ends_the_chain_without_failure() {
    let mut w = ChainWorker::new(1, BASE);
    assert_eq!(w.on_listing(Reply::Response { status: 500, body: None }), Action::Done);
    assert_eq!(w.phase(), Phase::Finished);
    assert_eq!(w.result(), Ok(()));
    assert!(w.listing_unavailable());
    assert!(w.outcomes().is_empty());
}

#[test]
fn listing_without_response_ends_the_chain_without_failure() {
    let mut w = ChainWorker::new(1, BASE);
    assert_eq!(w.on_listing(Reply::NoResponse), Action::Done);
    assert_eq!(w.phase(), Phase::Finished);
    assert_eq!(w.result(), Ok(()));
    assert!(w.listing_unavailable());
}

#[test]
fn listing_with_failure_status_ignores_a_body() {
    let mut w = ChainWorker::new(1, BASE);
    let reply = Reply::Response { status: 404, body: Some(list(&["a"], &[])) };
    assert_eq!(w.on_listing(reply), Action::Done);
    assert!(w.addresses().is_empty());
    assert!(w.listing_unavailable());
    assert_eq!(w.result(), Ok(()));
}

#[test]
fn listing_that_cannot_be_decoded_fails_the_chain() {
    let mut w = ChainWorker::new(1, BASE);
    assert_eq!(w.on_listing(Reply::Response { status: 200, body: None }), Action::Done);
    assert_eq!(w.phase(), Phase::Finished);
    assert_eq!(w.result(), Err(ChainError::UnreadableListing));
    assert!(!w.listing_unavailable());
}

#[test]
fn empty_listing_ends_the_chain() {
    let mut w = ChainWorker::new(1, BASE);
    assert_eq!(w.on_listing(listed(&[], &[])), Action::Done);
    assert_eq!(w.phase(), Phase::Finished);
    assert_eq!(w.result(), Ok(()));
    assert!(!w.listing_unavailable());
}

#[test]
fn address_listed_twice_is_extracted_twice() {
    let mut w = ChainWorker::new(7, BASE);
    assert_eq!(w.on_listing(listed(&["0xaa", "0xbb"], &["0xaa"])), fetch(7, "0xaa"));
    assert_eq!(w.addresses(), &vec!["0xaa".to_string(), "0xbb".to_string(), "0xaa".to_string()]);
    assert_eq!(w.on_info(contract("Vyper", None)), fetch(7, "0xbb"));
    assert_eq!(w.on_info(contract("Vyper", None)), fetch(7, "0xaa"));
    assert_eq!(w.phase(), Phase::AwaitInfo);
    assert_eq!(w.on_info(Reply::Response { status: 404, body: None }), Action::Done);
    assert_eq!(
        w.outcomes(),
        &vec![
            ContractOutcome::Skipped,
            ContractOutcome::Skipped,
            ContractOutcome::Failed(ContractError::HttpError)
        ]
    );
    assert_eq!(w.phase(), Phase::Finished);
    assert_eq!(w.result(), Ok(()));
}

#[test]
fn vyper_contract_is_not_submitted() {
    let mut w = ChainWorker::new(1, BASE);
    w.on_listing(listed(&["0x01"], &[]));
    let action = w.on_info(contract("Vyper", Some("{\"bytecode\":\"0x00\"}")));
    assert_eq!(action, Action::Done);
    assert_eq!(w.outcomes(), &vec![ContractOutcome::Skipped]);
    assert_eq!(w.result(), Ok(()));
}

#[test]
fn missing_metadata_does_not_stop_the_next_address() {
    let mut w = ChainWorker::new(1, BASE);
    assert_eq!(w.on_listing(listed(&["0x01", "0x02"], &[])), fetch(1, "0x01"));
    assert_eq!(w.on_info(contract("Solidity", None)), fetch(1, "0x02"));
    assert_eq!(
        w.outcomes(),
        &vec![ContractOutcome::Failed(ContractError::MissingField(MissingField::MetadataDocument))]
    );
    assert_eq!(w.phase(), Phase::AwaitInfo);
    let action = w.on_info(contract("Solidity", Some("{\"bytecode\":\"0x6080\"}")));
    let request = match action {
        Action::Submit(request) => request,
        other => panic!("no request: {:?}", other),
    };
    assert_eq!(request.bytecode, "0x6080");
    assert_eq!(request.metadata, "{\"bytecode\":\"0x6080\"}");
    assert_eq!(request.input, "{\"language\":\"Solidity\",\"settings\":null,\"sources\":{\"A.sol\":\"contract A {}\"}}");
    assert_eq!(w.phase(), Phase::AwaitAck);
    assert_eq!(w.on_ack(true), Action::Done);
    assert_eq!(
        w.outcomes(),
        &vec![
            ContractOutcome::Failed(ContractError::MissingField(MissingField::MetadataDocument)),
            ContractOutcome::Verified
        ]
    );
    assert_eq!(w.result(), Ok(()));
}

#[test]
fn refused_submission_fails_the_contract_only() {
    let mut w = ChainWorker::new(1, BASE);
    w.on_listing(listed(&["0x01"], &["0x02"]));
    assert!(matches!(w.on_info(contract("solidity", Some("{\"bytecode\":\"0x6080\"}"))), Action::Submit(_)));
    assert_eq!(w.on_ack(false), fetch(1, "0x02"));
    assert_eq!(w.outcomes(), &vec![ContractOutcome::Failed(ContractError::RpcError)]);
    assert_eq!(w.phase(), Phase::AwaitInfo);
    assert_eq!(w.result(), Ok(()));
}

#[test]
fn each_failure_of_the_description_has_its_error() {
    let mut w = ChainWorker::new(1, BASE);
    w.on_listing(listed(&["a", "b", "c", "d", "e"], &[]));
    w.on_info(Reply::NoResponse);
    w.on_info(Reply::Response { status: 503, body: None });
    w.on_info(Reply::Response { status: 200, body: None });
    w.on_info(contract("Solidity", Some("not json")));
    assert_eq!(w.on_info(contract("Solidity", Some("{}"))), Action::Done);
    assert_eq!(
        w.outcomes(),
        &vec![
            ContractOutcome::Failed(ContractError::HttpError),
            ContractOutcome::Failed(ContractError::HttpError),
            ContractOutcome::Failed(ContractError::DecodeError),
            ContractOutcome::Failed(ContractError::DecodeError),
            ContractOutcome::Failed(ContractError::MissingField(MissingField::Bytecode)),
        ]
    );
}
