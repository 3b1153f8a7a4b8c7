//! The worker of one chain, as a state machine. The caller performs each
//! action that the worker asks for and hands back what came of it; the worker
//! decides what that means and what is done next. The addresses of a chain
//! are visited one by one, in the order of the listing.

use crate::contract::{
    file_content, is_solidity, prepare_submission, submission_of, ContractError,
    ContractInfo, MissingField, RequestView, VerificationRequest,
};
use crate::text::{decimal, decimal_string};
use vstd::prelude::*;
use vstd::string::*;

verus! {

/// The contracts that the registry lists for a chain.
#[derive(Debug, Clone)]
pub struct ContractList {
    pub full: Vec<String>,
    pub partial: Vec<String>,
}

impl ContractList {
    /// All listed addresses: the full matches, then the partial ones, each as
    /// often as it is listed.
    pub open spec fn all(&self) -> Seq<String> {
        self.full@ + self.partial@
    }

    /// Hands out all listed addresses in the order of the listing.
    pub fn into_addresses(self) -> (r: Vec<String>)
        ensures
            r@ == self.all(),
    {
        let mut addresses = self.full;
        let mut partial = self.partial;
        addresses.append(&mut partial);
        addresses
    }
}

/// Where the registry lists the contracts of a chain.
pub open spec fn list_path(base: Seq<char>, chain_id: u64) -> Seq<char> {
    base + "/contracts/list/"@ + decimal(chain_id as nat)
}

/// Where the registry describes one contract of a chain.
pub open spec fn info_path(base: Seq<char>, chain_id: u64, address: Seq<char>) -> Seq<char> {
    base + "/contracts/full_match/"@ + decimal(chain_id as nat) + "/"@ + address
}

/// Writes the address of a chain's listing.
pub fn list_url(base: &str, chain_id: u64) -> (r: String)
    ensures
        r@ == list_path(base@, chain_id),
{
    let mut url = String::from_str(base);
    url.append("/contracts/list/");
    url.append(decimal_string(chain_id).as_str());
    url
}

/// Writes the address of a contract's description.
pub fn info_url(base: &str, chain_id: u64, address: &str) -> (r: String)
    ensures
        r@ == info_path(base@, chain_id, address@),
{
    let mut url = String::from_str(base);
    url.append("/contracts/full_match/");
    url.append(decimal_string(chain_id).as_str());
    url.append("/");
    url.append(address);
    url
}

/// A status in the range that HTTP gives to success.
pub open spec fn is_success(status: u16) -> bool {
    200 <= status < 300
}

/// Tells whether a status means success.
pub fn status_is_success(status: u16) -> (r: bool)
    ensures
        r == is_success(status),
{
    200 <= status && status < 300
}

/// What came of a request to the registry.
#[derive(Debug)]
pub enum Reply<T> {
    /// No response came, whatever was tried again.
    NoResponse,
    /// A response came. The body is the decoded document, or `None` where
    /// it could not be decoded.
    Response { status: u16, body: Option<T> },
}

/// What became of one listed address.
#[derive(Debug, Clone, Copy, PartialEq, Eq, Structural)]
pub enum ContractOutcome {
    /// The verification service accepted the contract.
    Verified,
    /// The contract is in another language and was passed over.
    Skipped,
    Failed(ContractError),
}

/// Why a chain's worker ends in failure.
#[derive(Debug, Clone, Copy, PartialEq, Eq, Structural)]
pub enum ChainError {
    /// The listing came with a successful status and could not be decoded.
    UnreadableListing,
}

/// What a worker waits for.
#[derive(Debug, Clone, Copy, PartialEq, Eq, Structural)]
pub enum Phase {
    AwaitListing,
    AwaitInfo,
    AwaitAck,
    Finished,
}

/// What the caller is to do next.
#[derive(Debug, PartialEq, Eq)]
pub enum Action {
    /// Get this address from the registry and hand the reply to `on_info`.
    Fetch(String),
    /// Send this request to the verification service, once, and hand the
    /// answer to `on_ack`.
    Submit(VerificationRequest),
    /// Nothing: the chain is done.
    Done,
}

/// An action as the contracts speak of it.
pub enum ActionView {
    Fetch(Seq<char>),
    Submit(RequestView),
    Done,
}

impl View for Action {
    type V = ActionView;

    open spec fn view(&self) -> ActionView {
        match self {
            Action::Fetch(url) => ActionView::Fetch(url@),
            Action::Submit(request) => ActionView::Submit(request@),
            Action::Done => ActionView::Done,
        }
    }
}

/// The worker of one chain.
#[derive(Debug)]
pub struct ChainWorker {
    chain_id: u64,
    base: String,
    phase: Phase,
    addresses: Vec<String>,
    outcomes: Vec<ContractOutcome>,
    listing_unavailable: bool,
    listing_unreadable: bool,
}

/// A worker as the contracts speak of it.
pub struct WorkerView {
    pub chain_id: u64,
    pub base: Seq<char>,
    pub phase: Phase,
    /// The addresses to visit, in order.
    pub addresses: Seq<String>,
    /// What became of the addresses visited so far, in the same order.
    pub outcomes: Seq<ContractOutcome>,
    /// The listing could not be had: a warning, and the chain counts as empty.
    pub listing_unavailable: bool,
    pub listing_unreadable: bool,
}

impl View for ChainWorker {
    type V = WorkerView;

    closed spec fn view(&self) -> WorkerView {
        WorkerView {
            chain_id: self.chain_id,
            base: self.base@,
            phase: self.phase,
            addresses: self.addresses@,
            outcomes: self.outcomes@,
            listing_unavailable: self.listing_unavailable,
            listing_unreadable: self.listing_unreadable,
        }
    }
}

/// A worker that has not begun.
pub open spec fn initial(base: Seq<char>, chain_id: u64) -> WorkerView {
    WorkerView {
        chain_id: chain_id,
        base: base,
        phase: Phase::AwaitListing,
        addresses: Seq::empty(),
        outcomes: Seq::empty(),
        listing_unavailable: false,
        listing_unreadable: false,
    }
}

/// The states that a worker can be in: no address has more than one outcome,
/// the address in work has none yet, and at the end each has one.
pub open spec fn wf(w: WorkerView) -> bool {
    match w.phase {
        Phase::AwaitListing => w.addresses.len() == 0 && w.outcomes.len() == 0
            && !w.listing_unavailable && !w.listing_unreadable,
        Phase::AwaitInfo => w.outcomes.len() < w.addresses.len(),
        Phase::AwaitAck => w.outcomes.len() < w.addresses.len(),
        Phase::Finished => w.outcomes.len() == w.addresses.len(),
    }
}

/// How a worker ends: in failure only where the listing could not be read.
pub open spec fn chain_result(w: WorkerView) -> Result<(), ChainError> {
    if w.listing_unreadable {
        Err(ChainError::UnreadableListing)
    } else {
        Ok(())
    }
}

/// What a worker asks for when it is done with an address: the next
/// address's description, or nothing after the last.
pub open spec fn next_action(w: WorkerView) -> ActionView {
    if w.outcomes.len() < w.addresses.len() {
        ActionView::Fetch(info_path(w.base, w.chain_id, w.addresses[w.outcomes.len() as int]@))
    } else {
        ActionView::Done
    }
}

/// The worker after the address in work got its outcome.
pub open spec fn record(w: WorkerView, outcome: ContractOutcome) -> WorkerView {
    WorkerView {
        outcomes: w.outcomes.push(outcome),
        phase: if w.outcomes.len() + 1 < w.addresses.len() {
            Phase::AwaitInfo
        } else {
            Phase::Finished
        },
        ..w
    }
}

/// The listing could not be had: no response, or one without success.
pub open spec fn listing_failed(reply: Reply<ContractList>) -> bool {
    match reply {
        Reply::NoResponse => true,
        Reply::Response { status, body } => !is_success(status),
    }
}

/// The worker after the reply to its request for the listing.
pub open spec fn after_listing(w: WorkerView, reply: Reply<ContractList>) -> WorkerView {
    match reply {
        Reply::Response { status, body: Some(list) } if is_success(status) => WorkerView {
            addresses: list.all(),
            phase: if list.all().len() > 0 {
                Phase::AwaitInfo
            } else {
                Phase::Finished
            },
            ..w
        },
        Reply::Response { status, body: None } if is_success(status) => WorkerView {
            phase: Phase::Finished,
            listing_unreadable: true,
            ..w
        },
        _ => WorkerView { phase: Phase::Finished, listing_unavailable: true, ..w },
    }
}

/// What a reply to the request for a contract's description comes to.
pub open spec fn info_outcome(reply: Reply<ContractInfo>) -> Result<Option<RequestView>, ContractError> {
    match reply {
        Reply::NoResponse => Err(ContractError::HttpError),
        Reply::Response { status, body } => if !is_success(status) {
            Err(ContractError::HttpError)
        } else {
            match body {
                None => Err(ContractError::DecodeError),
                Some(info) => submission_of(info),
            }
        },
    }
}

/// The worker after the reply to its request for a contract's description.
pub open spec fn after_info(w: WorkerView, reply: Reply<ContractInfo>) -> WorkerView {
    match info_outcome(reply) {
        Ok(Some(_)) => WorkerView { phase: Phase::AwaitAck, ..w },
        Ok(None) => record(w, ContractOutcome::Skipped),
        Err(e) => record(w, ContractOutcome::Failed(e)),
    }
}

/// What the worker asks for after that reply.
pub open spec fn action_after_info(w: WorkerView, reply: Reply<ContractInfo>) -> ActionView {
    match info_outcome(reply) {
        Ok(Some(request)) => ActionView::Submit(request),
        _ => next_action(after_info(w, reply)),
    }
}

/// The worker after the verification service answered.
pub open spec fn after_ack(w: WorkerView, accepted: bool) -> WorkerView {
    record(
        w,
        if accepted {
            ContractOutcome::Verified
        } else {
            ContractOutcome::Failed(ContractError::RpcError)
        },
    )
}

impl ChainWorker {
    /// A worker for a chain, which waits for the chain's listing.
    pub fn new(chain_id: u64, base: &str) -> (r: ChainWorker)
        ensures
            r@ == initial(base@, chain_id),
            wf(r@),
    {
        ChainWorker {
            chain_id,
            base: String::from_str(base),
            phase: Phase::AwaitListing,
            addresses: Vec::new(),
            outcomes: Vec::new(),
            listing_unavailable: false,
            listing_unreadable: false,
        }
    }

    /// The chain that the worker extracts.
    pub fn chain_id(&self) -> (r: u64)
        ensures
            r == self@.chain_id,
    {
        self.chain_id
    }

    /// What the worker waits for.
    pub fn phase(&self) -> (r: Phase)
        ensures
            r == self@.phase,
    {
        self.phase
    }

    /// The addresses to visit, in order.
    pub fn addresses(&self) -> (r: &Vec<String>)
        ensures
            r@ == self@.addresses,
    {
        &self.addresses
    }

    /// What became of the addresses visited so far, in the same order.
    pub fn outcomes(&self) -> (r: &Vec<ContractOutcome>)
        ensures
            r@ == self@.outcomes,
    {
        &self.outcomes
    }

    /// Whether the listing could not be had, which the caller records as a
    /// warning.
    pub fn listing_unavailable(&self) -> (r: bool)
        ensures
            r == self@.listing_unavailable,
    {
        self.listing_unavailable
    }

    /// How the worker ends.
    pub fn result(&self) -> (r: Result<(), ChainError>)
        ensures
            r == chain_result(self@),
    {
        if self.listing_unreadable {
            Err(ChainError::UnreadableListing)
        } else {
            Ok(())
        }
    }

    /// The address of the chain's listing, which the caller gets first.
    pub fn listing_url(&self) -> (r: String)
        ensures
            r@ == list_path(self@.base, self@.chain_id),
    {
        list_url(self.base.as_str(), self.chain_id)
    }

    fn next(&self) -> (a: Action)
        requires
            self@.outcomes.len() <= self@.addresses.len(),
        ensures
            a@ == next_action(self@),
    {
        let done: usize = self.outcomes.len();
        if done < self.addresses.len() {
            Action::Fetch(info_url(self.base.as_str(), self.chain_id, self.addresses[done].as_str()))
        } else {
            Action::Done
        }
    }

    fn settle(&mut self, outcome: ContractOutcome) -> (a: Action)
        requires
            old(self)@.outcomes.len() < old(self)@.addresses.len(),
        ensures
            final(self)@ == record(old(self)@, outcome),
            a@ == next_action(final(self)@),
            wf(final(self)@),
    {
        self.outcomes.push(outcome);
        self.phase = if self.outcomes.len() < self.addresses.len() {
            Phase::AwaitInfo
        } else {
            Phase::Finished
        };
        self.next()
    }

    /// Takes the reply to the request for the listing. A listing that could
    /// not be had ends the chain without failure; one that was had gives the
    /// addresses to visit.
    pub fn on_listing(&mut self, reply: Reply<ContractList>) -> (a: Action)
        requires
            wf(old(self)@),
            old(self)@.phase == Phase::AwaitListing,
        ensures
            final(self)@ == after_listing(old(self)@, reply),
            a@ == next_action(final(self)@),
            wf(final(self)@),
    {
        match reply {
            Reply::NoResponse => {
                self.listing_unavailable = true;
                self.phase = Phase::Finished;
            },
            Reply::Response { status, body } => {
                if !status_is_success(status) {
                    self.listing_unavailable = true;
                    self.phase = Phase::Finished;
                } else {
                    match body {
                        None => {
                            self.listing_unreadable = true;
                            self.phase = Phase::Finished;
                        },
                        Some(list) => {
                            self.addresses = list.into_addresses();
                            self.phase = if self.addresses.len() > 0 {
                                Phase::AwaitInfo
                            } else {
                                Phase::Finished
                            };
                        },
                    }
                }
            },
        }
        self.next()
    }

    /// Takes the reply to the request for a contract's description. A
    /// request for verification is asked for where one can be made; else the
    /// address gets its outcome and the worker goes on to the next.
    pub fn on_info(&mut self, reply: Reply<ContractInfo>) -> (a: Action)
        requires
            wf(old(self)@),
            old(self)@.phase == Phase::AwaitInfo,
        ensures
            final(self)@ == after_info(old(self)@, reply),
            a@ == action_after_info(old(self)@, reply),
            wf(final(self)@),
    {
        let outcome: Result<Option<VerificationRequest>, ContractError> = match reply {
            Reply::NoResponse => Err(ContractError::HttpError),
            Reply::Response { status, body } => {
                if !status_is_success(status) {
                    Err(ContractError::HttpError)
                } else {
                    match body {
                        None => Err(ContractError::DecodeError),
                        Some(info) => prepare_submission(info),
                    }
                }
            },
        };
        match outcome {
            Ok(Some(request)) => {
                self.phase = Phase::AwaitAck;
                Action::Submit(request)
            },
            Ok(None) => self.settle(ContractOutcome::Skipped),
            Err(e) => self.settle(ContractOutcome::Failed(e)),
        }
    }

    /// Takes the answer of the verification service. A refusal is the
    /// contract's failure, and the request is not sent again.
    pub fn on_ack(&mut self, accepted: bool) -> (a: Action)
        requires
            wf(old(self)@),
            old(self)@.phase == Phase::AwaitAck,
        ensures
            final(self)@ == after_ack(old(self)@, accepted),
            a@ == next_action(final(self)@),
            wf(final(self)@),
    {
        if accepted {
            self.settle(ContractOutcome::Verified)
        } else {
            self.settle(ContractOutcome::Failed(ContractError::RpcError))
        }
    }
}

/// A listing that could not be had ends the chain at once and without
/// failure, and leaves a warning.
pub proof fn listing_failure_is_no_error(w: WorkerView, reply: Reply<ContractList>)
    requires
        wf(w),
        w.phase == Phase::AwaitListing,
        listing_failed(reply),
    ensures
        after_listing(w, reply).phase == Phase::Finished,
        after_listing(w, reply).listing_unavailable,
        chain_result(after_listing(w, reply)) is Ok,
        next_action(after_listing(w, reply)) == ActionView::Done,
{
}

/// An address that the listing holds both as a full and as a partial match
/// is visited twice: it stands at two places among the addresses to visit.
pub proof fn listed_twice_is_visited_twice(w: WorkerView, status: u16, list: ContractList, i: int, j: int)
    requires
        is_success(status),
        0 <= i < list.full@.len(),
        0 <= j < list.partial@.len(),
        list.full@[i] == list.partial@[j],
    ensures
        ({
            let visited = after_listing(w, (Reply::Response { status, body: Some(list) })).addresses;
            &&& visited.len() == list.full@.len() + list.partial@.len()
            &&& visited[i] == list.full@[i]
            &&& visited[list.full@.len() + j] == list.full@[i]
            &&& i != list.full@.len() + j
        }),
{
}

/// While addresses are left, the worker asks for the description of the
/// first address that has no outcome yet.
pub proof fn addresses_are_visited_in_order(w: WorkerView)
    requires
        wf(w),
        w.phase == Phase::AwaitInfo,
    ensures
        next_action(w) == ActionView::Fetch(
            info_path(w.base, w.chain_id, w.addresses[w.outcomes.len() as int]@),
        ),
{
}

/// Whatever comes back for a contract, the addresses to visit stay as the
/// listing gave them, no outcome is changed, and at most one is added; a
/// worker at its end has one outcome for each address.
pub proof fn steps_keep_what_is_done(w: WorkerView, reply: Reply<ContractInfo>, accepted: bool)
    requires
        wf(w),
    ensures
        after_info(w, reply).addresses == w.addresses,
        after_ack(w, accepted).addresses == w.addresses,
        w.outcomes.is_prefix_of(after_info(w, reply).outcomes),
        after_info(w, reply).outcomes.len() <= w.outcomes.len() + 1,
        after_ack(w, accepted).outcomes == w.outcomes.push(after_ack(w, accepted).outcomes.last()),
        w.phase == Phase::Finished ==> w.outcomes.len() == w.addresses.len(),
{
}

/// A contract that fails does not stop its chain: the failure is its
/// outcome, and the worker asks for the next address if there is one.
pub proof fn failure_does_not_stop_the_chain(w: WorkerView, reply: Reply<ContractInfo>)
    requires
        wf(w),
        w.phase == Phase::AwaitInfo,
        info_outcome(reply) is Err,
    ensures
        ({
            let after = after_info(w, reply);
            &&& wf(after)
            &&& after.addresses == w.addresses
            &&& after.outcomes == w.outcomes.push(ContractOutcome::Failed(info_outcome(reply)->Err_0))
            &&& chain_result(after) == chain_result(w)
            &&& w.outcomes.len() + 1 < w.addresses.len() ==> after.phase == Phase::AwaitInfo
                && action_after_info(w, reply) == ActionView::Fetch(
                info_path(w.base, w.chain_id, w.addresses[w.outcomes.len() as int + 1]@),
            )
            &&& w.outcomes.len() + 1 == w.addresses.len() ==> after.phase == Phase::Finished
                && action_after_info(w, reply) == ActionView::Done
        }),
{
}

/// A description of a Solidity contract without a metadata document is such
/// a failure.
pub proof fn missing_metadata_fails_the_contract(status: u16, info: ContractInfo)
    requires
        is_success(status),
        is_solidity(info.language@),
        file_content(info.files@, "metadata.json"@) is None,
    ensures
        info_outcome((Reply::Response { status, body: Some(info) })) == Err::<
            Option<RequestView>,
            ContractError,
        >(ContractError::MissingField(MissingField::MetadataDocument)),
{
}

/// A contract in another language asks for no verification and is no
/// failure.
pub proof fn other_language_submits_nothing(w: WorkerView, status: u16, info: ContractInfo)
    requires
        wf(w),
        w.phase == Phase::AwaitInfo,
        is_success(status),
        !is_solidity(info.language@),
    ensures
        ({
            let reply = Reply::Response { status, body: Some(info) };
            &&& !(action_after_info(w, reply) is Submit)
            &&& after_info(w, reply).outcomes == w.outcomes.push(ContractOutcome::Skipped)
        }),
{
}

} // verus!
