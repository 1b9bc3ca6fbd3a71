//! The prover: the requests that change its pool of unconfirmed
//! transactions, and the decisions of its mining scheduler.

use crate::memory_pool::{distinct_ids, ids, keyed, lemma_removal, MemoryPool, PoolError};
use crate::status::{State, Status};
use crate::transaction::{Address, Block, PeerAddr, Transaction, TransactionId};
use vstd::prelude::*;

verus! {

/// A request that the prover processes. Requests are applied one at a time,
/// in the order in which they arrive.
#[derive(Clone, Debug, PartialEq, Eq)]
pub enum ProverRequest {
    /// Removes the transactions of the block from the pool, or, without a
    /// block, empties the pool.
    MemoryPoolClear(Option<Block>),
    /// Offers a transaction that the given peer sent.
    UnconfirmedTransaction(PeerAddr, Transaction),
}

/// What the ledger says of a transaction.
#[derive(Clone, Copy, Debug, PartialEq, Eq, Structural)]
pub enum Confirmation {
    /// The ledger does not hold the transaction.
    NotConfirmed,
    /// The ledger holds the transaction.
    Confirmed,
    /// The ledger was not asked, or could not answer.
    Unknown,
}

impl Confirmation {
    /// What an answer of the ledger means: `Some(false)` that it does not
    /// hold the transaction, `Some(true)` that it does, and `None`, a query
    /// that failed, that nothing is known.
    pub fn from_answer(answer: Option<bool>) -> (confirmation: Confirmation)
        ensures
            confirmation == match answer {
                Some(false) => Confirmation::NotConfirmed,
                Some(true) => Confirmation::Confirmed,
                None => Confirmation::Unknown,
            },
    {
        match answer {
            Some(false) => Confirmation::NotConfirmed,
            Some(true) => Confirmation::Confirmed,
            None => Confirmation::Unknown,
        }
    }
}

/// An order to send a transaction to every peer but the one it came from.
#[derive(Clone, Copy, Debug, PartialEq, Eq, Structural)]
pub struct Propagation {
    pub exclude: PeerAddr,
    pub transaction: Transaction,
}

/// What became of a request, as far as it offered a transaction.
#[derive(Clone, Copy, Debug, PartialEq, Eq, Structural)]
pub enum Admission {
    /// Nothing was handed to the pool: the request offered no transaction,
    /// the node was connecting to peers, or the ledger did not plainly say
    /// that it does not hold the transaction.
    Skipped,
    /// The pool refused the transaction, for the given reason.
    Refused(PoolError),
    /// The pool admitted the transaction, which is to be propagated.
    Admitted(Propagation),
}

impl Admission {
    /// The propagation that this outcome orders, if any.
    pub open spec fn spec_propagation(self) -> Option<Propagation> {
        match self {
            Admission::Admitted(order) => Some(order),
            _ => None,
        }
    }

    /// Returns the propagation that this outcome orders, if any.
    pub fn propagation(&self) -> (order: Option<Propagation>)
        ensures
            order == self.spec_propagation(),
    {
        match self {
            Admission::Admitted(order) => Some(*order),
            _ => None,
        }
    }
}

/// An order to hand a mined block to the ledger, in the name of this node.
#[derive(Clone, Debug, PartialEq, Eq)]
pub struct BlockSubmission {
    pub origin: PeerAddr,
    pub block: Block,
}

/// What a mining job needs: who gets the reward, and the transactions to
/// put into the block.
#[derive(Clone, Debug, PartialEq, Eq)]
pub struct MiningJob {
    pub recipient: Address,
    pub transactions: Vec<Transaction>,
}

/// What the scheduler does at a tick.
#[derive(Clone, Debug, PartialEq, Eq)]
pub enum MiningAction {
    /// Nothing until the next tick.
    Skip,
    /// Start the job on the worker pool.
    Start(MiningJob),
}

/// How a mining job ended.
#[derive(Clone, Debug, PartialEq, Eq)]
pub enum MiningOutcome {
    /// The job found a block.
    Mined(Block),
    /// The computation gave up or was told to stop.
    Failed,
    /// The task that ran the computation did not finish.
    Aborted,
}

/// Whether a node is set up to mine.
#[derive(Clone, Copy, Debug, PartialEq, Eq, Structural)]
pub enum MiningSetup {
    /// The node is no miner: the scheduler does not run.
    Disabled,
    /// The node is a miner without a recipient for the reward: the
    /// scheduler does not run, and the operator is told so once.
    MissingRecipient,
    /// The node mines for the given recipient.
    Enabled(Address),
}

/// Whether a pool admits `transaction`, given the ledger's answer: only if
/// the ledger plainly does not hold it, the pool does not hold its
/// identifier, and the validity rules accept it.
pub open spec fn admits(
    pool: Map<TransactionId, Transaction>,
    transaction: Transaction,
    answer: Confirmation,
) -> bool {
    &&& answer == Confirmation::NotConfirmed
    &&& !pool.contains_key(transaction.id)
    &&& transaction.well_formed
}

/// What becomes of `transaction`, offered by `peer` to a node that is not
/// connecting to peers. Without a plain no of the ledger the pool is not
/// asked; the pool refuses what the validity rules reject, then what it
/// holds already; whatever is left is admitted and propagated to every peer
/// but `peer`.
pub open spec fn admission_of(
    pool: Map<TransactionId, Transaction>,
    peer: PeerAddr,
    transaction: Transaction,
    answer: Confirmation,
) -> Admission {
    if answer != Confirmation::NotConfirmed {
        Admission::Skipped
    } else if !transaction.well_formed {
        Admission::Refused(PoolError::Rejected)
    } else if pool.contains_key(transaction.id) {
        Admission::Refused(PoolError::Duplicate)
    } else {
        Admission::Admitted(Propagation { exclude: peer, transaction })
    }
}

/// What becomes of `request`, applied to `pool`: a request to clear the
/// pool offers nothing, and an offer made while the node is connecting to
/// peers is dropped.
pub open spec fn outcome_of(
    pool: Map<TransactionId, Transaction>,
    request: ProverRequest,
    peering: bool,
    answer: Confirmation,
) -> Admission {
    match request {
        ProverRequest::MemoryPoolClear(_) => Admission::Skipped,
        ProverRequest::UnconfirmedTransaction(peer, transaction) => if peering {
            Admission::Skipped
        } else {
            admission_of(pool, peer, transaction, answer)
        },
    }
}

/// The pool after `request` was applied to `pool`, where `peering` says
/// whether the node was connecting to peers, and `answer` is what the
/// ledger said of the request's transaction.
pub open spec fn pool_after(
    pool: Map<TransactionId, Transaction>,
    request: ProverRequest,
    peering: bool,
    answer: Confirmation,
) -> Map<TransactionId, Transaction> {
    match request {
        ProverRequest::MemoryPoolClear(Some(block)) => pool.remove_keys(ids(block.transactions@)),
        ProverRequest::MemoryPoolClear(None) => Map::empty(),
        ProverRequest::UnconfirmedTransaction(_, transaction) => if !peering && admits(
            pool,
            transaction,
            answer,
        ) {
            pool.insert(transaction.id, transaction)
        } else {
            pool
        },
    }
}

/// The propagation that applying `request` to `pool` orders, if any: one
/// for each transaction that was admitted, and no other.
pub open spec fn propagation_of(
    pool: Map<TransactionId, Transaction>,
    request: ProverRequest,
    peering: bool,
    answer: Confirmation,
) -> Option<Propagation> {
    match request {
        ProverRequest::MemoryPoolClear(_) => None,
        ProverRequest::UnconfirmedTransaction(peer, transaction) => if !peering && admits(
            pool,
            transaction,
            answer,
        ) {
            Some(Propagation { exclude: peer, transaction })
        } else {
            None
        },
    }
}

/// The identifier that the ledger is to be asked about before `request` is
/// applied: that of an offered transaction, unless the node is connecting
/// to peers.
pub open spec fn query_of(request: ProverRequest, peering: bool) -> Option<TransactionId> {
    match request {
        ProverRequest::UnconfirmedTransaction(_, transaction) => if peering {
            None
        } else {
            Some(transaction.id)
        },
        ProverRequest::MemoryPoolClear(_) => None,
    }
}

/// A request together with the circumstances under which it was applied.
pub struct Step {
    pub request: ProverRequest,
    pub peering: bool,
    pub answer: Confirmation,
}

/// The pool after the steps were applied to `pool`, the first one first.
pub open spec fn pool_after_all(pool: Map<TransactionId, Transaction>, steps: Seq<Step>) -> Map<
    TransactionId,
    Transaction,
>
    decreases steps.len(),
{
    if steps.len() == 0 {
        pool
    } else {
        pool_after(
            pool_after_all(pool, steps.drop_last()),
            steps.last().request,
            steps.last().peering,
            steps.last().answer,
        )
    }
}

/// Whatever the pool held and whatever was applied before, once a request
/// to empty the pool has been applied last, the pool is empty.
pub proof fn lemma_clear_last_empties(pool: Map<TransactionId, Transaction>, steps: Seq<Step>)
    requires
        steps.len() > 0,
        steps.last().request == ProverRequest::MemoryPoolClear(None),
    ensures
        pool_after_all(pool, steps) == Map::<TransactionId, Transaction>::empty(),
{
}

/// A request with a confirmed block leaves in the pool exactly the entries
/// whose identifier the block does not confirm, and the pool shrinks by
/// the number of identifiers that it shared with the block.
pub proof fn lemma_confirmed_block_leaves(
    pool: Map<TransactionId, Transaction>,
    block: Block,
    peering: bool,
    answer: Confirmation,
)
    requires
        pool.dom().finite(),
    ensures
        ({
            let after = pool_after(
                pool,
                ProverRequest::MemoryPoolClear(Some(block)),
                peering,
                answer,
            );
            let confirmed = ids(block.transactions@);
            &&& after.dom() == pool.dom().difference(confirmed)
            &&& forall|id: TransactionId| #[trigger] after.contains_key(id) ==> after[id] == pool[id]
            &&& after.len() == pool.len() - pool.dom().intersect(confirmed).len()
        }),
{
    lemma_removal(pool, block.transactions@);
}

/// Of two offers of transactions with the same identifier, applied one
/// after the other, at most one is admitted and at most one is propagated:
/// once the first is admitted, the second changes nothing.
pub proof fn lemma_same_identifier_admitted_once(
    pool: Map<TransactionId, Transaction>,
    first: Step,
    second: Step,
)
    requires
        first.request is UnconfirmedTransaction,
        second.request is UnconfirmedTransaction,
        first.request->UnconfirmedTransaction_1.id == second.request->UnconfirmedTransaction_1.id,
    ensures
        ({
            let between = pool_after(pool, first.request, first.peering, first.answer);
            let end = pool_after(between, second.request, second.peering, second.answer);
            let first_order = propagation_of(pool, first.request, first.peering, first.answer);
            let second_order = propagation_of(
                between,
                second.request,
                second.peering,
                second.answer,
            );
            &&& !(first_order.is_some() && second_order.is_some())
            &&& first_order.is_some() ==> end == between
            &&& first_order.is_some() <==> between != pool
            &&& second_order.is_some() <==> end != between
            &&& pool.contains_key(first.request->UnconfirmedTransaction_1.id) ==> end == pool
                && first_order.is_none() && second_order.is_none()
        }),
{
    let id = first.request->UnconfirmedTransaction_1.id;
    let between = pool_after(pool, first.request, first.peering, first.answer);
    let end = pool_after(between, second.request, second.peering, second.answer);
    if between != pool {
        assert(between.contains_key(id));
        assert(!pool.contains_key(id));
    }
    if end != between {
        assert(end.contains_key(id));
        assert(!between.contains_key(id));
    }
}

/// The prover of a node: its pool of unconfirmed transactions and what it
/// was set up with.
#[derive(Debug)]
pub struct Prover {
    memory_pool: MemoryPool,
    mines: bool,
    recipient: Option<Address>,
    local_ip: PeerAddr,
}

impl Prover {
    /// What holds of every prover: its pool is well formed.
    pub closed spec fn wf(&self) -> bool {
        self.memory_pool.wf()
    }

    /// The pool of unconfirmed transactions, by identifier.
    pub closed spec fn pool(&self) -> Map<TransactionId, Transaction> {
        self.memory_pool@
    }

    /// Whether the node has the role of a miner.
    pub closed spec fn mines(&self) -> bool {
        self.mines
    }

    /// The recipient of the mining reward, if one was given.
    pub closed spec fn recipient(&self) -> Option<Address> {
        self.recipient
    }

    /// The address under which this node is known to its peers.
    pub closed spec fn local_ip(&self) -> PeerAddr {
        self.local_ip
    }

    /// How the node is set up to mine.
    pub open spec fn spec_mining_setup(&self) -> MiningSetup {
        if !self.mines() {
            MiningSetup::Disabled
        } else {
            match self.recipient() {
                Some(recipient) => MiningSetup::Enabled(recipient),
                None => MiningSetup::MissingRecipient,
            }
        }
    }

    /// Whether a tick starts a mining job: only on a node that mines for a
    /// recipient, while the terminator is not set and the node is `Ready`.
    pub open spec fn starts_job(&self, state: State, terminator: bool) -> bool {
        &&& !terminator
        &&& state == State::Ready
        &&& self.mines()
        &&& self.recipient().is_some()
    }

    /// The pool is finite, each entry stands under its own identifier, and
    /// each passed the validity rules.
    pub proof fn lemma_pool_entries(&self)
        requires
            self.wf(),
        ensures
            self.pool().dom().finite(),
            forall|id: TransactionId| #[trigger]
                self.pool().contains_key(id) ==> self.pool()[id].id == id
                    && self.pool()[id].well_formed,
    {
        self.memory_pool.lemma_entries();
    }

    /// Returns a prover with an empty pool. `mines` says whether the node
    /// has the role of a miner, `recipient` who gets the reward, and
    /// `local_ip` is the node's own address.
    pub fn new(mines: bool, recipient: Option<Address>, local_ip: PeerAddr) -> (prover: Prover)
        ensures
            prover.wf(),
            prover.pool() == Map::<TransactionId, Transaction>::empty(),
            prover.mines() == mines,
            prover.recipient() == recipient,
            prover.local_ip() == local_ip,
    {
        Prover { memory_pool: MemoryPool::new(), mines, recipient, local_ip }
    }

    /// Returns the pool of unconfirmed transactions.
    pub fn memory_pool(&self) -> (pool: &MemoryPool)
        requires
            self.wf(),
        ensures
            pool.wf(),
            pool@ == self.pool(),
    {
        &self.memory_pool
    }

    /// Returns how the node is set up to mine. The scheduler runs only
    /// where this is `Enabled`.
    pub fn mining_setup(&self) -> (setup: MiningSetup)
        ensures
            setup == self.spec_mining_setup(),
    {
        if !self.mines {
            MiningSetup::Disabled
        } else {
            match self.recipient {
                Some(recipient) => MiningSetup::Enabled(recipient),
                None => MiningSetup::MissingRecipient,
            }
        }
    }

    /// Returns the identifier that the ledger is to be asked about before
    /// `request` is applied, if there is one. While the node is connecting
    /// to peers, offered transactions are dropped and nothing is asked.
    pub fn ledger_query(request: &ProverRequest, status: &Status) -> (query: Option<TransactionId>)
        ensures
            query == query_of(*request, status.state == State::Peering),
    {
        match request {
            ProverRequest::UnconfirmedTransaction(_, transaction) => {
                if status.is_peering() {
                    None
                } else {
                    Some(transaction.id)
                }
            },
            ProverRequest::MemoryPoolClear(_) => None,
        }
    }

    /// Applies `request` to the pool. With a block, its transactions leave
    /// the pool; without one, the pool is emptied; an offered transaction is
    /// handed to `add_unconfirmed_transaction`, unless the node is
    /// connecting to peers. Returns what became of the offer, and with it
    /// the propagation to order, if any.
    pub fn update(&mut self, request: ProverRequest, status: &Status, answer: Confirmation) -> (outcome:
        Admission)
        requires
            old(self).wf(),
        ensures
            final(self).wf(),
            final(self).pool() == pool_after(
                old(self).pool(),
                request,
                status.state == State::Peering,
                answer,
            ),
            outcome == outcome_of(
                old(self).pool(),
                request,
                status.state == State::Peering,
                answer,
            ),
            outcome.spec_propagation() == propagation_of(
                old(self).pool(),
                request,
                status.state == State::Peering,
                answer,
            ),
            final(self).mines() == old(self).mines(),
            final(self).recipient() == old(self).recipient(),
            final(self).local_ip() == old(self).local_ip(),
    {
        match request {
            ProverRequest::MemoryPoolClear(block) => {
                match block {
                    Some(block) => self.memory_pool.remove_transactions(&block.transactions),
                    None => self.memory_pool = MemoryPool::new(),
                }
                Admission::Skipped
            },
            ProverRequest::UnconfirmedTransaction(peer_ip, transaction) => {
                if !status.is_peering() {
                    self.add_unconfirmed_transaction(peer_ip, transaction, answer)
                } else {
                    Admission::Skipped
                }
            },
        }
    }

    /// Admits `transaction` if the ledger plainly does not hold it and the
    /// pool accepts it, and then orders its propagation to every peer but
    /// `peer_ip`. In every other case nothing changes and nothing is
    /// ordered: a failed query counts like a yes of the ledger, and a
    /// refusal of the pool is returned with its reason.
    pub fn add_unconfirmed_transaction(
        &mut self,
        peer_ip: PeerAddr,
        transaction: Transaction,
        answer: Confirmation,
    ) -> (outcome: Admission)
        requires
            old(self).wf(),
        ensures
            final(self).wf(),
            outcome == admission_of(old(self).pool(), peer_ip, transaction, answer),
            outcome is Admitted <==> admits(old(self).pool(), transaction, answer),
            admits(old(self).pool(), transaction, answer) ==> final(self).pool() == old(
                self,
            ).pool().insert(transaction.id, transaction),
            !admits(old(self).pool(), transaction, answer) ==> final(self).pool() == old(
                self,
            ).pool(),
            final(self).mines() == old(self).mines(),
            final(self).recipient() == old(self).recipient(),
            final(self).local_ip() == old(self).local_ip(),
    {
        match answer {
            Confirmation::NotConfirmed => {
                match self.memory_pool.add_transaction(&transaction) {
                    Ok(()) => Admission::Admitted(Propagation { exclude: peer_ip, transaction }),
                    Err(reason) => Admission::Refused(reason),
                }
            },
            _ => Admission::Skipped,
        }
    }

    /// Decides at a tick of the scheduler whether to mine. A job starts only
    /// while the terminator is not set and the node is `Ready`, on a node
    /// that mines for a recipient: the node then becomes `Mining`, and the
    /// job gets a copy of the pool. Otherwise nothing changes.
    pub fn tick(&self, status: &mut Status, terminator: bool) -> (action: MiningAction)
        requires
            self.wf(),
        ensures
            old(status).state != State::Ready ==> action is Skip,
            terminator ==> action is Skip,
            match action {
                MiningAction::Start(job) => {
                    &&& self.starts_job(old(status).state, terminator)
                    &&& final(status).state == State::Mining
                    &&& Some(job.recipient) == self.recipient()
                    &&& distinct_ids(job.transactions@)
                    &&& keyed(job.transactions@) == self.pool()
                    &&& job.transactions@.len() == self.pool().len()
                },
                MiningAction::Skip => {
                    &&& !self.starts_job(old(status).state, terminator)
                    &&& *final(status) == *old(status)
                },
            },
    {
        if terminator || !status.is_ready() || !self.mines {
            return MiningAction::Skip;
        }
        match self.recipient {
            Some(recipient) => {
                status.update(State::Mining);
                let transactions = self.memory_pool.transactions();
                MiningAction::Start(MiningJob { recipient, transactions })
            },
            None => MiningAction::Skip,
        }
    }

    /// Takes the outcome of a mining job. Whatever it is, the node becomes
    /// `Ready` again. A mined block is to be handed to the ledger in the
    /// name of this node; a failure orders nothing.
    pub fn settle(&self, status: &mut Status, outcome: MiningOutcome) -> (order: Option<
        BlockSubmission,
    >)
        ensures
            final(status).state == State::Ready,
            match outcome {
                MiningOutcome::Mined(block) => order == Some(
                    BlockSubmission { origin: self.local_ip(), block },
                ),
                MiningOutcome::Failed => order.is_none(),
                MiningOutcome::Aborted => order.is_none(),
            },
    {
        status.update(State::Ready);
        match outcome {
            MiningOutcome::Mined(block) => Some(BlockSubmission { origin: self.local_ip, block }),
            MiningOutcome::Failed => None,
            MiningOutcome::Aborted => None,
        }
    }
}

} // verus!
