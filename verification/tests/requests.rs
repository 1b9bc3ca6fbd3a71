use prover::memory_pool::PoolError;
use prover::prover::{
    Admission, Confirmation, MiningSetup, Propagation, Prover, ProverRequest,
};
use prover::status::{State, Status};
use prover::transaction::{Address, Block, PeerAddr, Transaction, TransactionId};

fn transaction(n: u128) -> Transaction {
    Transaction::new(TransactionId::new(0, n), true)
}

fn peer_a() -> PeerAddr {
    PeerAddr { ip: 0xffff_0a00_0001, port: 4132 }
}

fn peer_b() -> PeerAddr {
    PeerAddr { ip: 0xffff_0a00_0002, port: 4132 }
}

fn local() -> PeerAddr {
    PeerAddr { ip: 0xffff_7f00_0001, port: 4130 }
}

fn ready() -> Status {
    Status::new(State::Ready)
}

fn offer(prover: &mut Prover, peer: PeerAddr, t: Transaction) -> Option<Propagation> {
    prover
        .update(ProverRequest::UnconfirmedTransaction(peer, t), &ready(), Confirmation::NotConfirmed)
        .propagation()
}

fn pool_ids(prover: &Prover) -> Vec<u128> {
    let mut ids: Vec<u128> = prover.memory_pool().transactions().iter().map(|t| t.id.lo).collect();
    ids.sort();
    ids
}

fn prover_with(numbers: &[u128]) -> Prover {
    let mut prover = Prover::new(false, None, local());
    for n in numbers {
        assert!(offer(&mut prover, peer_a(), transaction(*n)).is_some());
    }
    prover
}

#[test]
fn new_prover_has_an_empty_pool() {
    let prover = Prover::new(true, Some(Address { hi: 1, lo: 2 }), local());
    assert!(prover.memory_pool().is_empty());
    assert_eq!(prover.mining_setup(), MiningSetup::Enabled(Address { hi: 1, lo: 2 }));
}

#[test]
fn unconfirmed_transaction_is_admitted_and_propagated() {
    let mut prover = Prover::new(false, None, local());
    let order = offer(&mut prover, peer_a(), transaction(1));
    assert_eq!(order, Some(Propagation { exclude: peer_a(), transaction: transaction(1) }));
    assert_eq!(prover.memory_pool().transactions(), vec![transaction(1)]);
}

#[test]
fn repeated_transaction_is_ignored() {
    let mut prover = Prover::new(false, None, local());
    assert!(offer(&mut prover, peer_a(), transaction(1)).is_some());
    assert_eq!(offer(&mut prover, peer_a(), transaction(1)), None);
    assert_eq!(prover.memory_pool().transactions(), vec![transaction(1)]);
    assert_eq!(offer(&mut prover, peer_b(), transaction(1)), None);
    assert_eq!(prover.memory_pool().len(), 1);
}

#[test]
fn clear_with_a_block_removes_its_transactions() {
    let mut prover = prover_with(&[1, 2, 3]);
    let block = Block::new(5, vec![transaction(1), transaction(2)]);
    let order = prover.update(ProverRequest::MemoryPoolClear(Some(block)), &ready(), Confirmation::Unknown);
    assert_eq!(order, Admission::Skipped);
    assert_eq!(prover.memory_pool().transactions(), vec![transaction(3)]);
}

#[test]
fn clear_without_a_block_empties_the_pool() {
    let mut prover = prover_with(&[1]);
    let order = prover.update(ProverRequest::MemoryPoolClear(None), &ready(), Confirmation::Unknown);
    assert_eq!(order, Admission::Skipped);
    assert!(prover.memory_pool().is_empty());
    assert_eq!(prover.memory_pool().len(), 0);
}

#[test]
fn clear_applied_last_empties_whatever_came_before() {
    let mut prover = prover_with(&[1, 2, 3, 4]);
    let block = Block::new(1, vec![transaction(2)]);
    prover.update(ProverRequest::MemoryPoolClear(Some(block)), &ready(), Confirmation::Unknown);
    offer(&mut prover, peer_b(), transaction(9));
    prover.update(ProverRequest::MemoryPoolClear(None), &Status::new(State::Peering), Confirmation::Confirmed);
    assert!(prover.memory_pool().is_empty());
    // The pool works on after it was emptied.
    assert!(offer(&mut prover, peer_a(), transaction(1)).is_some());
    assert_eq!(pool_ids(&prover), vec![1]);
}

#[test]
fn clear_with_a_block_ignores_transactions_not_in_the_pool() {
    let mut prover = prover_with(&[1, 2]);
    let block = Block::new(3, vec![transaction(7), transaction(8)]);
    prover.update(ProverRequest::MemoryPoolClear(Some(block)), &ready(), Confirmation::Unknown);
    assert_eq!(pool_ids(&prover), vec![1, 2]);
}

#[test]
fn admitted_transaction_leaves_with_its_block() {
    let mut prover = prover_with(&[1, 2, 3]);
    let before = prover.memory_pool().len();
    let block = Block::new(3, vec![transaction(3), transaction(1), transaction(5)]);
    prover.update(ProverRequest::MemoryPoolClear(Some(block)), &ready(), Confirmation::Unknown);
    assert_eq!(before - prover.memory_pool().len(), 2);
    assert_eq!(pool_ids(&prover), vec![2]);
}

#[test]
fn confirmed_transaction_is_skipped() {
    let mut prover = Prover::new(false, None, local());
    let request = ProverRequest::UnconfirmedTransaction(peer_a(), transaction(1));
    assert_eq!(prover.update(request, &ready(), Confirmation::Confirmed), Admission::Skipped);
    assert!(prover.memory_pool().is_empty());
}

#[test]
fn failed_ledger_query_blocks_admission() {
    let mut prover = Prover::new(false, None, local());
    let request = ProverRequest::UnconfirmedTransaction(peer_a(), transaction(1));
    assert_eq!(prover.update(request, &ready(), Confirmation::Unknown), Admission::Skipped);
    assert!(prover.memory_pool().is_empty());
}

#[test]
fn rejected_transaction_is_not_propagated() {
    let mut prover = Prover::new(false, None, local());
    let bad = Transaction::new(TransactionId::new(0, 1), false);
    assert_eq!(offer(&mut prover, peer_a(), bad), None);
    assert!(prover.memory_pool().is_empty());
}

#[test]
fn transaction_is_dropped_while_peering() {
    let mut prover = Prover::new(false, None, local());
    let peering = Status::new(State::Peering);
    let request = ProverRequest::UnconfirmedTransaction(peer_a(), transaction(1));
    assert_eq!(Prover::ledger_query(&request, &peering), None);
    assert_eq!(prover.update(request, &peering, Confirmation::NotConfirmed), Admission::Skipped);
    assert!(prover.memory_pool().is_empty());
}

#[test]
fn transaction_is_admitted_in_every_mode_but_peering() {
    for state in [State::Ready, State::Mining, State::Syncing, State::ShuttingDown] {
        let mut prover = Prover::new(false, None, local());
        let request = ProverRequest::UnconfirmedTransaction(peer_b(), transaction(4));
        let order = prover.update(request, &Status::new(state), Confirmation::NotConfirmed);
        assert_eq!(
            order,
            Admission::Admitted(Propagation { exclude: peer_b(), transaction: transaction(4) })
        );
        assert_eq!(pool_ids(&prover), vec![4]);
    }
}

#[test]
fn ledger_is_asked_about_an_offered_transaction() {
    let request = ProverRequest::UnconfirmedTransaction(peer_a(), transaction(6));
    assert_eq!(Prover::ledger_query(&request, &ready()), Some(TransactionId::new(0, 6)));
    assert_eq!(Prover::ledger_query(&request, &Status::new(State::Mining)), Some(TransactionId::new(0, 6)));
    let clear = ProverRequest::MemoryPoolClear(None);
    assert_eq!(Prover::ledger_query(&clear, &ready()), None);
    let block = ProverRequest::MemoryPoolClear(Some(Block::new(1, vec![transaction(6)])));
    assert_eq!(Prover::ledger_query(&block, &ready()), None);
}

#[test]
fn add_unconfirmed_transaction_names_the_origin_peer() {
    let mut prover = Prover::new(false, None, local());
    let order = prover.add_unconfirmed_transaction(peer_b(), transaction(2), Confirmation::NotConfirmed);
    assert_eq!(
        order,
        Admission::Admitted(Propagation { exclude: peer_b(), transaction: transaction(2) })
    );
    assert_eq!(order.propagation(), Some(Propagation { exclude: peer_b(), transaction: transaction(2) }));
    let again = prover.add_unconfirmed_transaction(peer_a(), transaction(2), Confirmation::NotConfirmed);
    assert_eq!(again, Admission::Refused(PoolError::Duplicate));
    assert_eq!(again.propagation(), None);
    let confirmed = prover.add_unconfirmed_transaction(peer_a(), transaction(3), Confirmation::Confirmed);
    assert_eq!(confirmed, Admission::Skipped);
    assert_eq!(confirmed.propagation(), None);
    assert_eq!(pool_ids(&prover), vec![2]);
}

#[test]
fn admission_works_without_a_recipient() {
    let mut prover = Prover::new(true, None, local());
    assert_eq!(prover.mining_setup(), MiningSetup::MissingRecipient);
    let order = offer(&mut prover, peer_a(), transaction(1));
    assert_eq!(order, Some(Propagation { exclude: peer_a(), transaction: transaction(1) }));
    assert_eq!(pool_ids(&prover), vec![1]);
}

#[test]
fn only_a_plain_no_of_the_ledger_permits_admission() {
    assert_eq!(Confirmation::from_answer(Some(false)), Confirmation::NotConfirmed);
    assert_eq!(Confirmation::from_answer(Some(true)), Confirmation::Confirmed);
    assert_eq!(Confirmation::from_answer(None), Confirmation::Unknown);
    for (answer, admitted) in [(Some(false), true), (Some(true), false), (None, false)] {
        let mut prover = Prover::new(false, None, local());
        let request = ProverRequest::UnconfirmedTransaction(peer_a(), transaction(1));
        let order = prover.update(request, &ready(), Confirmation::from_answer(answer));
        assert_eq!(order.propagation().is_some(), admitted);
        assert_eq!(prover.memory_pool().len(), if admitted { 1 } else { 0 });
    }
}

#[test]
fn refusal_is_returned_with_its_reason() {
    let mut prover = prover_with(&[1]);
    let again = ProverRequest::UnconfirmedTransaction(peer_b(), transaction(1));
    assert_eq!(
        prover.update(again, &ready(), Confirmation::NotConfirmed),
        Admission::Refused(PoolError::Duplicate)
    );
    let bad = Transaction::new(TransactionId::new(0, 2), false);
    let rejected = ProverRequest::UnconfirmedTransaction(peer_b(), bad);
    assert_eq!(
        prover.update(rejected, &ready(), Confirmation::NotConfirmed),
        Admission::Refused(PoolError::Rejected)
    );
    // The pool is asked only after a plain no of the ledger.
    let unasked = ProverRequest::UnconfirmedTransaction(peer_b(), bad);
    assert_eq!(prover.update(unasked, &ready(), Confirmation::Confirmed), Admission::Skipped);
    // The verdict of the rules comes before the look into the pool.
    let both = Transaction::new(TransactionId::new(0, 1), false);
    assert_eq!(
        prover.add_unconfirmed_transaction(peer_a(), both, Confirmation::NotConfirmed),
        Admission::Refused(PoolError::Rejected)
    );
    assert_eq!(pool_ids(&prover), vec![1]);
}
