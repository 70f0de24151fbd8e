use vstd::prelude::*;
use crate::escrow::{
    make_outcome, make_post, refund_outcome, refund_post, take_outcome, take_post, EscrowError,
};
use crate::key::Key;
use crate::ledger::LedgerModel;

verus! {

/// Opening a swap locks exactly the deposit in the vault, records exactly the
/// requested amount, and takes exactly the deposit from the maker; no other
/// balance moves.
pub proof fn lemma_make_locks_deposit(
    l: LedgerModel,
    maker: Key,
    mint_deposit: Key,
    mint_receive: Key,
    seed: u64,
    deposit: u64,
    receive: u64,
)
    requires
        l.wf(),
        make_outcome(l, maker@, mint_deposit@, seed, deposit, receive) is Ok,
    ensures
        ({
            let addr = make_outcome(l, maker@, mint_deposit@, seed, deposit, receive)->Ok_0;
            let post = make_post(l, maker, mint_deposit, mint_receive, seed, deposit, receive);
            &&& post.wf()
            &&& post.vaults[addr].amount == deposit
            &&& post.vaults[addr].mint == mint_deposit
            &&& post.records[addr].amount_receive == receive
            &&& post.records[addr].maker == maker
            &&& post.records[addr].mint_receive == mint_receive
            &&& post.balance(maker@, mint_deposit@) == l.balance(maker@, mint_deposit@) - deposit
            &&& forall|o: Seq<u8>, m: Seq<u8>|
                (o, m) != (maker@, mint_deposit@) ==> #[trigger] post.balance(o, m) == l.balance(o, m)
        }),
{
}

/// Once a record is cancelled, cancelling or fulfilling it again finds
/// nothing.
pub proof fn lemma_refund_closes(l: LedgerModel, caller: Seq<u8>, addr: Seq<u8>, next: Seq<u8>)
    requires
        l.wf(),
        refund_outcome(l, caller, addr) is Ok,
    ensures
        refund_post(l, addr).wf(),
        refund_outcome(refund_post(l, addr), next, addr) == Err::<(), EscrowError>(EscrowError::NotFound),
        take_outcome(refund_post(l, addr), next, addr) == Err::<(), EscrowError>(EscrowError::NotFound),
{
}

/// Once a record is fulfilled, cancelling or fulfilling it again finds
/// nothing.
pub proof fn lemma_take_closes(l: LedgerModel, taker: Seq<u8>, addr: Seq<u8>, next: Seq<u8>)
    requires
        l.wf(),
        take_outcome(l, taker, addr) is Ok,
    ensures
        take_post(l, taker, addr).wf(),
        refund_outcome(take_post(l, taker, addr), next, addr) == Err::<(), EscrowError>(
            EscrowError::NotFound,
        ),
        take_outcome(take_post(l, taker, addr), next, addr) == Err::<(), EscrowError>(
            EscrowError::NotFound,
        ),
{
}

/// Anyone but the maker is refused a cancel, and a refused operation leaves
/// the ledger as it was.
pub proof fn lemma_refund_by_other_refused(l: LedgerModel, caller: Seq<u8>, addr: Seq<u8>)
    requires
        l.wf(),
        l.records.contains_key(addr),
        l.records[addr].maker@ != caller,
    ensures
        refund_outcome(l, caller, addr) == Err::<(), EscrowError>(EscrowError::Unauthorized),
{
}

/// A taker who holds less than the requested amount is refused.
pub proof fn lemma_take_short_refused(l: LedgerModel, taker: Seq<u8>, addr: Seq<u8>)
    requires
        l.wf(),
        l.records.contains_key(addr),
        l.balance(taker, l.records[addr].mint_receive@) < l.records[addr].amount_receive,
    ensures
        take_outcome(l, taker, addr) == Err::<(), EscrowError>(EscrowError::InsufficientFunds),
{
}

/// Opening a swap and then cancelling it as the maker always succeeds and
/// gives back exactly the ledger there was before.
pub proof fn lemma_make_then_refund_restores(
    l: LedgerModel,
    maker: Key,
    mint_deposit: Key,
    mint_receive: Key,
    seed: u64,
    deposit: u64,
    receive: u64,
)
    requires
        l.wf(),
        make_outcome(l, maker@, mint_deposit@, seed, deposit, receive) is Ok,
    ensures
        ({
            let addr = make_outcome(l, maker@, mint_deposit@, seed, deposit, receive)->Ok_0;
            let opened = make_post(l, maker, mint_deposit, mint_receive, seed, deposit, receive);
            &&& refund_outcome(opened, maker@, addr) is Ok
            &&& refund_post(opened, addr) == l
        }),
{
    let addr = make_outcome(l, maker@, mint_deposit@, seed, deposit, receive)->Ok_0;
    let opened = make_post(l, maker, mint_deposit, mint_receive, seed, deposit, receive);
    let back = refund_post(opened, addr);
    assert(back.holdings =~= l.holdings);
    assert(back.records =~= l.records);
    assert(back.vaults =~= l.vaults);
}

/// A swap between two parties over two assets settles exactly: the maker
/// gains the requested amount, the taker gains the deposit, and the record
/// and its vault are gone.
pub proof fn lemma_swap_settles(
    l: LedgerModel,
    maker: Key,
    taker: Key,
    mint_deposit: Key,
    mint_receive: Key,
    seed: u64,
    deposit: u64,
    receive: u64,
)
    requires
        l.wf(),
        make_outcome(l, maker@, mint_deposit@, seed, deposit, receive) is Ok,
        maker@ != taker@,
        mint_deposit@ != mint_receive@,
        l.balance(taker@, mint_receive@) >= receive,
        l.balance(maker@, mint_receive@) + receive <= u64::MAX,
        l.balance(taker@, mint_deposit@) + deposit <= u64::MAX,
    ensures
        ({
            let addr = make_outcome(l, maker@, mint_deposit@, seed, deposit, receive)->Ok_0;
            let opened = make_post(l, maker, mint_deposit, mint_receive, seed, deposit, receive);
            let done = take_post(opened, taker@, addr);
            &&& take_outcome(opened, taker@, addr) is Ok
            &&& done.balance(maker@, mint_receive@) == l.balance(maker@, mint_receive@) + receive
            &&& done.balance(taker@, mint_receive@) == l.balance(taker@, mint_receive@) - receive
            &&& done.balance(taker@, mint_deposit@) == l.balance(taker@, mint_deposit@) + deposit
            &&& done.balance(maker@, mint_deposit@) == l.balance(maker@, mint_deposit@) - deposit
            &&& !done.records.contains_key(addr)
            &&& !done.vaults.contains_key(addr)
        }),
{
}

/// While a record is open, opening another with the same maker and seed is
/// refused as a collision, whatever else it asks.
pub proof fn lemma_seed_reuse_refused(
    l: LedgerModel,
    maker: Key,
    mint_deposit: Key,
    mint_receive: Key,
    seed: u64,
    deposit: u64,
    receive: u64,
    other_deposit_mint: Key,
    other_deposit: u64,
    other_receive: u64,
)
    requires
        l.wf(),
        make_outcome(l, maker@, mint_deposit@, seed, deposit, receive) is Ok,
    ensures
        make_outcome(
            make_post(l, maker, mint_deposit, mint_receive, seed, deposit, receive),
            maker@,
            other_deposit_mint@,
            seed,
            other_deposit,
            other_receive,
        ) == Err::<Seq<u8>, EscrowError>(EscrowError::AlreadyExists),
{
}

} // verus!
