use vstd::prelude::*;
use crate::address::{derive_escrow_address, escrow_address};
use crate::key::{Key, Keyed};
use crate::ledger::{EscrowRecord, Ledger, LedgerModel, Vault};

verus! {

/// Why an escrow operation was refused. A refused operation changes nothing.
#[derive(Clone, Copy, Debug, PartialEq, Eq, Structural)]
pub enum EscrowError {
    /// A deposit or a requested amount of zero.
    InvalidAmount,
    /// The paying party holds less than the operation moves.
    InsufficientFunds,
    /// A record is already open at the derived address.
    AlreadyExists,
    /// No record is open at the given address.
    NotFound,
    /// Only the maker may cancel.
    Unauthorized,
    /// A credited balance would exceed what an amount can hold.
    Overflow,
    /// No address could be derived for the maker and seed.
    NoViableAddress,
}

/// What opening a swap returns: the record's address, or why it is refused.
/// Checks run in this order: address, collision, amounts, funds.
pub open spec fn make_outcome(
    l: LedgerModel,
    maker: Seq<u8>,
    mint_deposit: Seq<u8>,
    seed: u64,
    deposit: u64,
    receive: u64,
) -> Result<Seq<u8>, EscrowError> {
    match escrow_address(l.program_id, maker, seed) {
        None => Err(EscrowError::NoViableAddress),
        Some(found) => {
            if l.records.contains_key(found.0) {
                Err(EscrowError::AlreadyExists)
            } else if deposit == 0 || receive == 0 {
                Err(EscrowError::InvalidAmount)
            } else if l.balance(maker, mint_deposit) < deposit {
                Err(EscrowError::InsufficientFunds)
            } else {
                Ok(found.0)
            }
        },
    }
}

/// The ledger after a swap is opened: the deposit leaves the maker for a new
/// vault, and the record is written beside it.
pub open spec fn make_post(
    l: LedgerModel,
    maker: Key,
    mint_deposit: Key,
    mint_receive: Key,
    seed: u64,
    deposit: u64,
    receive: u64,
) -> LedgerModel {
    let found = escrow_address(l.program_id, maker@, seed)->Some_0;
    let record = EscrowRecord {
        seed,
        maker,
        mint_deposit,
        mint_receive,
        amount_receive: receive,
        bump: found.1,
    };
    l.with_balance(maker@, mint_deposit@, (l.balance(maker@, mint_deposit@) - deposit) as u64).with_record(
        found.0,
        record,
        Vault { mint: mint_deposit, amount: deposit },
    )
}

/// What cancelling the record at `addr` on behalf of `caller` returns.
pub open spec fn refund_outcome(l: LedgerModel, caller: Seq<u8>, addr: Seq<u8>) -> Result<(), EscrowError> {
    if !l.records.contains_key(addr) || !l.vaults.contains_key(addr) {
        Err(EscrowError::NotFound)
    } else if l.records[addr].maker@ != caller {
        Err(EscrowError::Unauthorized)
    } else if l.balance(caller, l.vaults[addr].mint@) + l.vaults[addr].amount > u64::MAX {
        Err(EscrowError::Overflow)
    } else {
        Ok(())
    }
}

/// The ledger after a cancel: the whole vault returns to the maker, and vault
/// and record are gone.
pub open spec fn refund_post(l: LedgerModel, addr: Seq<u8>) -> LedgerModel {
    let record = l.records[addr];
    let vault = l.vaults[addr];
    l.with_balance(
        record.maker@,
        vault.mint@,
        (l.balance(record.maker@, vault.mint@) + vault.amount) as u64,
    ).without_record(addr)
}

/// The ledger after the taker's payment reaches the maker.
pub open spec fn take_paid(l: LedgerModel, taker: Seq<u8>, addr: Seq<u8>) -> LedgerModel {
    let record = l.records[addr];
    l.transfer(taker, record.maker@, record.mint_receive@, record.amount_receive as nat)
}

/// What fulfilling the record at `addr` by `taker` returns.
pub open spec fn take_outcome(l: LedgerModel, taker: Seq<u8>, addr: Seq<u8>) -> Result<(), EscrowError> {
    if !l.records.contains_key(addr) || !l.vaults.contains_key(addr) {
        Err(EscrowError::NotFound)
    } else {
        let record = l.records[addr];
        let vault = l.vaults[addr];
        if l.balance(taker, record.mint_receive@) < record.amount_receive {
            Err(EscrowError::InsufficientFunds)
        } else if !l.can_transfer(taker, record.maker@, record.mint_receive@, record.amount_receive as nat) {
            Err(EscrowError::Overflow)
        } else if take_paid(l, taker, addr).balance(taker, vault.mint@) + vault.amount > u64::MAX {
            Err(EscrowError::Overflow)
        } else {
            Ok(())
        }
    }
}

/// The ledger after a fulfil: the taker pays the maker, the whole vault goes
/// to the taker, and vault and record are gone.
pub open spec fn take_post(l: LedgerModel, taker: Seq<u8>, addr: Seq<u8>) -> LedgerModel {
    let vault = l.vaults[addr];
    let paid = take_paid(l, taker, addr);
    paid.with_balance(taker, vault.mint@, (paid.balance(taker, vault.mint@) + vault.amount) as u64).without_record(
        addr,
    )
}

/// Opens a swap: locks `deposit` of `mint_deposit` from `maker` in a new vault
/// and records that `receive` of `mint_receive` is wanted in exchange.
pub fn make(
    ledger: &mut Ledger,
    maker: &Key,
    mint_deposit: &Key,
    mint_receive: &Key,
    seed: u64,
    deposit: u64,
    receive: u64,
) -> (r: Result<Key, EscrowError>)
    requires
        old(ledger).wf(),
    ensures
        final(ledger).wf(),
        match r {
            Ok(addr) => {
                &&& make_outcome(old(ledger)@, maker@, mint_deposit@, seed, deposit, receive) == Ok::<
                    Seq<u8>,
                    EscrowError,
                >(addr@)
                &&& final(ledger)@ == make_post(
                    old(ledger)@,
                    *maker,
                    *mint_deposit,
                    *mint_receive,
                    seed,
                    deposit,
                    receive,
                )
            },
            Err(e) => {
                &&& make_outcome(old(ledger)@, maker@, mint_deposit@, seed, deposit, receive) == Err::<
                    Seq<u8>,
                    EscrowError,
                >(e)
                &&& final(ledger)@ == old(ledger)@
            },
        },
{
    let (addr, bump) = match derive_escrow_address(&ledger.program_id(), maker, seed) {
        Some(found) => found,
        None => return Err(EscrowError::NoViableAddress),
    };
    if ledger.record(&addr).is_some() {
        return Err(EscrowError::AlreadyExists);
    }
    if deposit == 0 || receive == 0 {
        return Err(EscrowError::InvalidAmount);
    }
    let held = ledger.balance(maker, mint_deposit);
    if held < deposit {
        return Err(EscrowError::InsufficientFunds);
    }
    let ghost l0 = ledger@;
    ledger.set_balance(maker, mint_deposit, held - deposit);
    let record = EscrowRecord {
        seed,
        maker: *maker,
        mint_deposit: *mint_deposit,
        mint_receive: *mint_receive,
        amount_receive: receive,
        bump,
    };
    ledger.put_record(addr, record, Vault { mint: *mint_deposit, amount: deposit });
    assert(ledger@ == make_post(l0, *maker, *mint_deposit, *mint_receive, seed, deposit, receive));
    Ok(addr)
}

/// Cancels the record at `addr` on behalf of `caller`, who must be its maker:
/// the vault's whole balance returns to the maker and the record is closed.
pub fn refund(ledger: &mut Ledger, caller: &Key, addr: &Key) -> (r: Result<(), EscrowError>)
    requires
        old(ledger).wf(),
    ensures
        final(ledger).wf(),
        r == refund_outcome(old(ledger)@, caller@, addr@),
        r is Ok ==> final(ledger)@ == refund_post(old(ledger)@, addr@),
        r is Err ==> final(ledger)@ == old(ledger)@,
{
    let record = match ledger.record(addr) {
        Some(rec) => rec,
        None => return Err(EscrowError::NotFound),
    };
    let vault = match ledger.vault(addr) {
        Some(v) => v,
        None => return Err(EscrowError::NotFound),
    };
    if !record.maker.same(caller) {
        return Err(EscrowError::Unauthorized);
    }
    let held = ledger.balance(&record.maker, &vault.mint);
    if held > u64::MAX - vault.amount {
        return Err(EscrowError::Overflow);
    }
    ledger.set_balance(&record.maker, &vault.mint, held + vault.amount);
    ledger.drop_record(addr);
    Ok(())
}

/// Fulfils the record at `addr`: `taker` pays the requested amount to the
/// maker and receives the vault's whole balance; the record is closed.
pub fn take(ledger: &mut Ledger, taker: &Key, addr: &Key) -> (r: Result<(), EscrowError>)
    requires
        old(ledger).wf(),
    ensures
        final(ledger).wf(),
        r == take_outcome(old(ledger)@, taker@, addr@),
        r is Ok ==> final(ledger)@ == take_post(old(ledger)@, taker@, addr@),
        r is Err ==> final(ledger)@ == old(ledger)@,
{
    let ghost l0 = ledger@;
    let record = match ledger.record(addr) {
        Some(rec) => rec,
        None => return Err(EscrowError::NotFound),
    };
    let vault = match ledger.vault(addr) {
        Some(v) => v,
        None => return Err(EscrowError::NotFound),
    };
    let price = record.amount_receive;
    if ledger.balance(taker, &record.mint_receive) < price {
        return Err(EscrowError::InsufficientFunds);
    }
    let self_trade = taker.same(&record.maker);
    if !self_trade && ledger.balance(&record.maker, &record.mint_receive) > u64::MAX - price {
        return Err(EscrowError::Overflow);
    }
    let held = ledger.balance(taker, &vault.mint);
    let held_after_payment = if !self_trade && vault.mint.same(&record.mint_receive) {
        held - price
    } else {
        held
    };
    assert(held_after_payment == take_paid(l0, taker@, addr@).balance(taker@, vault.mint@));
    if held_after_payment > u64::MAX - vault.amount {
        return Err(EscrowError::Overflow);
    }
    ledger.transfer(taker, &record.maker, &record.mint_receive, price);
    ledger.set_balance(taker, &vault.mint, held_after_payment + vault.amount);
    ledger.drop_record(addr);
    Ok(())
}

} // verus!
