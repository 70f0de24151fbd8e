use vstd::prelude::*;
use crate::address::escrow_address;
use crate::key::{Holder, Key};
use crate::table::Table;

verus! {

/// One pending swap: what the maker locked and what they want back.
#[derive(Clone, Copy, Debug)]
pub struct EscrowRecord {
    pub seed: u64,
    pub maker: Key,
    pub mint_deposit: Key,
    pub mint_receive: Key,
    pub amount_receive: u64,
    pub bump: u8,
}

/// The custody account bound to one record.
#[derive(Clone, Copy, Debug)]
pub struct Vault {
    pub mint: Key,
    pub amount: u64,
}

/// The state of a ledger: balances per (owner, asset), and the open records
/// with their vaults, both keyed by the record's address.
pub struct LedgerModel {
    pub program_id: Seq<u8>,
    pub holdings: Map<(Seq<u8>, Seq<u8>), u64>,
    pub records: Map<Seq<u8>, EscrowRecord>,
    pub vaults: Map<Seq<u8>, Vault>,
}

impl LedgerModel {
    /// What `owner` holds of `mint`; an account never opened holds nothing.
    pub open spec fn balance(self, owner: Seq<u8>, mint: Seq<u8>) -> nat {
        if self.holdings.contains_key((owner, mint)) {
            self.holdings[(owner, mint)] as nat
        } else {
            0
        }
    }

    pub open spec fn with_balance(self, owner: Seq<u8>, mint: Seq<u8>, amount: u64) -> LedgerModel {
        LedgerModel { holdings: self.holdings.insert((owner, mint), amount), ..self }
    }

    /// Moves `amount` of `mint` from `from` to `to`.
    pub open spec fn transfer(self, from: Seq<u8>, to: Seq<u8>, mint: Seq<u8>, amount: nat) -> LedgerModel {
        let debited = self.with_balance(from, mint, (self.balance(from, mint) - amount) as u64);
        debited.with_balance(to, mint, (debited.balance(to, mint) + amount) as u64)
    }

    /// Whether that move finds enough at `from` and room at `to`.
    pub open spec fn can_transfer(self, from: Seq<u8>, to: Seq<u8>, mint: Seq<u8>, amount: nat) -> bool {
        &&& self.balance(from, mint) >= amount
        &&& from == to || self.balance(to, mint) + amount <= u64::MAX
    }

    pub open spec fn with_record(self, addr: Seq<u8>, record: EscrowRecord, vault: Vault) -> LedgerModel {
        LedgerModel {
            records: self.records.insert(addr, record),
            vaults: self.vaults.insert(addr, vault),
            ..self
        }
    }

    pub open spec fn without_record(self, addr: Seq<u8>) -> LedgerModel {
        LedgerModel { records: self.records.remove(addr), vaults: self.vaults.remove(addr), ..self }
    }

    /// Every record has exactly one vault, of the deposited asset, and lives at
    /// the address derived from its maker and seed.
    pub open spec fn wf(self) -> bool {
        &&& forall|a: Seq<u8>| #[trigger] self.records.contains_key(a) <==> self.vaults.contains_key(a)
        &&& forall|a: Seq<u8>| #[trigger] self.records.contains_key(a) ==> {
            &&& self.vaults[a].mint@ == self.records[a].mint_deposit@
            &&& escrow_address(self.program_id, self.records[a].maker@, self.records[a].seed)
                == Some((a, self.records[a].bump))
        }
    }
}

/// Balances and open escrows of one program.
pub struct Ledger {
    program_id: Key,
    holdings: Table<Holder, u64>,
    records: Table<Key, EscrowRecord>,
    vaults: Table<Key, Vault>,
}

impl View for Ledger {
    type V = LedgerModel;

    closed spec fn view(&self) -> LedgerModel {
        LedgerModel {
            program_id: self.program_id@,
            holdings: self.holdings.view(),
            records: self.records.view(),
            vaults: self.vaults.view(),
        }
    }
}

impl Ledger {
    pub closed spec fn tables_wf(&self) -> bool {
        self.holdings.wf() && self.records.wf() && self.vaults.wf()
    }

    pub open spec fn wf(&self) -> bool {
        self.tables_wf() && self@.wf()
    }

    /// An empty ledger for the program `program_id`.
    pub fn new(program_id: Key) -> (l: Ledger)
        ensures
            l.wf(),
            l@.program_id == program_id@,
            l@.holdings == Map::<(Seq<u8>, Seq<u8>), u64>::empty(),
            l@.records == Map::<Seq<u8>, EscrowRecord>::empty(),
            l@.vaults == Map::<Seq<u8>, Vault>::empty(),
    {
        Ledger { program_id, holdings: Table::new(), records: Table::new(), vaults: Table::new() }
    }

    /// The program whose addresses the records live at.
    pub fn program_id(&self) -> (k: Key)
        ensures
            k@ == self@.program_id,
    {
        self.program_id
    }

    pub fn balance(&self, owner: &Key, mint: &Key) -> (r: u64)
        requires
            self.tables_wf(),
        ensures
            r == self@.balance(owner@, mint@),
    {
        match self.holdings.get(&Holder { owner: *owner, mint: *mint }) {
            Some(v) => *v,
            None => 0,
        }
    }

    /// Sets what `owner` holds of `mint`, opening the account if needed.
    pub fn set_balance(&mut self, owner: &Key, mint: &Key, amount: u64)
        requires
            old(self).wf(),
        ensures
            final(self).wf(),
            final(self)@ == old(self)@.with_balance(owner@, mint@, amount),
    {
        self.holdings.insert(Holder { owner: *owner, mint: *mint }, amount);
    }

    pub fn transfer(&mut self, from: &Key, to: &Key, mint: &Key, amount: u64)
        requires
            old(self).wf(),
            old(self)@.can_transfer(from@, to@, mint@, amount as nat),
        ensures
            final(self).wf(),
            final(self)@ == old(self)@.transfer(from@, to@, mint@, amount as nat),
    {
        let b = self.balance(from, mint);
        self.set_balance(from, mint, b - amount);
        let c = self.balance(to, mint);
        self.set_balance(to, mint, c + amount);
    }

    /// The record stored at `addr`, if one is open there.
    pub fn record(&self, addr: &Key) -> (r: Option<EscrowRecord>)
        requires
            self.tables_wf(),
        ensures
            match r {
                Some(rec) => self@.records.contains_key(addr@) && rec == self@.records[addr@],
                None => !self@.records.contains_key(addr@),
            },
    {
        match self.records.get(addr) {
            Some(rec) => Some(*rec),
            None => None,
        }
    }

    /// The vault bound to the record at `addr`, if there is one.
    pub fn vault(&self, addr: &Key) -> (r: Option<Vault>)
        requires
            self.tables_wf(),
        ensures
            match r {
                Some(v) => self@.vaults.contains_key(addr@) && v == self@.vaults[addr@],
                None => !self@.vaults.contains_key(addr@),
            },
    {
        match self.vaults.get(addr) {
            Some(v) => Some(*v),
            None => None,
        }
    }

    pub(crate) fn put_record(&mut self, addr: Key, record: EscrowRecord, vault: Vault)
        requires
            old(self).tables_wf(),
        ensures
            final(self).tables_wf(),
            final(self)@ == old(self)@.with_record(addr@, record, vault),
    {
        self.records.insert(addr, record);
        self.vaults.insert(addr, vault);
    }

    pub(crate) fn drop_record(&mut self, addr: &Key)
        requires
            old(self).tables_wf(),
        ensures
            final(self).tables_wf(),
            final(self)@ == old(self)@.without_record(addr@),
    {
        self.records.remove(addr);
        self.vaults.remove(addr);
    }
}

} // verus!
