//! The ledger: the records of one program, each at its own address.

use vstd::prelude::*;
use crate::address::Address;
use crate::address::derivation;
use crate::address::Derived;
use crate::address::identifier_seeds;
use crate::address::stake_entry_seeds;
use crate::address::stake_pool_seeds;
use crate::error::StakePoolError;
use crate::state::Identifier;
use crate::state::StakeEntry;
use crate::state::StakePool;
use crate::state::StakePoolView;

verus! {

/// A record of this program.
#[derive(Clone, Debug, PartialEq, Eq)]
pub enum Record {
    Identifier(Identifier),
    StakePool(StakePool),
    StakeEntry(StakeEntry),
}

/// The mathematical content of a record.
pub enum RecordView {
    Identifier(Identifier),
    StakePool(StakePoolView),
    StakeEntry(StakeEntry),
}

impl View for Record {
    type V = RecordView;

    open spec fn view(&self) -> RecordView {
        match *self {
            Record::Identifier(i) => RecordView::Identifier(i),
            Record::StakePool(p) => RecordView::StakePool(p@),
            Record::StakeEntry(e) => RecordView::StakeEntry(e),
        }
    }
}

/// A record and the address at which it lives.
#[derive(Clone, Debug, PartialEq, Eq)]
struct Account {
    address: Address,
    record: Record,
}

/// The records of one program. No two of them share an address.
#[derive(Clone, Debug, PartialEq, Eq)]
pub struct Ledger {
    program: Address,
    accounts: Vec<Account>,
}

/// No address occurs twice.
spec fn distinct(accounts: Seq<Account>) -> bool {
    forall|i: int, j: int|
        0 <= i < j < accounts.len() ==> (#[trigger] accounts[i]).address != (
        #[trigger] accounts[j]).address
}

/// Some account lives at `address`.
spec fn occupied(accounts: Seq<Account>, address: Address) -> bool {
    exists|i: int| 0 <= i < accounts.len() && (#[trigger] accounts[i]).address == address
}

/// The place of the account that lives at `address`.
spec fn place_of(accounts: Seq<Account>, address: Address) -> int {
    choose|i: int| 0 <= i < accounts.len() && (#[trigger] accounts[i]).address == address
}

/// The ledger as a map from addresses to records.
spec fn as_map(accounts: Seq<Account>) -> Map<Address, RecordView> {
    Map::new(
        |a: Address| occupied(accounts, a),
        |a: Address| accounts[place_of(accounts, a)].record@,
    )
}

proof fn lemma_place(accounts: Seq<Account>, i: int)
    requires
        distinct(accounts),
        0 <= i < accounts.len(),
    ensures
        occupied(accounts, accounts[i].address),
        place_of(accounts, accounts[i].address) == i,
        as_map(accounts).contains_key(accounts[i].address),
        as_map(accounts)[accounts[i].address] == accounts[i].record@,
{
    let a = accounts[i].address;
    let j = place_of(accounts, a);
    assert(0 <= j < accounts.len() && accounts[j].address == a);
    if i < j {
        assert(accounts[i].address != accounts[j].address);
    } else if j < i {
        assert(accounts[j].address != accounts[i].address);
    }
}

proof fn lemma_push(accounts: Seq<Account>, account: Account)
    requires
        distinct(accounts),
        !occupied(accounts, account.address),
    ensures
        distinct(accounts.push(account)),
        as_map(accounts.push(account)) == as_map(accounts).insert(
            account.address,
            account.record@,
        ),
{
    let next = accounts.push(account);
    assert forall|i: int, j: int| 0 <= i < j < next.len() implies (#[trigger] next[i]).address != (
    #[trigger] next[j]).address by {
        if j < accounts.len() {
            assert(accounts[i].address != accounts[j].address);
        } else {
            assert(accounts[i].address != account.address);
        }
    }
    let want = as_map(accounts).insert(account.address, account.record@);
    assert forall|a: Address| as_map(next).contains_key(a) <==> want.contains_key(a) by {
        if occupied(next, a) {
            let i = place_of(next, a);
            if i < accounts.len() {
                assert(accounts[i].address == a);
            }
        }
        if occupied(accounts, a) {
            let i = place_of(accounts, a);
            assert(next[i].address == a);
        }
        if a == account.address {
            assert(next[accounts.len() as int].address == a);
        }
    }
    assert forall|a: Address| as_map(next).contains_key(a) implies as_map(next)[a] == want[a] by {
        let i = place_of(next, a);
        lemma_place(next, i);
        if i < accounts.len() {
            lemma_place(accounts, i);
        }
    }
    assert(as_map(next) =~= want);
}

proof fn lemma_remove(accounts: Seq<Account>, i: int)
    requires
        distinct(accounts),
        0 <= i < accounts.len(),
    ensures
        distinct(accounts.remove(i)),
        !occupied(accounts.remove(i), accounts[i].address),
        as_map(accounts.remove(i)) == as_map(accounts).remove(accounts[i].address),
{
    let rest = accounts.remove(i);
    let gone = accounts[i].address;
    assert forall|j: int, k: int| 0 <= j < k < rest.len() implies (#[trigger] rest[j]).address != (
    #[trigger] rest[k]).address by {
        let jj = if j < i { j } else { j + 1 };
        let kk = if k < i { k } else { k + 1 };
        assert(accounts[jj].address != accounts[kk].address);
    }
    assert forall|j: int| 0 <= j < rest.len() implies (#[trigger] rest[j]).address != gone by {
        let jj = if j < i { j } else { j + 1 };
        if jj < i {
            assert(accounts[jj].address != accounts[i].address);
        } else {
            assert(accounts[i].address != accounts[jj].address);
        }
    }
    let want = as_map(accounts).remove(gone);
    assert forall|a: Address| as_map(rest).contains_key(a) <==> want.contains_key(a) by {
        if occupied(rest, a) {
            let j = place_of(rest, a);
            let jj = if j < i { j } else { j + 1 };
            assert(accounts[jj].address == a);
        }
        if occupied(accounts, a) && a != gone {
            let j = place_of(accounts, a);
            let jj = if j < i { j } else { j - 1 };
            assert(rest[jj].address == a);
        }
    }
    assert forall|a: Address| as_map(rest).contains_key(a) implies as_map(rest)[a] == want[a] by {
        let j = place_of(rest, a);
        lemma_place(rest, j);
        let jj = if j < i { j } else { j + 1 };
        lemma_place(accounts, jj);
    }
    assert(as_map(rest) =~= want);
}

proof fn lemma_count(accounts: Seq<Account>)
    requires
        distinct(accounts),
    ensures
        as_map(accounts).dom().finite(),
        as_map(accounts).dom().len() == accounts.len(),
    decreases accounts.len(),
{
    if accounts.len() == 0 {
        assert(as_map(accounts).dom() =~= Set::<Address>::empty());
    } else {
        let front = accounts.drop_last();
        let last = accounts.last();
        assert forall|i: int, j: int| 0 <= i < j < front.len() implies (#[trigger] front[i]).address
            != (#[trigger] front[j]).address by {
            assert(accounts[i].address != accounts[j].address);
        }
        assert forall|i: int| 0 <= i < front.len() implies (#[trigger] front[i]).address
            != last.address by {
            assert(accounts[i].address != accounts[accounts.len() - 1].address);
        }
        lemma_count(front);
        lemma_push(front, last);
        assert(front.push(last) =~= accounts);
        assert(as_map(accounts).dom() =~= as_map(front).dom().insert(last.address));
    }
}

/// Whether `record` lives at the address that the ledger derives for its key
/// under `program`, with the salt that the derivation gave.
pub open spec fn sits_at_derived(program: Address, address: Address, record: RecordView) -> bool {
    match record {
        RecordView::Identifier(i) => derivation(identifier_seeds(), program) == Some(
            Derived { address, bump: i.bump },
        ),
        RecordView::StakePool(p) => derivation(stake_pool_seeds(p.identifier), program) == Some(
            Derived { address, bump: p.bump },
        ),
        RecordView::StakeEntry(e) => derivation(
            stake_entry_seeds(e.pool, e.original_mint),
            program,
        ) == Some(Derived { address, bump: e.bump }),
    }
}

/// Every record of `ledger` lives at the address derived for its key.
pub open spec fn canonical_map(program: Address, ledger: Map<Address, RecordView>) -> bool {
    forall|a: Address| #[trigger]
        ledger.contains_key(a) ==> sits_at_derived(program, a, ledger[a])
}

/// A record at its derived address keeps a canonical ledger canonical.
pub proof fn lemma_canonical_insert(
    program: Address,
    ledger: Map<Address, RecordView>,
    address: Address,
    record: RecordView,
)
    requires
        canonical_map(program, ledger),
        sits_at_derived(program, address, record),
    ensures
        canonical_map(program, ledger.insert(address, record)),
{
    let next = ledger.insert(address, record);
    assert forall|a: Address| #[trigger] next.contains_key(a) implies sits_at_derived(
        program,
        a,
        next[a],
    ) by {
        if a != address {
            assert(ledger.contains_key(a));
        }
    }
}

impl View for Ledger {
    type V = Map<Address, RecordView>;

    closed spec fn view(&self) -> Map<Address, RecordView> {
        as_map(self.accounts@)
    }
}

impl Ledger {
    /// The program whose records these are.
    pub closed spec fn program(&self) -> Address {
        self.program
    }

    /// The representation is sound: no address is taken twice.
    pub closed spec fn wf(&self) -> bool {
        distinct(self.accounts@)
    }

    /// Every record lives at the address derived for its key. The three
    /// operations keep a ledger that way.
    pub open spec fn canonical(&self) -> bool {
        canonical_map(self.program(), self@)
    }

    /// An empty ledger for `program`.
    pub fn for_program(program: Address) -> (ledger: Ledger)
        ensures
            ledger.wf(),
            ledger.canonical(),
            ledger.program() == program,
            ledger@ == Map::<Address, RecordView>::empty(),
    {
        let ledger = Ledger { program, accounts: Vec::new() };
        assert(ledger@ =~= Map::<Address, RecordView>::empty());
        ledger
    }

    /// The program whose records these are.
    pub fn program_address(&self) -> (program: Address)
        ensures
            program == self.program(),
    {
        self.program
    }

    /// The number of records on the ledger.
    pub fn len(&self) -> (n: usize)
        requires
            self.wf(),
        ensures
            self@.dom().finite(),
            n == self@.dom().len(),
    {
        proof {
            lemma_count(self.accounts@);
        }
        self.accounts.len()
    }

    /// Where the account at `address` is kept, if there is one.
    fn position(&self, address: &Address) -> (r: Option<usize>)
        requires
            self.wf(),
        ensures
            r matches Some(i) ==> i < self.accounts@.len() && self.accounts@[i as int].address
                == *address,
            r is Some <==> self@.contains_key(*address),
    {
        let mut i: usize = 0;
        while i < self.accounts.len()
            invariant
                self.wf(),
                i <= self.accounts@.len(),
                forall|j: int| 0 <= j < i ==> (#[trigger] self.accounts@[j]).address != *address,
            decreases self.accounts@.len() - i,
        {
            if self.accounts[i].address.same(address) {
                proof {
                    lemma_place(self.accounts@, i as int);
                }
                return Some(i);
            }
            i += 1;
        }
        None
    }

    /// The record at `address`, if there is one.
    pub fn record(&self, address: &Address) -> (r: Option<&Record>)
        requires
            self.wf(),
        ensures
            r matches Some(record) ==> self@.contains_key(*address) && self@[*address]
                == record@,
            r is None ==> !self@.contains_key(*address),
    {
        match self.position(address) {
            Some(i) => {
                proof {
                    lemma_place(self.accounts@, i as int);
                }
                Some(&self.accounts[i].record)
            },
            None => None,
        }
    }

    /// Whether a record lives at `address`.
    pub fn is_occupied(&self, address: &Address) -> (r: bool)
        requires
            self.wf(),
        ensures
            r == self@.contains_key(*address),
    {
        self.position(address).is_some()
    }

    /// The pool at `address`, if a pool lives there.
    pub fn stake_pool(&self, address: &Address) -> (r: Option<&StakePool>)
        requires
            self.wf(),
        ensures
            r matches Some(pool) ==> self@.contains_key(*address) && self@[*address]
                == RecordView::StakePool(pool@),
            r is None ==> !(self@.contains_key(*address) && self@[*address] is StakePool),
    {
        match self.record(address) {
            Some(Record::StakePool(pool)) => Some(pool),
            _ => None,
        }
    }

    /// The entry at `address`, if an entry lives there.
    pub fn stake_entry(&self, address: &Address) -> (r: Option<StakeEntry>)
        requires
            self.wf(),
        ensures
            r matches Some(entry) ==> self@.contains_key(*address) && self@[*address]
                == RecordView::StakeEntry(entry),
            r is None ==> !(self@.contains_key(*address) && self@[*address] is StakeEntry),
    {
        match self.record(address) {
            Some(Record::StakeEntry(entry)) => Some(*entry),
            _ => None,
        }
    }

    /// The counter at `address`, if a counter lives there.
    pub fn identifier(&self, address: &Address) -> (r: Option<Identifier>)
        requires
            self.wf(),
        ensures
            r matches Some(counter) ==> self@.contains_key(*address) && self@[*address]
                == RecordView::Identifier(counter),
            r is None ==> !(self@.contains_key(*address) && self@[*address] is Identifier),
    {
        match self.record(address) {
            Some(Record::Identifier(counter)) => Some(*counter),
            _ => None,
        }
    }

    /// Creates `record` at `address`, unless a record already lives there.
    pub fn create(&mut self, address: Address, record: Record) -> (r: Result<(), StakePoolError>)
        requires
            old(self).wf(),
        ensures
            final(self).wf(),
            final(self).program() == old(self).program(),
            old(self)@.contains_key(address) ==> r == Err::<(), StakePoolError>(
                StakePoolError::AddressCollision,
            ) && *final(self) == *old(self),
            !old(self)@.contains_key(address) ==> r is Ok && final(self)@ == old(self)@.insert(
                address,
                record@,
            ),
    {
        if self.is_occupied(&address) {
            return Err(StakePoolError::AddressCollision);
        }
        self.put(address, record);
        Ok(())
    }

    /// Adds a record at a free address.
    pub(crate) fn put(&mut self, address: Address, record: Record)
        requires
            old(self).wf(),
            !old(self)@.contains_key(address),
        ensures
            final(self).wf(),
            final(self).program() == old(self).program(),
            final(self)@ == old(self)@.insert(address, record@),
    {
        let account = Account { address, record };
        proof {
            lemma_push(self.accounts@, account);
        }
        self.accounts.push(account);
    }

    /// Takes the record at `address` off the ledger.
    pub(crate) fn take(&mut self, address: &Address) -> (record: Record)
        requires
            old(self).wf(),
            old(self)@.contains_key(*address),
        ensures
            final(self).wf(),
            final(self).program() == old(self).program(),
            final(self)@ == old(self)@.remove(*address),
            record@ == old(self)@[*address],
    {
        let found = self.position(address);
        let i: usize = found.unwrap();
        proof {
            lemma_place(self.accounts@, i as int);
            lemma_remove(self.accounts@, i as int);
        }
        let account = self.accounts.remove(i);
        account.record
    }
}

/// In a canonical ledger a pool is found by its sequence number alone: two
/// pools with the same sequence number are one record.
pub proof fn lemma_one_pool_per_identifier(ledger: Ledger, a: Address, b: Address)
    requires
        ledger.canonical(),
        ledger@.contains_key(a),
        ledger@.contains_key(b),
        ledger@[a] matches RecordView::StakePool(p) && ledger@[b] matches RecordView::StakePool(q)
            && p.identifier == q.identifier,
    ensures
        a == b,
{
}

/// In a canonical ledger there is at most one entry for a pool and an
/// original asset: two entries for the same pair are one record.
pub proof fn lemma_one_entry_per_pair(ledger: Ledger, a: Address, b: Address)
    requires
        ledger.canonical(),
        ledger@.contains_key(a),
        ledger@.contains_key(b),
        ledger@[a] matches RecordView::StakeEntry(e) && ledger@[b] matches RecordView::StakeEntry(f)
            && e.pool == f.pool && e.original_mint == f.original_mint,
    ensures
        a == b,
{
}

/// In a canonical ledger there is at most one identifier counter.
pub proof fn lemma_one_identifier(ledger: Ledger, a: Address, b: Address)
    requires
        ledger.canonical(),
        ledger@.contains_key(a),
        ledger@.contains_key(b),
        ledger@[a] is Identifier,
        ledger@[b] is Identifier,
    ensures
        a == b,
{
}

} // verus!
