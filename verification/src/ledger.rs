//! The store: a table of accounts, an append-only transaction log, and a
//! stack of open scopes.
//!
//! Opening a scope records the table and the length of the log. Committing a
//! scope forgets that record and keeps every change; discarding it puts the
//! table and the log back as recorded. Scopes nest: discarding an inner scope
//! leaves what an outer scope did before it untouched, and discarding an
//! outer scope also undoes what committed inner scopes did. Identifiers,
//! once issued, are not issued again, whatever is discarded.

use vstd::prelude::*;
use chrono::NaiveDate;
use chrono::NaiveDateTime;
use crate::decimal::Decimal;
use crate::error::LedgerError;
use crate::models::enums::AccountStatus;
use crate::models::enums::AccountType;
use crate::models::enums::TransactionType;
use crate::models::new_records::NewAccount;
use crate::models::new_records::NewTransaction;
use crate::models::new_records::UpdateAccount;
use crate::models::records::Account;
use crate::models::records::Transaction;

verus! {

/// What an open scope goes back to when it is discarded.
#[verifier::ext_equal]
pub struct ScopeView {
    pub accounts: Map<i64, Account>,
    pub log_len: nat,
}

/// The ledger as a mathematical value.
#[verifier::ext_equal]
pub struct LedgerView {
    /// The accounts, by identifier.
    pub accounts: Map<i64, Account>,
    /// The log, oldest entry first.
    pub transactions: Seq<Transaction>,
    /// The open scopes, outermost first.
    pub scopes: Seq<ScopeView>,
    /// The highest account identifier issued or stored so far.
    pub last_account_id: int,
    /// The highest transaction identifier issued so far.
    pub last_transaction_id: int,
}

impl LedgerView {
    /// The ledger with `account` stored under its identifier.
    pub open spec fn put(self, account: Account) -> LedgerView {
        LedgerView { accounts: self.accounts.insert(account.id, account), ..self }
    }

    /// The ledger with one more scope open.
    pub open spec fn opened(self) -> LedgerView {
        LedgerView {
            scopes: self.scopes.push(
                ScopeView { accounts: self.accounts, log_len: self.transactions.len() },
            ),
            ..self
        }
    }

    /// The ledger with its innermost scope committed.
    pub open spec fn committed(self) -> LedgerView
        recommends
            self.scopes.len() > 0,
    {
        LedgerView { scopes: self.scopes.drop_last(), ..self }
    }

    /// The ledger with its innermost scope discarded.
    pub open spec fn discarded(self) -> LedgerView
        recommends
            self.scopes.len() > 0,
    {
        LedgerView {
            accounts: self.scopes.last().accounts,
            transactions: self.transactions.take(self.scopes.last().log_len as int),
            scopes: self.scopes.drop_last(),
            ..self
        }
    }

    /// The ledger with `entry` at the end of the log.
    pub open spec fn logged(self, entry: Transaction) -> LedgerView {
        LedgerView {
            transactions: self.transactions.push(entry),
            last_transaction_id: entry.id as int,
            ..self
        }
    }

    /// Whether `account` is the row stored under its identifier.
    pub open spec fn holds(self, account: Account) -> bool {
        self.accounts.contains_key(account.id) && self.accounts[account.id] == account
    }

    /// The account that is opened next: under the identifier after the last
    /// one issued, open, with no movements and a balance of zero.
    pub open spec fn next_account(self, kind: AccountType, opened_on: NaiveDate) -> Account {
        Account {
            id: (self.last_account_id + 1) as i64,
            account_status: AccountStatus::Open,
            account_type: kind,
            opened_on_date: opened_on,
            transaction_count: 0,
            balance: Decimal { unscaled: 0, scale: 0 },
        }
    }

    /// The ledger with `account` stored under its identifier, which counts as
    /// issued from then on.
    pub open spec fn enrolled(self, account: Account) -> LedgerView {
        LedgerView {
            last_account_id: if account.id > self.last_account_id {
                account.id as int
            } else {
                self.last_account_id
            },
            ..self.put(account)
        }
    }

    /// The log entry that is written next, under the identifier after the
    /// last one issued.
    pub open spec fn next_entry(
        self,
        category: TransactionType,
        sender_id: i64,
        receiver_id: i64,
        date_time: NaiveDateTime,
        amount: Decimal,
        success: bool,
    ) -> Transaction {
        Transaction {
            id: (self.last_transaction_id + 1) as i64,
            category,
            account_id: sender_id,
            receiver_id,
            date_time,
            amount,
            success,
        }
    }

    /// Every account is stored under its own identifier.
    pub open spec fn keyed(self) -> bool {
        forall|id: i64| self.accounts.contains_key(id) ==> (#[trigger] self.accounts[id]).id == id
    }

    /// Every account in deficit is frozen.
    pub open spec fn sound(self) -> bool {
        forall|id: i64| self.accounts.contains_key(id) ==> (#[trigger] self.accounts[id]).sound()
    }
}

spec fn distinct_ids(rows: Seq<Account>) -> bool {
    forall|i: int, j: int| 0 <= i < j < rows.len() ==> rows[i].id != rows[j].id
}

spec fn holds_id(rows: Seq<Account>, id: i64) -> bool {
    exists|i: int| 0 <= i < rows.len() && rows[i].id == id
}

spec fn row_of(rows: Seq<Account>, id: i64) -> int {
    choose|i: int| 0 <= i < rows.len() && rows[i].id == id
}

/// The rows as a map from identifier to account.
spec fn table(rows: Seq<Account>) -> Map<i64, Account> {
    Map::new(|id: i64| holds_id(rows, id), |id: i64| rows[row_of(rows, id)])
}

/// Rows that can stand in the ledger: no identifier twice, none above `last`,
/// and each stored under its own identifier.
spec fn rows_wf(rows: Seq<Account>, last: int) -> bool {
    &&& distinct_ids(rows)
    &&& forall|i: int| 0 <= i < rows.len() ==> (#[trigger] rows[i]).id <= last
}

proof fn lemma_table_row(rows: Seq<Account>, i: int)
    requires
        distinct_ids(rows),
        0 <= i < rows.len(),
    ensures
        table(rows).contains_key(rows[i].id),
        table(rows)[rows[i].id] == rows[i],
{
    assert(holds_id(rows, rows[i].id));
    assert(row_of(rows, rows[i].id) == i);
}

proof fn lemma_table_push(rows: Seq<Account>, account: Account)
    requires
        distinct_ids(rows),
        !holds_id(rows, account.id),
    ensures
        distinct_ids(rows.push(account)),
        table(rows.push(account)) == table(rows).insert(account.id, account),
{
    let grown = rows.push(account);
    assert forall|id: i64| #[trigger]
        table(grown).contains_key(id) == table(rows).insert(account.id, account).contains_key(
            id,
        ) by {
        if holds_id(rows, id) {
            assert(grown[row_of(rows, id)].id == id);
        }
        if id == account.id {
            assert(grown[rows.len() as int].id == id);
        }
    }
    assert forall|id: i64| table(grown).contains_key(id) implies #[trigger] table(grown)[id]
        == table(rows).insert(account.id, account)[id] by {
        let k = row_of(grown, id);
        lemma_table_row(grown, k);
        if k < rows.len() {
            lemma_table_row(rows, k);
        }
    }
}

proof fn lemma_table_update(rows: Seq<Account>, i: int, account: Account)
    requires
        distinct_ids(rows),
        0 <= i < rows.len(),
        rows[i].id == account.id,
    ensures
        distinct_ids(rows.update(i, account)),
        table(rows.update(i, account)) == table(rows).insert(account.id, account),
{
    let changed = rows.update(i, account);
    assert forall|id: i64| #[trigger]
        table(changed).contains_key(id) == table(rows).insert(account.id, account).contains_key(
            id,
        ) by {
        if holds_id(rows, id) {
            assert(changed[row_of(rows, id)].id == id);
        }
    }
    assert forall|id: i64| table(changed).contains_key(id) implies #[trigger] table(changed)[id]
        == table(rows).insert(account.id, account)[id] by {
        let k = row_of(changed, id);
        lemma_table_row(changed, k);
        if k != i {
            lemma_table_row(rows, k);
        }
    }
}

/// The row stored under `id`, if there is one.
fn find(rows: &Vec<Account>, id: i64) -> (found: Option<usize>)
    ensures
        match found {
            Some(i) => i < rows@.len() && rows@[i as int].id == id,
            None => !holds_id(rows@, id),
        },
{
    let mut i: usize = 0;
    while i < rows.len()
        invariant
            i <= rows@.len(),
            forall|j: int| 0 <= j < i ==> rows@[j].id != id,
        decreases rows@.len() - i,
    {
        if rows[i].id == id {
            return Some(i);
        }
        i = i + 1;
    }
    None
}

/// A copy of the rows.
fn copy_rows(rows: &Vec<Account>) -> (copy: Vec<Account>)
    ensures
        copy@ == rows@,
{
    let mut copy: Vec<Account> = Vec::new();
    let mut i: usize = 0;
    while i < rows.len()
        invariant
            i <= rows@.len(),
            copy@ == rows@.take(i as int),
        decreases rows@.len() - i,
    {
        copy.push(rows[i]);
        i = i + 1;
    }
    copy
}

/// The record that an open scope keeps.
struct Savepoint {
    accounts: Vec<Account>,
    log_len: usize,
}

impl Savepoint {
    spec fn view(self) -> ScopeView {
        ScopeView { accounts: table(self.accounts@), log_len: self.log_len as nat }
    }
}

/// The store of accounts and logged transactions.
pub struct Ledger {
    accounts: Vec<Account>,
    transactions: Vec<Transaction>,
    savepoints: Vec<Savepoint>,
    last_account_id: i64,
    last_transaction_id: i64,
}

impl View for Ledger {
    type V = LedgerView;

    closed spec fn view(&self) -> LedgerView {
        LedgerView {
            accounts: table(self.accounts@),
            transactions: self.transactions@,
            scopes: Seq::new(self.savepoints@.len(), |i: int| self.savepoints@[i].view()),
            last_account_id: self.last_account_id as int,
            last_transaction_id: self.last_transaction_id as int,
        }
    }
}

impl Ledger {
    /// The invariant of the store: identifiers are unique and none lies above
    /// the last one issued, in the table and in every open scope's record,
    /// and no scope recorded more of the log than an inner scope or the
    /// ledger itself holds.
    pub closed spec fn wf(&self) -> bool {
        &&& rows_wf(self.accounts@, self.last_account_id as int)
        &&& forall|i: int|
            0 <= i < self.savepoints@.len() ==> rows_wf(
                (#[trigger] self.savepoints@[i]).accounts@,
                self.last_account_id as int,
            )
        &&& forall|i: int|
            0 <= i < self.savepoints@.len() ==> (#[trigger] self.savepoints@[i]).log_len
                <= self.transactions@.len()
        &&& forall|i: int, j: int|
            0 <= i < j < self.savepoints@.len() ==> (#[trigger] self.savepoints@[i]).log_len <= (
            #[trigger] self.savepoints@[j]).log_len
    }

    /// In a well-formed ledger every account is stored under its own
    /// identifier, none of which lies above the last one issued.
    pub proof fn lemma_keys(&self)
        requires
            self.wf(),
        ensures
            self@.keyed(),
            forall|id: i64| #[trigger]
                self@.accounts.contains_key(id) ==> id <= self@.last_account_id,
    {
        assert forall|id: i64| #[trigger] self@.accounts.contains_key(id) implies id
            <= self@.last_account_id by {
            assert(self.accounts@[row_of(self.accounts@, id)].id == id);
        }
    }

    /// An empty ledger: no account, no logged transaction, no open scope.
    pub fn new() -> (ledger: Ledger)
        ensures
            ledger.wf(),
            ledger@.accounts == Map::<i64, Account>::empty(),
            ledger@.transactions == Seq::<Transaction>::empty(),
            ledger@.scopes == Seq::<ScopeView>::empty(),
            ledger@.last_account_id == 0,
            ledger@.last_transaction_id == 0,
    {
        Ledger {
            accounts: Vec::new(),
            transactions: Vec::new(),
            savepoints: Vec::new(),
            last_account_id: 0,
            last_transaction_id: 0,
        }
    }

    /// The account stored under `id`, if there is one.
    pub fn fetch(&self, id: &i64) -> (row: Option<Account>)
        requires
            self.wf(),
        ensures
            row == if self@.accounts.contains_key(*id) {
                Some(self@.accounts[*id])
            } else {
                None
            },
            row matches Some(account) ==> account.id == *id && self@.holds(account),
    {
        match find(&self.accounts, *id) {
            Some(i) => {
                proof {
                    lemma_table_row(self.accounts@, i as int);
                }
                Some(self.accounts[i])
            },
            None => None,
        }
    }

    /// Stores `account` as it stands, under its own identifier. The store
    /// refuses an identifier that is taken.
    pub fn load_account(&mut self, account: &Account) -> (r: Result<(), LedgerError>)
        requires
            old(self).wf(),
        ensures
            final(self).wf(),
            match r {
                Ok(()) => {
                    &&& !old(self)@.accounts.contains_key(account.id)
                    &&& final(self)@ == old(self)@.enrolled(*account)
                },
                Err(e) => {
                    &&& e == LedgerError::StorageFailure
                    &&& old(self)@.accounts.contains_key(account.id)
                    &&& final(self)@ == old(self)@
                },
            },
    {
        match find(&self.accounts, account.id) {
            Some(_) => Err(LedgerError::StorageFailure),
            None => {
                proof {
                    lemma_table_push(self.accounts@, *account);
                }
                self.accounts.push(*account);
                if account.id > self.last_account_id {
                    self.last_account_id = account.id;
                }
                Ok(())
            },
        }
    }

    /// Opens an account: it gets the next identifier, and starts open, with
    /// no movements and a balance of zero. The store refuses once the
    /// identifiers are used up.
    pub fn insert(&mut self, new_account: &NewAccount) -> (r: Result<Account, LedgerError>)
        requires
            old(self).wf(),
        ensures
            final(self).wf(),
            match r {
                Ok(account) => {
                    &&& old(self)@.last_account_id < i64::MAX
                    &&& account == old(self)@.next_account(
                        *new_account.account_type,
                        *new_account.opened_on_date,
                    )
                    &&& !old(self)@.accounts.contains_key(account.id)
                    &&& final(self)@ == old(self)@.enrolled(account)
                },
                Err(e) => {
                    &&& e == LedgerError::StorageFailure
                    &&& old(self)@.last_account_id == i64::MAX
                    &&& final(self)@ == old(self)@
                },
            },
    {
        if self.last_account_id == i64::MAX {
            return Err(LedgerError::StorageFailure);
        }
        let account = Account {
            id: self.last_account_id + 1,
            account_status: AccountStatus::Open,
            account_type: *new_account.account_type,
            opened_on_date: *new_account.opened_on_date,
            transaction_count: 0,
            balance: Decimal::zero(),
        };
        proof {
            if holds_id(self.accounts@, account.id) {
                assert(self.accounts@[row_of(self.accounts@, account.id)].id == account.id);
            }
            lemma_table_push(self.accounts@, account);
        }
        self.accounts.push(account);
        self.last_account_id = account.id;
        Ok(account)
    }

    /// Rewrites balance and movement count of the account stored under `id`,
    /// and says how many rows that changed: one, or none where no account is
    /// stored under `id`.
    pub fn update_balance_and_count(&mut self, id: &i64, changes: &UpdateAccount) -> (rows: usize)
        requires
            old(self).wf(),
        ensures
            final(self).wf(),
            old(self)@.accounts.contains_key(*id) ==> rows == 1 && final(self)@ == old(self)@.put(
                Account {
                    transaction_count: *changes.transaction_count,
                    balance: *changes.balance,
                    ..old(self)@.accounts[*id]
                },
            ),
            !old(self)@.accounts.contains_key(*id) ==> rows == 0 && final(self)@ == old(self)@,
    {
        match find(&self.accounts, *id) {
            Some(i) => {
                let row = self.accounts[i];
                let changed = Account {
                    id: row.id,
                    account_status: row.account_status,
                    account_type: row.account_type,
                    opened_on_date: row.opened_on_date,
                    transaction_count: *changes.transaction_count,
                    balance: *changes.balance,
                };
                proof {
                    lemma_table_row(self.accounts@, i as int);
                    lemma_table_update(self.accounts@, i as int, changed);
                }
                self.accounts.set(i, changed);
                1
            },
            None => 0,
        }
    }

    /// Rewrites the status of the account stored under `id`, and says how
    /// many rows that changed: one, or none where no account is stored
    /// under `id`.
    pub fn update_status(&mut self, id: &i64, status: &AccountStatus) -> (rows: usize)
        requires
            old(self).wf(),
        ensures
            final(self).wf(),
            old(self)@.accounts.contains_key(*id) ==> rows == 1 && final(self)@ == old(self)@.put(
                Account { account_status: *status, ..old(self)@.accounts[*id] },
            ),
            !old(self)@.accounts.contains_key(*id) ==> rows == 0 && final(self)@ == old(self)@,
    {
        match find(&self.accounts, *id) {
            Some(i) => {
                let row = self.accounts[i];
                let changed = Account {
                    id: row.id,
                    account_status: *status,
                    account_type: row.account_type,
                    opened_on_date: row.opened_on_date,
                    transaction_count: row.transaction_count,
                    balance: row.balance,
                };
                proof {
                    lemma_table_row(self.accounts@, i as int);
                    lemma_table_update(self.accounts@, i as int, changed);
                }
                self.accounts.set(i, changed);
                1
            },
            None => 0,
        }
    }

    /// Adds an entry to the log under the next identifier, and returns that
    /// identifier. The store refuses once the identifiers are used up.
    pub fn append(&mut self, record: &NewTransaction) -> (r: Result<i64, LedgerError>)
        requires
            old(self).wf(),
        ensures
            final(self).wf(),
            match r {
                Ok(id) => {
                    &&& old(self)@.last_transaction_id < i64::MAX
                    &&& id == old(self)@.last_transaction_id + 1
                    &&& final(self)@ == old(self)@.logged(
                        old(self)@.next_entry(
                            *record.category,
                            *record.account_id,
                            *record.receiver_id,
                            *record.date_time,
                            *record.amount,
                            *record.success,
                        ),
                    )
                },
                Err(e) => {
                    &&& e == LedgerError::StorageFailure
                    &&& old(self)@.last_transaction_id == i64::MAX
                    &&& final(self)@ == old(self)@
                },
            },
    {
        if self.last_transaction_id == i64::MAX {
            return Err(LedgerError::StorageFailure);
        }
        let id: i64 = self.last_transaction_id + 1;
        let entry = Transaction {
            id,
            category: *record.category,
            account_id: *record.account_id,
            receiver_id: *record.receiver_id,
            date_time: *record.date_time,
            amount: *record.amount,
            success: *record.success,
        };
        self.transactions.push(entry);
        self.last_transaction_id = id;
        Ok(id)
    }

    /// Opens a scope inside the scopes that are open already.
    pub fn begin_scope(&mut self)
        requires
            old(self).wf(),
        ensures
            final(self).wf(),
            final(self)@ == old(self)@.opened(),
    {
        let record = Savepoint {
            accounts: copy_rows(&self.accounts),
            log_len: self.transactions.len(),
        };
        self.savepoints.push(record);
    }

    /// Closes the innermost scope and keeps what was done in it. Says whether
    /// a scope was open; where none was, nothing changes.
    pub fn commit_scope(&mut self) -> (closed: bool)
        requires
            old(self).wf(),
        ensures
            final(self).wf(),
            closed == (old(self)@.scopes.len() > 0),
            closed ==> final(self)@ == old(self)@.committed(),
            !closed ==> final(self)@ == old(self)@,
    {
        match self.savepoints.pop() {
            Some(_) => {
                true
            },
            None => {
                false
            },
        }
    }

    /// Closes the innermost scope and puts accounts and log back as they
    /// were when it was opened. Says whether a scope was open; where none
    /// was, nothing changes.
    pub fn discard_scope(&mut self) -> (closed: bool)
        requires
            old(self).wf(),
        ensures
            final(self).wf(),
            closed == (old(self)@.scopes.len() > 0),
            closed ==> final(self)@ == old(self)@.discarded(),
            !closed ==> final(self)@ == old(self)@,
    {
        match self.savepoints.pop() {
            Some(record) => {
                self.transactions.truncate(record.log_len);
                self.accounts = record.accounts;
                true
            },
            None => {
                false
            },
        }
    }

    /// The number of open scopes.
    pub fn depth(&self) -> (depth: usize)
        ensures
            depth == self@.scopes.len(),
    {
        self.savepoints.len()
    }

    /// The number of logged transactions.
    pub fn log_len(&self) -> (len: usize)
        ensures
            len == self@.transactions.len(),
    {
        self.transactions.len()
    }

    /// The logged transaction at `index`, counted from the oldest, if the log
    /// is that long.
    pub fn logged(&self, index: usize) -> (entry: Option<Transaction>)
        ensures
            entry == if index < self@.transactions.len() {
                Some(self@.transactions[index as int])
            } else {
                None
            },
    {
        if index < self.transactions.len() {
            Some(self.transactions[index])
        } else {
            None
        }
    }
}

} // verus!
