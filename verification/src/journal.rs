//! The journaled state database: accounts, storage, transient storage and
//! emitted logs, with nested checkpoints. A revert restores every view to
//! what it was when the checkpoint was taken; a commit merely drops the
//! checkpoint.

use vstd::prelude::*;
use crate::primitives::{Address, Log};
use crate::u256::U256;

verus! {

/// One account: balance, nonce and code.
#[derive(Debug, Clone, PartialEq, Eq)]
pub struct Account {
    pub balance: U256,
    pub nonce: u64,
    pub code: Vec<u8>,
}

/// The mathematical reading of an account.
pub ghost struct AccountView {
    pub balance: nat,
    pub nonce: nat,
    pub code: Seq<u8>,
}

impl Account {
    pub open spec fn view(self) -> AccountView {
        AccountView { balance: self.balance.as_nat(), nonce: self.nonce as nat, code: self.code@ }
    }

    /// An empty account with the given balance.
    pub fn with_balance(balance: U256) -> (r: Account)
        ensures
            r@.balance == balance.as_nat(),
            r@.nonce == 0,
            r@.code =~= Seq::<u8>::empty(),
    {
        Account { balance, nonce: 0, code: Vec::new() }
    }
}

/// The mathematical reading of a log record.
pub ghost struct LogView {
    pub address: nat,
    pub topics: Seq<nat>,
    pub data: Seq<u8>,
}

/// The reading of one log.
pub open spec fn log_view(l: Log) -> LogView {
    LogView {
        address: l.address.as_nat(),
        topics: l.topics@.map_values(|t: U256| t.as_nat()),
        data: l.data@,
    }
}

/// The reading of a list of logs.
pub open spec fn logs_view_of(s: Seq<Log>) -> Seq<LogView> {
    s.map_values(|l: Log| log_view(l))
}

/// One account bound to its address.
#[derive(Debug, Clone, PartialEq, Eq)]
pub struct AccountEntry {
    pub address: Address,
    pub account: Account,
}

/// One storage slot of one account.
#[derive(Debug, Clone, Copy, PartialEq, Eq)]
pub struct StorageSlot {
    pub address: Address,
    pub key: U256,
    pub value: U256,
}

/// The accounts named by a list of writes, later writes winning.
pub open spec fn accounts_view_of(s: Seq<AccountEntry>) -> Map<nat, AccountView>
    decreases s.len(),
{
    if s.len() == 0 {
        Map::empty()
    } else {
        accounts_view_of(s.drop_last()).insert(s.last().address.as_nat(), s.last().account@)
    }
}

/// The slots named by a list of writes, later writes winning.
pub open spec fn slots_view_of(s: Seq<StorageSlot>) -> Map<(nat, nat), nat>
    decreases s.len(),
{
    if s.len() == 0 {
        Map::empty()
    } else {
        slots_view_of(s.drop_last()).insert(
            (s.last().address.as_nat(), s.last().key.as_nat()),
            s.last().value.as_nat(),
        )
    }
}

/// The account under a key of an accounts view, an empty account where
/// none was written.
pub open spec fn account_or_empty(m: Map<nat, AccountView>, key: nat) -> AccountView {
    if m.contains_key(key) {
        m[key]
    } else {
        AccountView { balance: 0, nonce: 0, code: Seq::empty() }
    }
}

/// Everything a checkpoint protects.
pub ghost struct StateView {
    pub accounts: Map<nat, AccountView>,
    pub storage: Map<(nat, nat), nat>,
    pub transient: Map<(nat, nat), nat>,
    pub logs_len: nat,
}

/// One checkpoint: the protected copies and the log length to cut back
/// to.
#[derive(Debug, Clone, PartialEq, Eq)]
struct Checkpoint {
    accounts: Vec<AccountEntry>,
    storage: Vec<StorageSlot>,
    transient: Vec<StorageSlot>,
    logs_len: usize,
}

impl Checkpoint {
    spec fn view(self) -> StateView {
        StateView {
            accounts: accounts_view_of(self.accounts@),
            storage: slots_view_of(self.storage@),
            transient: slots_view_of(self.transient@),
            logs_len: self.logs_len as nat,
        }
    }
}

/// The journaled state: the account and storage write logs, the emitted
/// logs, and the checkpoint stack.
#[derive(Debug, Clone, PartialEq, Eq)]
pub struct JournaledState {
    accounts: Vec<AccountEntry>,
    storage: Vec<StorageSlot>,
    transient: Vec<StorageSlot>,
    logs: Vec<Log>,
    checkpoints: Vec<Checkpoint>,
}

impl JournaledState {
    /// The current accounts, by address.
    pub closed spec fn accounts_view(self) -> Map<nat, AccountView> {
        accounts_view_of(self.accounts@)
    }

    /// The current persistent storage, by address and key.
    pub closed spec fn storage_view(self) -> Map<(nat, nat), nat> {
        slots_view_of(self.storage@)
    }

    /// The current transient storage, by address and key.
    pub closed spec fn transient_view(self) -> Map<(nat, nat), nat> {
        slots_view_of(self.transient@)
    }

    /// The logs emitted so far, in order.
    pub closed spec fn logs_view(self) -> Seq<LogView> {
        logs_view_of(self.logs@)
    }

    /// The protected state of each open checkpoint, oldest first.
    pub closed spec fn checkpoints_view(self) -> Seq<StateView> {
        self.checkpoints@.map_values(|c: Checkpoint| c@)
    }

    /// The whole current state, as a checkpoint would protect it.
    pub open spec fn state_view(self) -> StateView {
        StateView {
            accounts: self.accounts_view(),
            storage: self.storage_view(),
            transient: self.transient_view(),
            logs_len: self.logs_view().len(),
        }
    }

    /// Checkpoints never claim more logs than there are, and nested
    /// checkpoints claim no fewer than their parents.
    pub closed spec fn well_formed(self) -> bool {
        &&& (forall|i: int|
            0 <= i < self.checkpoints@.len() ==> self.checkpoints@[i].logs_len
                <= self.logs@.len())
        &&& (forall|i: int, j: int|
            0 <= i <= j < self.checkpoints@.len() ==> self.checkpoints@[i].logs_len
                <= self.checkpoints@[j].logs_len)
    }

    /// An empty state.
    pub fn new() -> (r: JournaledState)
        ensures
            r.well_formed(),
            r.accounts_view() =~= Map::empty(),
            r.storage_view() =~= Map::empty(),
            r.transient_view() =~= Map::empty(),
            r.logs_view() =~= Seq::empty(),
            r.checkpoints_view() =~= Seq::empty(),
    {
        JournaledState {
            accounts: Vec::new(),
            storage: Vec::new(),
            transient: Vec::new(),
            logs: Vec::new(),
            checkpoints: Vec::new(),
        }
    }

    /// The account at `address`, if one was ever written.
    pub fn get_account(&self, address: &Address) -> (r: Option<&Account>)
        ensures
            match r {
                Some(a) => self.accounts_view().contains_key(address.as_nat())
                    && self.accounts_view()[address.as_nat()] == a@,
                None => !self.accounts_view().contains_key(address.as_nat()),
            },
    {
        let ghost key = address.as_nat();
        let n = self.accounts.len();
        let mut i: usize = n;
        proof {
            assert(self.accounts@.take(n as int) =~= self.accounts@);
        }
        while i > 0
            invariant
                i <= n == self.accounts@.len(),
                key == address.as_nat(),
                accounts_view_contains_agree(self.accounts@, i as int, key),
            decreases i,
        {
            proof {
                lemma_accounts_take_unfold(self.accounts@, i as int, key);
                crate::u256::lemma_word_value_injective(
                    self.accounts@[i - 1].address.word,
                    address.word,
                );
            }
            i = i - 1;
            if self.accounts[i].address.word.lo == address.word.lo
                && self.accounts[i].address.word.hi == address.word.hi {
                return Some(&self.accounts[i].account);
            }
        }
        proof {
            assert(self.accounts@.take(0) =~= Seq::<AccountEntry>::empty());
        }
        None
    }

    /// Record the account at `address`.
    pub fn set_account(&mut self, address: Address, account: Account) -> (r: ())
        requires
            old(self).well_formed(),
        ensures
            final(self).well_formed(),
            final(self).accounts_view() == old(self).accounts_view().insert(
                address.as_nat(),
                account@,
            ),
            final(self).storage_view() == old(self).storage_view(),
            final(self).transient_view() == old(self).transient_view(),
            final(self).logs_view() == old(self).logs_view(),
            final(self).checkpoints_view() == old(self).checkpoints_view(),
    {
        let entry = AccountEntry { address, account };
        proof {
            assert(self.accounts@.push(entry).drop_last() =~= self.accounts@);
        }
        self.accounts.push(entry);
    }

    /// The storage value at `(address, key)`, zero if never written.
    pub fn get_storage(&self, address: &Address, key: &U256) -> (r: U256)
        ensures
            r.as_nat() == (if self.storage_view().contains_key(
                (address.as_nat(), key.as_nat()),
            ) {
                self.storage_view()[(address.as_nat(), key.as_nat())]
            } else {
                0nat
            }),
    {
        slot_lookup(&self.storage, address, key)
    }

    /// Record the storage value at `(address, key)`.
    pub fn set_storage(&mut self, address: Address, key: U256, value: U256) -> (r: ())
        requires
            old(self).well_formed(),
        ensures
            final(self).well_formed(),
            final(self).storage_view() == old(self).storage_view().insert(
                (address.as_nat(), key.as_nat()),
                value.as_nat(),
            ),
            final(self).accounts_view() == old(self).accounts_view(),
            final(self).transient_view() == old(self).transient_view(),
            final(self).logs_view() == old(self).logs_view(),
            final(self).checkpoints_view() == old(self).checkpoints_view(),
    {
        let slot = StorageSlot { address, key, value };
        proof {
            assert(self.storage@.push(slot).drop_last() =~= self.storage@);
        }
        self.storage.push(slot);
    }

    /// The transient storage value at `(address, key)`, zero if never
    /// written in this transaction.
    pub fn get_transient_storage(&self, address: &Address, key: &U256) -> (r: U256)
        ensures
            r.as_nat() == (if self.transient_view().contains_key(
                (address.as_nat(), key.as_nat()),
            ) {
                self.transient_view()[(address.as_nat(), key.as_nat())]
            } else {
                0nat
            }),
    {
        slot_lookup(&self.transient, address, key)
    }

    /// Record the transient storage value at `(address, key)`.
    pub fn set_transient_storage(&mut self, address: Address, key: U256, value: U256) -> (r: ())
        requires
            old(self).well_formed(),
        ensures
            final(self).well_formed(),
            final(self).transient_view() == old(self).transient_view().insert(
                (address.as_nat(), key.as_nat()),
                value.as_nat(),
            ),
            final(self).accounts_view() == old(self).accounts_view(),
            final(self).storage_view() == old(self).storage_view(),
            final(self).logs_view() == old(self).logs_view(),
            final(self).checkpoints_view() == old(self).checkpoints_view(),
    {
        let slot = StorageSlot { address, key, value };
        proof {
            assert(self.transient@.push(slot).drop_last() =~= self.transient@);
        }
        self.transient.push(slot);
    }

    /// Append a log record.
    pub fn add_log(&mut self, log: Log) -> (r: ())
        requires
            old(self).well_formed(),
        ensures
            final(self).well_formed(),
            final(self).logs_view() == old(self).logs_view().push(log_view(log)),
            final(self).accounts_view() == old(self).accounts_view(),
            final(self).storage_view() == old(self).storage_view(),
            final(self).transient_view() == old(self).transient_view(),
            final(self).checkpoints_view() == old(self).checkpoints_view(),
    {
        proof {
            assert(logs_view_of(self.logs@.push(log)) =~= logs_view_of(self.logs@).push(
                log_view(log),
            ));
        }
        self.logs.push(log);
    }

    /// Open a checkpoint protecting the current state.
    pub fn checkpoint(&mut self) -> (r: ())
        requires
            old(self).well_formed(),
        ensures
            final(self).well_formed(),
            final(self).checkpoints_view() == old(self).checkpoints_view().push(
                old(self).state_view(),
            ),
            final(self).accounts_view() == old(self).accounts_view(),
            final(self).storage_view() == old(self).storage_view(),
            final(self).transient_view() == old(self).transient_view(),
            final(self).logs_view() == old(self).logs_view(),
    {
        let accounts = copy_accounts(&self.accounts);
        let storage = copy_slots(&self.storage);
        let transient = copy_slots(&self.transient);
        let cp = Checkpoint { accounts, storage, transient, logs_len: self.logs.len() };
        proof {
            lemma_accounts_view_congruent(cp.accounts@, self.accounts@);
            assert(cp@ == self.state_view());
            assert(self.checkpoints@.push(cp).map_values(|c: Checkpoint| c@)
                =~= self.checkpoints@.map_values(|c: Checkpoint| c@).push(cp@));
        }
        self.checkpoints.push(cp);
    }

    /// Whether a checkpoint is open.
    pub fn has_checkpoint(&self) -> (r: bool)
        ensures
            r <==> self.checkpoints_view().len() > 0,
    {
        self.checkpoints.len() > 0
    }

    /// Drop the newest checkpoint, keeping every change made since.
    pub fn commit_checkpoint(&mut self) -> (r: ())
        requires
            old(self).well_formed(),
            old(self).checkpoints_view().len() > 0,
        ensures
            final(self).well_formed(),
            final(self).checkpoints_view() == old(self).checkpoints_view().drop_last(),
            final(self).accounts_view() == old(self).accounts_view(),
            final(self).storage_view() == old(self).storage_view(),
            final(self).transient_view() == old(self).transient_view(),
            final(self).logs_view() == old(self).logs_view(),
    {
        proof {
            assert(self.checkpoints@.drop_last().map_values(|c: Checkpoint| c@)
                =~= self.checkpoints@.map_values(|c: Checkpoint| c@).drop_last());
        }
        let _ = self.checkpoints.pop();
    }

    /// Undo every change made since the newest checkpoint: accounts,
    /// storage, transient storage and logs return to the protected state,
    /// bit for bit.
    pub fn revert_checkpoint(&mut self) -> (r: ())
        requires
            old(self).well_formed(),
            old(self).checkpoints_view().len() > 0,
        ensures
            final(self).well_formed(),
            final(self).checkpoints_view() == old(self).checkpoints_view().drop_last(),
            final(self).accounts_view() == old(self).checkpoints_view().last().accounts,
            final(self).storage_view() == old(self).checkpoints_view().last().storage,
            final(self).transient_view() == old(self).checkpoints_view().last().transient,
            final(self).logs_view() == old(self).logs_view().take(
                old(self).checkpoints_view().last().logs_len as int,
            ),
    {
        proof {
            assert(self.checkpoints@.drop_last().map_values(|c: Checkpoint| c@)
                =~= self.checkpoints@.map_values(|c: Checkpoint| c@).drop_last());
        }
        let cp = self.checkpoints.pop().unwrap();
        self.logs.truncate(cp.logs_len);
        self.accounts = cp.accounts;
        self.storage = cp.storage;
        self.transient = cp.transient;
        proof {
            assert(logs_view_of(self.logs@) =~= logs_view_of(old(self).logs@).take(
                cp.logs_len as int,
            ));
        }
    }
}

impl JournaledState {
    /// A copy of the emitted logs, reading for reading.
    pub fn logs_snapshot(&self) -> (r: Vec<Log>)
        ensures
            logs_view_of(r@) == self.logs_view(),
    {
        let n = self.logs.len();
        let mut out: Vec<Log> = Vec::new();
        let mut i: usize = 0;
        while i < n
            invariant
                i <= n == self.logs@.len(),
                out@.len() == i,
                forall|j: int| 0 <= j < i ==> log_view(out@[j]) == log_view(self.logs@[j]),
            decreases n - i,
        {
            let l = &self.logs[i];
            let mut topics: Vec<U256> = Vec::new();
            let mut t: usize = 0;
            let tn = l.topics.len();
            while t < tn
                invariant
                    t <= tn == l.topics@.len(),
                    topics@.len() == t,
                    forall|k: int| 0 <= k < t ==> topics@[k] == l.topics@[k],
                decreases tn - t,
            {
                topics.push(l.topics[t]);
                t = t + 1;
            }
            proof {
                assert(topics@ =~= l.topics@);
            }
            out.push(Log { address: l.address, topics, data: copy_bytes(&l.data) });
            i = i + 1;
        }
        proof {
            assert(logs_view_of(out@) =~= self.logs_view());
        }
        out
    }

    /// A copy of the current accounts, reading for reading.
    pub fn accounts_snapshot(&self) -> (r: Vec<AccountEntry>)
        ensures
            accounts_view_of(r@) == self.accounts_view(),
    {
        let r = copy_accounts(&self.accounts);
        proof {
            lemma_accounts_view_congruent(r@, self.accounts@);
        }
        r
    }
}

/// Whether lookups of `key` agree between the whole account list and its
/// first `i` entries.
pub open spec fn accounts_view_contains_agree(s: Seq<AccountEntry>, i: int, key: nat) -> bool {
    &&& (accounts_view_of(s).contains_key(key) <==> accounts_view_of(s.take(i)).contains_key(
        key,
    ))
    &&& (accounts_view_of(s).contains_key(key) ==> accounts_view_of(s)[key]
        == accounts_view_of(s.take(i))[key])
}

/// Lookups of a key absent from the tail agree one entry shorter.
proof fn lemma_accounts_take_unfold(s: Seq<AccountEntry>, i: int, key: nat)
    requires
        0 < i <= s.len(),
        accounts_view_contains_agree(s, i, key),
        s[i - 1].address.as_nat() == key ==> true,
    ensures
        s[i - 1].address.as_nat() != key ==> accounts_view_contains_agree(s, i - 1, key),
        s[i - 1].address.as_nat() == key ==> accounts_view_of(s).contains_key(key)
            && accounts_view_of(s)[key] == s[i - 1].account@,
{
    assert(s.take(i).drop_last() =~= s.take(i - 1));
    assert(s.take(i).last() == s[i - 1]);
}

/// Look a slot up in a write log, the latest write winning, zero when
/// none was made.
fn slot_lookup(slots: &Vec<StorageSlot>, address: &Address, key: &U256) -> (r: U256)
    ensures
        r.as_nat() == (if slots_view_of(slots@).contains_key(
            (address.as_nat(), key.as_nat()),
        ) {
            slots_view_of(slots@)[(address.as_nat(), key.as_nat())]
        } else {
            0nat
        }),
{
    let ghost k = (address.as_nat(), key.as_nat());
    let n = slots.len();
    let mut i: usize = n;
    proof {
        assert(slots@.take(n as int) =~= slots@);
    }
    while i > 0
        invariant
            i <= n == slots@.len(),
            k == (address.as_nat(), key.as_nat()),
            slots_view_contains_agree(slots@, i as int, k),
        decreases i,
    {
        proof {
            lemma_slots_take_unfold(slots@, i as int, k);
            crate::u256::lemma_word_value_injective(slots@[i - 1].address.word, address.word);
            crate::u256::lemma_word_value_injective(slots@[i - 1].key, *key);
        }
        i = i - 1;
        let s = &slots[i];
        if s.address.word.lo == address.word.lo && s.address.word.hi == address.word.hi
            && s.key.lo == key.lo && s.key.hi == key.hi {
            return s.value;
        }
    }
    proof {
        assert(slots@.take(0) =~= Seq::<StorageSlot>::empty());
    }
    U256::zero()
}

/// Whether lookups of `key` agree between the whole slot list and its
/// first `i` entries.
pub open spec fn slots_view_contains_agree(s: Seq<StorageSlot>, i: int, key: (nat, nat)) -> bool {
    &&& (slots_view_of(s).contains_key(key) <==> slots_view_of(s.take(i)).contains_key(key))
    &&& (slots_view_of(s).contains_key(key) ==> slots_view_of(s)[key] == slots_view_of(
        s.take(i),
    )[key])
}

proof fn lemma_slots_take_unfold(s: Seq<StorageSlot>, i: int, key: (nat, nat))
    requires
        0 < i <= s.len(),
        slots_view_contains_agree(s, i, key),
    ensures
        (s[i - 1].address.as_nat(), s[i - 1].key.as_nat()) != key ==> slots_view_contains_agree(
            s,
            i - 1,
            key,
        ),
        (s[i - 1].address.as_nat(), s[i - 1].key.as_nat()) == key ==> slots_view_of(
            s,
        ).contains_key(key) && slots_view_of(s)[key] == s[i - 1].value.as_nat(),
{
    assert(s.take(i).drop_last() =~= s.take(i - 1));
    assert(s.take(i).last() == s[i - 1]);
}

/// A fresh copy of a slot list, entry for entry.
fn copy_slots(src: &Vec<StorageSlot>) -> (r: Vec<StorageSlot>)
    ensures
        r@ =~= src@,
{
    let n = src.len();
    let mut out: Vec<StorageSlot> = Vec::new();
    let mut i: usize = 0;
    while i < n
        invariant
            i <= n == src@.len(),
            out@.len() == i,
            forall|j: int| 0 <= j < i ==> out@[j] == src@[j],
        decreases n - i,
    {
        out.push(src[i]);
        i = i + 1;
    }
    out
}

/// A fresh copy of a byte list.
pub fn copy_bytes(src: &Vec<u8>) -> (r: Vec<u8>)
    ensures
        r@ =~= src@,
{
    let n = src.len();
    let mut out: Vec<u8> = Vec::new();
    let mut i: usize = 0;
    while i < n
        invariant
            i <= n == src@.len(),
            out@.len() == i,
            forall|j: int| 0 <= j < i ==> out@[j] == src@[j],
        decreases n - i,
    {
        out.push(src[i]);
        i = i + 1;
    }
    out
}

/// A fresh copy of an account list; addresses and account readings are
/// preserved entry for entry.
fn copy_accounts(src: &Vec<AccountEntry>) -> (r: Vec<AccountEntry>)
    ensures
        r@.len() == src@.len(),
        forall|j: int|
            0 <= j < src@.len() ==> r@[j].address == src@[j].address && r@[j].account@
                == src@[j].account@,
{
    let n = src.len();
    let mut out: Vec<AccountEntry> = Vec::new();
    let mut i: usize = 0;
    while i < n
        invariant
            i <= n == src@.len(),
            out@.len() == i,
            forall|j: int|
                0 <= j < i ==> out@[j].address == src@[j].address && out@[j].account@
                    == src@[j].account@,
        decreases n - i,
    {
        let e = &src[i];
        let account = Account {
            balance: e.account.balance,
            nonce: e.account.nonce,
            code: copy_bytes(&e.account.code),
        };
        out.push(AccountEntry { address: e.address, account });
        i = i + 1;
    }
    out
}

/// Entry-for-entry equal readings give equal account views.
proof fn lemma_accounts_view_congruent(s1: Seq<AccountEntry>, s2: Seq<AccountEntry>)
    requires
        s1.len() == s2.len(),
        forall|j: int|
            0 <= j < s1.len() ==> s1[j].address == s2[j].address && s1[j].account@
                == s2[j].account@,
    ensures
        accounts_view_of(s1) == accounts_view_of(s2),
    decreases s1.len(),
{
    if s1.len() > 0 {
        lemma_accounts_view_congruent(s1.drop_last(), s2.drop_last());
        assert(accounts_view_of(s1) =~= accounts_view_of(s2));
    } else {
        assert(accounts_view_of(s1) =~= accounts_view_of(s2));
    }
}

} // verus!
