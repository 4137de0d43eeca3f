//! The external account store, modelled as an explicit association of
//! addresses with account states.
//!
//! The host owns every account; the manager reads and mutates them only
//! through the service transitions in `services`.  An account that was never
//! funded, or whose balance was drained and data released, is *absent*: zero
//! balance, no data, default ownership.  Absence is a property of the state,
//! so a store that lists an address with the default state and one that does
//! not list it at all describe the same world.

use vstd::prelude::*;
use crate::addr::Addr;

verus! {

/// The resource-specific payload of a managed account: which backing asset
/// it holds and which address controls it.
pub struct ResourceRecord {
    pub backing_asset: Addr,
    pub authority: Addr,
}

/// Mathematical image of a [`ResourceRecord`].
pub struct RecordV {
    pub backing_asset: Seq<u8>,
    pub authority: Seq<u8>,
}

impl View for ResourceRecord {
    type V = RecordV;

    open spec fn view(&self) -> RecordV {
        RecordV { backing_asset: self.backing_asset@, authority: self.authority@ }
    }
}

impl ResourceRecord {
    pub open spec fn wf(&self) -> bool {
        self.backing_asset.wf() && self.authority.wf()
    }
}

/// Everything the manager reads of one account: balance, data size, owning
/// system, and the parsed resource record if one was initialized.
pub struct AccountState {
    pub lamports: u64,
    pub space: u64,
    pub owner: Option<Addr>,
    pub record: Option<ResourceRecord>,
}

/// Mathematical image of an [`AccountState`].
pub struct AccountV {
    pub lamports: u64,
    pub space: u64,
    pub owner: Option<Seq<u8>>,
    pub record: Option<RecordV>,
}

impl View for AccountState {
    type V = AccountV;

    open spec fn view(&self) -> AccountV {
        AccountV {
            lamports: self.lamports,
            space: self.space,
            owner: match self.owner {
                Some(ref o) => Some(o@),
                None => None,
            },
            record: match self.record {
                Some(ref r) => Some(r@),
                None => None,
            },
        }
    }
}

impl AccountState {
    pub open spec fn wf(&self) -> bool {
        &&& match self.owner {
            Some(ref o) => o.wf(),
            None => true,
        }
        &&& match self.record {
            Some(ref r) => r.wf(),
            None => true,
        }
    }

    /// The state of an account nobody has funded: no balance, no data,
    /// default ownership.
    pub fn absent() -> (r: AccountState)
        ensures
            r@ == absent_account(),
            r.wf(),
    {
        AccountState { lamports: 0, space: 0, owner: None, record: None }
    }
}

/// The image of an account that does not exist.
pub open spec fn absent_account() -> AccountV {
    AccountV { lamports: 0, space: 0, owner: None, record: None }
}

/// One listed account.
pub struct AccountEntry {
    pub addr: Addr,
    pub state: AccountState,
}

/// Mathematical image of an [`AccountEntry`].
pub struct EntryV {
    pub addr: Seq<u8>,
    pub state: AccountV,
}

impl View for AccountEntry {
    type V = EntryV;

    open spec fn view(&self) -> EntryV {
        EntryV { addr: self.addr@, state: self.state@ }
    }
}

/// The external account store: every account the current invocation may
/// touch, addressed by its identifier.
pub struct AccountStore {
    pub entries: Vec<AccountEntry>,
}

impl View for AccountStore {
    type V = Seq<EntryV>;

    open spec fn view(&self) -> Seq<EntryV> {
        self.entries@.map_values(|e: AccountEntry| e@)
    }
}

/// The state listed for `key` from position `i` on, if any.
pub open spec fn lookup_from(s: Seq<EntryV>, key: Seq<u8>, i: int) -> Option<AccountV>
    decreases s.len() - i,
{
    if i < 0 || i >= s.len() {
        None
    } else if s[i].addr == key {
        Some(s[i].state)
    } else {
        lookup_from(s, key, i + 1)
    }
}

/// The state listed for `key`, if any.
pub open spec fn lookup(s: Seq<EntryV>, key: Seq<u8>) -> Option<AccountV> {
    lookup_from(s, key, 0)
}

/// The state of the account at `key`: its listed state, or absence.
pub open spec fn account_at(s: Seq<EntryV>, key: Seq<u8>) -> AccountV {
    match lookup(s, key) {
        Some(a) => a,
        None => absent_account(),
    }
}

/// Updating the state under an already-listed key changes the lookup of that
/// key alone.
proof fn lemma_lookup_update(s: Seq<EntryV>, i: int, e: EntryV, key: Seq<u8>, j: int)
    requires
        0 <= i < s.len(),
        e.addr == s[i].addr,
        forall|k: int| 0 <= k < i ==> s[k].addr != e.addr,
        0 <= j <= i,
    ensures
        lookup_from(s.update(i, e), e.addr, j) == Some(e.state),
        key != e.addr ==> lookup_from(s.update(i, e), key, j) == lookup_from(s, key, j),
    decreases s.len() - j,
{
    let s2 = s.update(i, e);
    if j == i {
        assert(s2[j].addr == e.addr);
        if key != e.addr && s[j].addr != key {
            lemma_lookup_frame(s, s2, key, j + 1);
        }
    } else {
        assert(s2[j] == s[j]);
        lemma_lookup_update(s, i, e, key, j + 1);
    }
}

/// Two stores that agree on every entry from `j` on look up every key the
/// same way from `j` on.
proof fn lemma_lookup_frame(s: Seq<EntryV>, s2: Seq<EntryV>, key: Seq<u8>, j: int)
    requires
        s.len() == s2.len(),
        forall|k: int| j <= k < s.len() ==> s[k] == s2[k],
    ensures
        lookup_from(s2, key, j) == lookup_from(s, key, j),
    decreases s.len() - j,
{
    if 0 <= j < s.len() {
        lemma_lookup_frame(s, s2, key, j + 1);
    }
}

/// Appending an entry leaves every listed key as it was and lists the new
/// key if it was not.
proof fn lemma_lookup_push(s: Seq<EntryV>, e: EntryV, key: Seq<u8>, j: int)
    requires
        0 <= j <= s.len(),
    ensures
        lookup_from(s.push(e), key, j) == match lookup_from(s, key, j) {
            Some(a) => Some(a),
            None => if e.addr == key {
                Some(e.state)
            } else {
                None
            },
        },
    decreases s.len() - j,
{
    let s2 = s.push(e);
    if j < s.len() {
        assert(s2[j] == s[j]);
        lemma_lookup_push(s, e, key, j + 1);
    } else {
        assert(s2[j].addr == e.addr && s2[j].state == e.state);
        assert(lookup_from(s2, key, j + 1) is None);
        assert(lookup_from(s, key, j) is None);
    }
}

impl AccountStore {
    /// Every listed address and state is well formed.
    pub open spec fn wf(&self) -> bool {
        forall|i: int| 0 <= i < self.entries@.len() ==> {
            &&& (#[trigger] self.entries@[i]).addr.wf()
            &&& self.entries@[i].state.wf()
        }
    }

    /// A store that lists nothing: every account is absent.
    pub fn new() -> (r: AccountStore)
        ensures
            r.wf(),
            r@.len() == 0,
            forall|k: Seq<u8>| lookup(r@, k) is None,
    {
        AccountStore { entries: Vec::new() }
    }

    /// Position of the first entry listed for `key`, if any.
    fn index_of(&self, key: &Addr) -> (r: Option<usize>)
        ensures
            match r {
                Some(i) => {
                    &&& i < self@.len()
                    &&& self@[i as int].addr == key@
                    &&& forall|j: int| 0 <= j < i ==> self@[j].addr != key@
                    &&& lookup(self@, key@) == Some(self@[i as int].state)
                },
                None => lookup(self@, key@) is None,
            },
    {
        let n = self.entries.len();
        let mut i: usize = 0;
        while i < n
            invariant
                n == self.entries@.len(),
                i <= n,
                self@.len() == n,
                forall|j: int| 0 <= j < i ==> self@[j].addr != key@,
                lookup(self@, key@) == lookup_from(self@, key@, i as int),
            decreases n - i,
        {
            if self.entries[i].addr.matches(key) {
                assert(self@[i as int].addr == key@);
                return Some(i);
            }
            assert(self@[i as int].addr != key@);
            i += 1;
        }
        None
    }

    /// Reads the state of the account at `key`; an unlisted account is
    /// absent.
    pub fn read(&self, key: &Addr) -> (r: AccountState)
        requires
            self.wf(),
        ensures
            r@ == account_at(self@, key@),
            r.wf(),
    {
        match self.index_of(key) {
            Some(i) => {
                let e = &self.entries[i];
                AccountState {
                    lamports: e.state.lamports,
                    space: e.state.space,
                    owner: match &e.state.owner {
                        Some(o) => Some(o.clone()),
                        None => None,
                    },
                    record: match &e.state.record {
                        Some(r) => Some(
                            ResourceRecord {
                                backing_asset: r.backing_asset.clone(),
                                authority: r.authority.clone(),
                            },
                        ),
                        None => None,
                    },
                }
            },
            None => AccountState::absent(),
        }
    }

    /// Writes the state of the account at `key`, listing it if it was not.
    /// Every other account keeps its state.
    pub fn write(&mut self, key: &Addr, state: AccountState)
        requires
            old(self).wf(),
            key.wf(),
            state.wf(),
        ensures
            final(self).wf(),
            lookup(final(self)@, key@) == Some(state@),
            forall|k: Seq<u8>| k != key@ ==> lookup(final(self)@, k) == lookup(old(self)@, k),
    {
        let ghost pre = self@;
        match self.index_of(key) {
            Some(i) => {
                let ghost e = EntryV { addr: key@, state: state@ };
                self.entries[i] = AccountEntry { addr: key.clone(), state };
                proof {
                    assert(self@ =~= pre.update(i as int, e));
                    assert forall|k: Seq<u8>| k != key@ implies lookup(self@, k) == lookup(
                        pre,
                        k,
                    ) by {
                        lemma_lookup_update(pre, i as int, e, k, 0);
                    }
                    lemma_lookup_update(pre, i as int, e, key@, 0);
                }
            },
            None => {
                let ghost e = EntryV { addr: key@, state: state@ };
                self.entries.push(AccountEntry { addr: key.clone(), state });
                proof {
                    assert(self@ =~= pre.push(e));
                    assert forall|k: Seq<u8>| k != key@ implies lookup(self@, k) == lookup(
                        pre,
                        k,
                    ) by {
                        lemma_lookup_push(pre, e, k, 0);
                    }
                    lemma_lookup_push(pre, e, key@, 0);
                }
            },
        }
    }
}

} // verus!
