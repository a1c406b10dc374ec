//! Persisted state: the configuration and counters singletons, the
//! per-epoch round records, the per-(epoch, user) bet records, the viewing
//! keys and the revoked permit names.
//!
//! Rounds form an append-only sequence keyed by epoch (epoch `e` lives at
//! position `e - 1`).  Bets and viewing keys are association lists whose
//! keys stay pairwise distinct; `Storage::wf` captures that together with
//! the pool accounting of every round.

use vstd::prelude::*;

use crate::types::{Bet, Config, Error, Round, State};

verus! {

/// One bet record, keyed by epoch and bettor identity.
#[derive(Clone, Debug)]
pub struct BetEntry {
    pub epoch: u128,
    pub user: String,
    pub bet: Bet,
}

/// One stored viewing key, keyed by its holder's identity.
#[derive(Clone, Debug)]
pub struct KeyEntry {
    pub user: String,
    pub key: String,
}

/// One revoked permit name, keyed by the identity that revoked it.
#[derive(Clone, Debug)]
pub struct RevokedEntry {
    pub user: String,
    pub permit_name: String,
}

/// Position of the record for `(epoch, user)` in a bet list, or -1 if none.
pub open spec fn spec_bet_index(s: Seq<BetEntry>, epoch: u128, user: Seq<char>) -> int
    decreases s.len(),
{
    if s.len() == 0 {
        -1
    } else if s[0].epoch == epoch && s[0].user@ == user {
        0
    } else {
        let rest = spec_bet_index(s.drop_first(), epoch, user);
        if rest < 0 {
            -1
        } else {
            rest + 1
        }
    }
}

/// The bet recorded for `(epoch, user)`, if any.
pub open spec fn spec_bet_lookup(s: Seq<BetEntry>, epoch: u128, user: Seq<char>) -> Option<Bet> {
    let i = spec_bet_index(s, epoch, user);
    if i >= 0 {
        Some(s[i].bet)
    } else {
        None
    }
}

/// `spec_bet_index` finds the first matching record and nothing else.
pub proof fn lemma_bet_index_props(s: Seq<BetEntry>, epoch: u128, user: Seq<char>)
    ensures
        -1 <= spec_bet_index(s, epoch, user) < s.len(),
        spec_bet_index(s, epoch, user) >= 0 ==> {
            let i = spec_bet_index(s, epoch, user);
            &&& s[i].epoch == epoch
            &&& s[i].user@ == user
            &&& forall|j: int|
                0 <= j < i ==> !((#[trigger] s[j]).epoch == epoch && s[j].user@ == user)
        },
        spec_bet_index(s, epoch, user) == -1 ==> forall|j: int|
            0 <= j < s.len() ==> !((#[trigger] s[j]).epoch == epoch && s[j].user@ == user),
    decreases s.len(),
{
    if s.len() > 0 {
        if !(s[0].epoch == epoch && s[0].user@ == user) {
            lemma_bet_index_props(s.drop_first(), epoch, user);
            let rest = spec_bet_index(s.drop_first(), epoch, user);
            let i = spec_bet_index(s, epoch, user);
            if rest >= 0 {
                assert(s[i] == s.drop_first()[rest]);
                assert forall|j: int|
                    0 <= j < i implies !((#[trigger] s[j]).epoch == epoch && s[j].user@
                    == user) by {
                    if j >= 1 {
                        assert(s[j] == s.drop_first()[j - 1]);
                    }
                }
            } else {
                assert forall|j: int|
                    0 <= j < s.len() implies !((#[trigger] s[j]).epoch == epoch && s[j].user@
                    == user) by {
                    if j >= 1 {
                        assert(s[j] == s.drop_first()[j - 1]);
                    }
                }
            }
        }
    }
}

/// Conversely, the first matching position is what `spec_bet_index` returns.
pub proof fn lemma_bet_index_char(s: Seq<BetEntry>, epoch: u128, user: Seq<char>, i: int)
    requires
        0 <= i < s.len(),
        s[i].epoch == epoch,
        s[i].user@ == user,
        forall|j: int| 0 <= j < i ==> !((#[trigger] s[j]).epoch == epoch && s[j].user@ == user),
    ensures
        spec_bet_index(s, epoch, user) == i,
    decreases s.len(),
{
    if i > 0 {
        assert(forall|j: int|
            0 <= j < s.drop_first().len() ==> s.drop_first()[j] == s[j + 1]);
        lemma_bet_index_char(s.drop_first(), epoch, user, i - 1);
    }
}

/// Position of the key record for `user`, or -1 if none.
pub open spec fn spec_key_index(s: Seq<KeyEntry>, user: Seq<char>) -> int
    decreases s.len(),
{
    if s.len() == 0 {
        -1
    } else if s[0].user@ == user {
        0
    } else {
        let rest = spec_key_index(s.drop_first(), user);
        if rest < 0 {
            -1
        } else {
            rest + 1
        }
    }
}

/// The viewing key stored for `user`, if any.
pub open spec fn spec_key_lookup(s: Seq<KeyEntry>, user: Seq<char>) -> Option<Seq<char>> {
    let i = spec_key_index(s, user);
    if i >= 0 {
        Some(s[i].key@)
    } else {
        None
    }
}

/// `spec_key_index` finds the first matching record and nothing else.
pub proof fn lemma_key_index_props(s: Seq<KeyEntry>, user: Seq<char>)
    ensures
        -1 <= spec_key_index(s, user) < s.len(),
        spec_key_index(s, user) >= 0 ==> {
            let i = spec_key_index(s, user);
            &&& s[i].user@ == user
            &&& forall|j: int| 0 <= j < i ==> (#[trigger] s[j]).user@ != user
        },
        spec_key_index(s, user) == -1 ==> forall|j: int|
            0 <= j < s.len() ==> (#[trigger] s[j]).user@ != user,
    decreases s.len(),
{
    if s.len() > 0 {
        if s[0].user@ != user {
            lemma_key_index_props(s.drop_first(), user);
            let rest = spec_key_index(s.drop_first(), user);
            let i = spec_key_index(s, user);
            if rest >= 0 {
                assert(s[i] == s.drop_first()[rest]);
                assert forall|j: int| 0 <= j < i implies (#[trigger] s[j]).user@ != user by {
                    if j >= 1 {
                        assert(s[j] == s.drop_first()[j - 1]);
                    }
                }
            } else {
                assert forall|j: int|
                    0 <= j < s.len() implies (#[trigger] s[j]).user@ != user by {
                    if j >= 1 {
                        assert(s[j] == s.drop_first()[j - 1]);
                    }
                }
            }
        }
    }
}

/// Conversely, the first matching position is what `spec_key_index` returns.
pub proof fn lemma_key_index_char(s: Seq<KeyEntry>, user: Seq<char>, i: int)
    requires
        0 <= i < s.len(),
        s[i].user@ == user,
        forall|j: int| 0 <= j < i ==> (#[trigger] s[j]).user@ != user,
    ensures
        spec_key_index(s, user) == i,
    decreases s.len(),
{
    if i > 0 {
        assert(forall|j: int|
            0 <= j < s.drop_first().len() ==> s.drop_first()[j] == s[j + 1]);
        lemma_key_index_char(s.drop_first(), user, i - 1);
    }
}

/// Whether `user` has revoked the permit name `name`.
pub open spec fn spec_revoked_contains(s: Seq<RevokedEntry>, user: Seq<char>, name: Seq<char>) -> bool {
    exists|i: int| 0 <= i < s.len() && (#[trigger] s[i]).user@ == user && s[i].permit_name@ == name
}

/// The whole persisted state of the protocol.
pub struct Storage {
    config: Option<Config>,
    state: Option<State>,
    rounds: Vec<Round>,
    bets: Vec<BetEntry>,
    viewing_keys: Vec<KeyEntry>,
    revoked_permits: Vec<RevokedEntry>,
}

impl Storage {
    pub closed spec fn spec_config(&self) -> Option<Config> {
        self.config
    }

    pub closed spec fn spec_state(&self) -> Option<State> {
        self.state
    }

    pub closed spec fn spec_rounds(&self) -> Seq<Round> {
        self.rounds@
    }

    pub closed spec fn spec_bets(&self) -> Seq<BetEntry> {
        self.bets@
    }

    pub closed spec fn spec_keys(&self) -> Seq<KeyEntry> {
        self.viewing_keys@
    }

    pub closed spec fn spec_revoked(&self) -> Seq<RevokedEntry> {
        self.revoked_permits@
    }

    /// The round stored for `epoch`, if any.
    pub open spec fn spec_round(&self, epoch: u128) -> Option<Round> {
        if 1 <= epoch && epoch <= self.spec_rounds().len() {
            Some(self.spec_rounds()[epoch - 1])
        } else {
            None
        }
    }

    /// Invariant of every reachable state: sound pool accounting in every
    /// round, pairwise-distinct bet and key records, a valid configuration,
    /// an epoch counter backed by stored rounds, and bets only on stored,
    /// non-genesis rounds.
    pub open spec fn wf(&self) -> bool {
        &&& forall|i: int|
            0 <= i < self.spec_rounds().len() ==> (#[trigger] self.spec_rounds()[i]).wf()
        &&& forall|i: int, j: int|
            #![trigger self.spec_bets()[i], self.spec_bets()[j]]
            0 <= i < j < self.spec_bets().len() ==> !(self.spec_bets()[i].epoch
                == self.spec_bets()[j].epoch && self.spec_bets()[i].user@
                == self.spec_bets()[j].user@)
        &&& forall|i: int, j: int|
            #![trigger self.spec_keys()[i], self.spec_keys()[j]]
            0 <= i < j < self.spec_keys().len() ==> self.spec_keys()[i].user@
                != self.spec_keys()[j].user@
        &&& match self.spec_config() {
            Some(cfg) => cfg.valid(),
            None => true,
        }
        &&& match self.spec_state() {
            Some(st) => st.epoch <= self.spec_rounds().len() && (!st.paused ==> 2 <= st.epoch),
            None => true,
        }
        &&& forall|i: int|
            0 <= i < self.spec_bets().len() ==> {
                let e = (#[trigger] self.spec_bets()[i]).epoch;
                &&& 2 <= e
                &&& e <= self.spec_rounds().len()
                &&& !self.spec_rounds()[e - 1].is_genesis
                &&& self.spec_bets()[i].bet.amount > 0
            }
    }

    /// The round store is a vector, so the number of rounds is machine
    /// bounded.
    pub proof fn lemma_rounds_len(&self)
        ensures
            self.spec_rounds().len() <= usize::MAX,
    {
        vstd::std_specs::vec::axiom_spec_len(&self.rounds);
    }

    /// Fresh, empty storage, as before initialization.
    pub fn new() -> (r: Storage)
        ensures
            r.spec_config() is None,
            r.spec_state() is None,
            r.spec_rounds() == Seq::<Round>::empty(),
            r.spec_bets() == Seq::<BetEntry>::empty(),
            r.spec_keys() == Seq::<KeyEntry>::empty(),
            r.spec_revoked() == Seq::<RevokedEntry>::empty(),
            r.wf(),
    {
        Storage {
            config: None,
            state: None,
            rounds: Vec::new(),
            bets: Vec::new(),
            viewing_keys: Vec::new(),
            revoked_permits: Vec::new(),
        }
    }
}

/// Overwrites the configuration singleton.
pub fn store_config(storage: &mut Storage, data: Config)
    ensures
        final(storage).spec_config() == Some(data),
        final(storage).spec_state() == old(storage).spec_state(),
        final(storage).spec_rounds() == old(storage).spec_rounds(),
        final(storage).spec_bets() == old(storage).spec_bets(),
        final(storage).spec_keys() == old(storage).spec_keys(),
        final(storage).spec_revoked() == old(storage).spec_revoked(),
{
    storage.config = Some(data);
}

/// Reads the configuration singleton.
pub fn read_config(storage: &Storage) -> (r: Result<&Config, Error>)
    ensures
        match r {
            Ok(cfg) => storage.spec_config() == Some(*cfg),
            Err(e) => storage.spec_config() is None && e == Error::NotInitialized,
        },
{
    match &storage.config {
        Some(cfg) => Ok(cfg),
        None => Err(Error::NotInitialized),
    }
}

/// Overwrites the counters singleton.
pub fn store_state(storage: &mut Storage, data: State)
    ensures
        final(storage).spec_state() == Some(data),
        final(storage).spec_config() == old(storage).spec_config(),
        final(storage).spec_rounds() == old(storage).spec_rounds(),
        final(storage).spec_bets() == old(storage).spec_bets(),
        final(storage).spec_keys() == old(storage).spec_keys(),
        final(storage).spec_revoked() == old(storage).spec_revoked(),
{
    storage.state = Some(data);
}

/// Reads the counters singleton.
pub fn read_state(storage: &Storage) -> (r: Result<State, Error>)
    ensures
        match r {
            Ok(st) => storage.spec_state() == Some(st),
            Err(e) => storage.spec_state() is None && e == Error::NotInitialized,
        },
{
    match &storage.state {
        Some(st) => Ok(
            State { epoch: st.epoch, total_fee: st.total_fee, paused: st.paused },
        ),
        None => Err(Error::NotInitialized),
    }
}

/// Writes the round for `epoch`: rounds are dense, so the epoch must
/// already be stored or be the next one.
pub fn store_round(storage: &mut Storage, epoch: u128, data: Round)
    requires
        1 <= epoch,
        epoch <= old(storage).spec_rounds().len() + 1,
    ensures
        final(storage).spec_rounds() == if epoch <= old(storage).spec_rounds().len() {
            old(storage).spec_rounds().update(epoch - 1, data)
        } else {
            old(storage).spec_rounds().push(data)
        },
        final(storage).spec_config() == old(storage).spec_config(),
        final(storage).spec_state() == old(storage).spec_state(),
        final(storage).spec_bets() == old(storage).spec_bets(),
        final(storage).spec_keys() == old(storage).spec_keys(),
        final(storage).spec_revoked() == old(storage).spec_revoked(),
{
    let n = storage.rounds.len();
    let idx = (epoch - 1) as usize;
    if idx < n {
        storage.rounds[idx] = data;
    } else {
        storage.rounds.push(data);
    }
}

/// Reads the round for `epoch`.
pub fn read_round(storage: &Storage, epoch: u128) -> (r: Result<Round, Error>)
    ensures
        match r {
            Ok(round) => storage.spec_round(epoch) == Some(round),
            Err(e) => storage.spec_round(epoch) is None && e == Error::RoundNotFound,
        },
{
    if 1 <= epoch && epoch <= storage.rounds.len() as u128 {
        Ok(storage.rounds[(epoch - 1) as usize])
    } else {
        Err(Error::RoundNotFound)
    }
}

/// Position of the bet record for `(epoch, user)`, if one exists.
fn find_bet(bets: &Vec<BetEntry>, epoch: u128, user: &String) -> (r: Option<usize>)
    ensures
        match r {
            Some(i) => i as int == spec_bet_index(bets@, epoch, user@),
            None => spec_bet_index(bets@, epoch, user@) == -1,
        },
{
    let n = bets.len();
    for i in 0..n
        invariant
            n == bets@.len(),
            forall|j: int|
                0 <= j < i ==> !((#[trigger] bets@[j]).epoch == epoch && bets@[j].user@
                    == user@),
    {
        if bets[i].epoch == epoch && bets[i].user == *user {
            proof {
                lemma_bet_index_char(bets@, epoch, user@, i as int);
            }
            return Some(i);
        }
    }
    proof {
        lemma_bet_index_props(bets@, epoch, user@);
    }
    None
}

/// Writes the bet of `(epoch, user)`, overwriting any existing record.
pub fn store_bet(storage: &mut Storage, epoch: u128, user: String, data: Bet)
    ensures
        ({
            let i = spec_bet_index(old(storage).spec_bets(), epoch, user@);
            let entry = BetEntry { epoch, user, bet: data };
            final(storage).spec_bets() == if i >= 0 {
                old(storage).spec_bets().update(i, entry)
            } else {
                old(storage).spec_bets().push(entry)
            }
        }),
        spec_bet_lookup(final(storage).spec_bets(), epoch, user@) == Some(data),
        final(storage).spec_config() == old(storage).spec_config(),
        final(storage).spec_state() == old(storage).spec_state(),
        final(storage).spec_rounds() == old(storage).spec_rounds(),
        final(storage).spec_keys() == old(storage).spec_keys(),
        final(storage).spec_revoked() == old(storage).spec_revoked(),
{
    proof {
        lemma_bet_index_props(storage.bets@, epoch, user@);
    }
    let found = find_bet(&storage.bets, epoch, &user);
    match found {
        Some(i) => {
            let ghost pre = storage.bets@;
            storage.bets[i] = BetEntry { epoch, user, bet: data };
            proof {
                lemma_bet_index_char(storage.bets@, epoch, user@, i as int);
            }
        },
        None => {
            let ghost pre = storage.bets@;
            storage.bets.push(BetEntry { epoch, user, bet: data });
            proof {
                lemma_bet_index_char(storage.bets@, epoch, user@, pre.len() as int);
            }
        },
    }
}

/// Reads the bet of `(epoch, user)`.
pub fn read_bet(storage: &Storage, epoch: u128, user: &String) -> (r: Result<Bet, Error>)
    ensures
        match r {
            Ok(bet) => spec_bet_lookup(storage.spec_bets(), epoch, user@) == Some(bet),
            Err(e) => spec_bet_lookup(storage.spec_bets(), epoch, user@) is None && e
                == Error::BetNotFound,
        },
{
    proof {
        lemma_bet_index_props(storage.spec_bets(), epoch, user@);
    }
    match find_bet(&storage.bets, epoch, user) {
        Some(i) => Ok(storage.bets[i].bet),
        None => Err(Error::BetNotFound),
    }
}

/// Position of the key record for `user`, if one exists.
fn find_key(keys: &Vec<KeyEntry>, user: &String) -> (r: Option<usize>)
    ensures
        match r {
            Some(i) => i as int == spec_key_index(keys@, user@),
            None => spec_key_index(keys@, user@) == -1,
        },
{
    let n = keys.len();
    for i in 0..n
        invariant
            n == keys@.len(),
            forall|j: int| 0 <= j < i ==> (#[trigger] keys@[j]).user@ != user@,
    {
        if keys[i].user == *user {
            proof {
                lemma_key_index_char(keys@, user@, i as int);
            }
            return Some(i);
        }
    }
    proof {
        lemma_key_index_props(keys@, user@);
    }
    None
}

/// Stores `user`'s viewing key, overwriting any earlier one.
pub fn store_viewing_key(storage: &mut Storage, user: String, key: String)
    ensures
        ({
            let i = spec_key_index(old(storage).spec_keys(), user@);
            let entry = KeyEntry { user, key };
            final(storage).spec_keys() == if i >= 0 {
                old(storage).spec_keys().update(i, entry)
            } else {
                old(storage).spec_keys().push(entry)
            }
        }),
        spec_key_lookup(final(storage).spec_keys(), user@) == Some(key@),
        final(storage).spec_config() == old(storage).spec_config(),
        final(storage).spec_state() == old(storage).spec_state(),
        final(storage).spec_rounds() == old(storage).spec_rounds(),
        final(storage).spec_bets() == old(storage).spec_bets(),
        final(storage).spec_revoked() == old(storage).spec_revoked(),
{
    proof {
        lemma_key_index_props(storage.viewing_keys@, user@);
    }
    let found = find_key(&storage.viewing_keys, &user);
    match found {
        Some(i) => {
            storage.viewing_keys[i] = KeyEntry { user, key };
            proof {
                lemma_key_index_char(storage.viewing_keys@, user@, i as int);
            }
        },
        None => {
            let ghost pre = storage.viewing_keys@;
            storage.viewing_keys.push(KeyEntry { user, key });
            proof {
                lemma_key_index_char(storage.viewing_keys@, user@, pre.len() as int);
            }
        },
    }
}

/// Reads `user`'s stored viewing key.
pub fn read_viewing_key(storage: &Storage, user: &String) -> (r: Option<String>)
    ensures
        match r {
            Some(key) => spec_key_lookup(storage.spec_keys(), user@) == Some(key@),
            None => spec_key_lookup(storage.spec_keys(), user@) is None,
        },
{
    proof {
        lemma_key_index_props(storage.spec_keys(), user@);
    }
    match find_key(&storage.viewing_keys, user) {
        Some(i) => Some(storage.viewing_keys[i].key.clone()),
        None => None,
    }
}

/// Records that `user` revoked the permit name `name`.
pub fn store_revoked_permit(storage: &mut Storage, user: String, name: String)
    ensures
        final(storage).spec_revoked() == old(storage).spec_revoked().push(
            RevokedEntry { user, permit_name: name },
        ),
        final(storage).spec_config() == old(storage).spec_config(),
        final(storage).spec_state() == old(storage).spec_state(),
        final(storage).spec_rounds() == old(storage).spec_rounds(),
        final(storage).spec_bets() == old(storage).spec_bets(),
        final(storage).spec_keys() == old(storage).spec_keys(),
{
    storage.revoked_permits.push(RevokedEntry { user, permit_name: name });
}

/// Whether `user` has revoked the permit name `name`.
pub fn is_permit_revoked(storage: &Storage, user: &String, name: &String) -> (r: bool)
    ensures
        r == spec_revoked_contains(storage.spec_revoked(), user@, name@),
{
    let n = storage.revoked_permits.len();
    for i in 0..n
        invariant
            n == storage.spec_revoked().len(),
            forall|j: int|
                0 <= j < i ==> !((#[trigger] storage.spec_revoked()[j]).user@ == user@
                    && storage.spec_revoked()[j].permit_name@ == name@),
    {
        if storage.revoked_permits[i].user == *user
            && storage.revoked_permits[i].permit_name == *name {
            return true;
        }
    }
    false
}

} // verus!
