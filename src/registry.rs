use vstd::prelude::*;

use crate::instructions::{
    cancel_breeding, claims_family, cooldown_elapsed, counters_fit, create_machine, finalize_breeding, initialize_breeding,
    update_machine_config, updated_config, CancelBreeding, FinalizeBreeding, InitializeBreed, InitializeBreedMachine,
    UpdateMachineConfig,
};
use crate::key::Pubkey;
use crate::keyed::{
    has_key, keyed, keys_unique, lemma_keyed_at, lemma_keyed_push, lemma_keyed_remove, lemma_keyed_update,
};
use crate::ops::{cancel_ops, create_machine_ops, finalize_ops, initialize_ops, TokenOp};
use crate::state::{BreedConfig, BreedData, BreedMachine, BreedingError, NftMetadata, UpdateMachineConfigArgs};

verus! {

/// The identity of a machine: its parent family, its reward family and its
/// operator. At most one machine exists per key.
#[derive(Clone, Copy, Debug, PartialEq, Eq)]
pub struct MachineKey {
    pub parents_candy_machine: Pubkey,
    pub reward_candy_machine: Pubkey,
    pub authority: Pubkey,
}

impl MachineKey {
    pub fn same(&self, other: &MachineKey) -> (r: bool)
        ensures
            r == (*self == *other),
    {
        self.parents_candy_machine.same(&other.parents_candy_machine) && self.reward_candy_machine.same(
            &other.reward_candy_machine,
        ) && self.authority.same(&other.authority)
    }
}

/// The identity of a session: its machine and its two parents. At most one
/// session is open per key.
#[derive(Clone, Copy, Debug, PartialEq, Eq)]
pub struct SessionKey {
    pub machine: MachineKey,
    pub mint_a: Pubkey,
    pub mint_b: Pubkey,
}

impl SessionKey {
    pub fn same(&self, other: &SessionKey) -> (r: bool)
        ensures
            r == (*self == *other),
    {
        self.machine.same(&other.machine) && self.mint_a.same(&other.mint_a) && self.mint_b.same(&other.mint_b)
    }
}

pub open spec fn machine_key(m: BreedMachine) -> MachineKey {
    MachineKey {
        parents_candy_machine: m.config.parents_candy_machine,
        reward_candy_machine: m.config.reward_candy_machine,
        authority: m.authority,
    }
}

/// The key of the machine that `authority` creates with `config`.
pub open spec fn key_of_config(authority: Pubkey, config: BreedConfig) -> MachineKey {
    MachineKey {
        parents_candy_machine: config.parents_candy_machine,
        reward_candy_machine: config.reward_candy_machine,
        authority,
    }
}

/// An open session together with the machine it runs under.
#[derive(Clone, Copy, Debug)]
struct OpenSession {
    machine: MachineKey,
    data: BreedData,
}

spec fn session_key(s: OpenSession) -> SessionKey {
    SessionKey { machine: s.machine, mint_a: s.data.mint_a, mint_b: s.data.mint_b }
}

spec fn machine_key_fn() -> spec_fn(BreedMachine) -> MachineKey {
    |m: BreedMachine| machine_key(m)
}

spec fn session_key_fn() -> spec_fn(OpenSession) -> SessionKey {
    |s: OpenSession| session_key(s)
}

spec fn session_data_fn() -> spec_fn(OpenSession) -> BreedData {
    |s: OpenSession| s.data
}

proof fn lemma_has_machine(s: Seq<BreedMachine>, i: int)
    requires
        0 <= i < s.len(),
    ensures
        has_key(s, machine_key_fn(), machine_key(s[i])),
{
    assert(machine_key_fn()(s[i]) == machine_key(s[i]));
}

proof fn lemma_machine_keys_distinct(s: Seq<BreedMachine>, i: int, j: int)
    requires
        keys_unique(s, machine_key_fn()),
        0 <= i < s.len(),
        0 <= j < s.len(),
        i != j,
    ensures
        machine_key(s[i]) != machine_key(s[j]),
{
    assert(machine_key_fn()(s[i]) == machine_key(s[i]));
    assert(machine_key_fn()(s[j]) == machine_key(s[j]));
}

/// A key present in `s` stays present when entries keep their keys.
proof fn lemma_has_machine_kept(s: Seq<BreedMachine>, t: Seq<BreedMachine>, k: MachineKey)
    requires
        has_key(s, machine_key_fn(), k),
        s.len() <= t.len(),
        forall|j: int| 0 <= j < s.len() ==> machine_key(#[trigger] t[j]) == machine_key(s[j]),
    ensures
        has_key(t, machine_key_fn(), k),
{
    let j = choose|j: int| 0 <= j < s.len() && #[trigger] machine_key_fn()(s[j]) == k;
    assert(machine_key(t[j]) == machine_key(s[j]));
    lemma_has_machine(t, j);
}

proof fn lemma_session_view_push(s: Seq<OpenSession>, e: OpenSession)
    requires
        keys_unique(s, session_key_fn()),
        !has_key(s, session_key_fn(), session_key(e)),
    ensures
        keys_unique(s.push(e), session_key_fn()),
        keyed(s.push(e), session_key_fn()).map_values(session_data_fn()) == keyed(s, session_key_fn()).map_values(
            session_data_fn(),
        ).insert(session_key(e), e.data),
{
    lemma_keyed_push(s, session_key_fn(), e);
    assert(keyed(s.push(e), session_key_fn()).map_values(session_data_fn()) =~= keyed(
        s,
        session_key_fn(),
    ).map_values(session_data_fn()).insert(session_key(e), e.data));
}

proof fn lemma_session_view_remove(s: Seq<OpenSession>, i: int)
    requires
        keys_unique(s, session_key_fn()),
        0 <= i < s.len(),
    ensures
        keys_unique(s.remove(i), session_key_fn()),
        keyed(s.remove(i), session_key_fn()).map_values(session_data_fn()) == keyed(
            s,
            session_key_fn(),
        ).map_values(session_data_fn()).remove(session_key(s[i])),
{
    lemma_keyed_remove(s, session_key_fn(), i);
    assert(keyed(s.remove(i), session_key_fn()).map_values(session_data_fn()) =~= keyed(
        s,
        session_key_fn(),
    ).map_values(session_data_fn()).remove(session_key(s[i])));
}

/// How many of the sessions run under machine `k`.
spec fn count_open(s: Seq<OpenSession>, k: MachineKey) -> nat
    decreases s.len(),
{
    if s.len() == 0 {
        0
    } else {
        count_open(s.drop_last(), k) + if s.last().machine == k {
            1nat
        } else {
            0nat
        }
    }
}

proof fn lemma_count_push(s: Seq<OpenSession>, x: OpenSession, k: MachineKey)
    ensures
        count_open(s.push(x), k) == count_open(s, k) + if x.machine == k {
            1nat
        } else {
            0nat
        },
{
    assert(s.push(x).drop_last() =~= s);
}

proof fn lemma_count_remove(s: Seq<OpenSession>, i: int, k: MachineKey)
    requires
        0 <= i < s.len(),
    ensures
        count_open(s, k) == count_open(s.remove(i), k) + if s[i].machine == k {
            1nat
        } else {
            0nat
        },
    decreases s.len(),
{
    if i == s.len() - 1 {
        assert(s.remove(i) =~= s.drop_last());
    } else {
        lemma_count_remove(s.drop_last(), i, k);
        assert(s.remove(i) =~= s.drop_last().remove(i).push(s.last()));
        lemma_count_push(s.drop_last().remove(i), s.last(), k);
    }
}

/// Every machine and every open session, each at most once per key: the
/// store that gives the at-most-one-session-per-pair guarantee.
pub struct BreedingRegistry {
    machines: Vec<BreedMachine>,
    sessions: Vec<OpenSession>,
}

impl BreedingRegistry {
    /// The machines by key.
    pub closed spec fn machine_view(&self) -> Map<MachineKey, BreedMachine> {
        keyed(self.machines@, machine_key_fn())
    }

    /// The open sessions by key.
    pub closed spec fn session_view(&self) -> Map<SessionKey, BreedData> {
        keyed(self.sessions@, session_key_fn()).map_values(session_data_fn())
    }

    /// How many sessions are open under machine `k`.
    pub closed spec fn open_sessions(&self, k: MachineKey) -> nat {
        count_open(self.sessions@, k)
    }

    pub closed spec fn wf(&self) -> bool {
        &&& keys_unique(self.machines@, machine_key_fn())
        &&& keys_unique(self.sessions@, session_key_fn())
        &&& forall|i: int|
            0 <= i < self.sessions@.len() ==> has_key(
                self.machines@,
                machine_key_fn(),
                (#[trigger] self.sessions@[i]).machine,
            )
        &&& forall|i: int| 0 <= i < self.machines@.len() ==> (#[trigger] self.machines@[i]).bred == 2 * self.machines@[i].born
    }

    fn find_machine(&self, key: &MachineKey) -> (r: Option<usize>)
        ensures
            match r {
                Some(i) => i < self.machines@.len() && machine_key(self.machines@[i as int]) == *key,
                None => !has_key(self.machines@, machine_key_fn(), *key),
            },
    {
        let mut i: usize = 0;
        while i < self.machines.len()
            invariant
                i <= self.machines@.len(),
                forall|j: int| 0 <= j < i ==> machine_key(#[trigger] self.machines@[j]) != *key,
            decreases self.machines@.len() - i,
        {
            let m = &self.machines[i];
            let k = MachineKey {
                parents_candy_machine: m.config.parents_candy_machine,
                reward_candy_machine: m.config.reward_candy_machine,
                authority: m.authority,
            };
            if k.same(key) {
                return Some(i);
            }
            i += 1;
        }
        assert(!has_key(self.machines@, machine_key_fn(), *key)) by {
            if has_key(self.machines@, machine_key_fn(), *key) {
                let j = choose|j: int|
                    0 <= j < self.machines@.len() && #[trigger] machine_key_fn()(self.machines@[j]) == *key;
                assert(machine_key(self.machines@[j]) == *key);
            }
        }
        None
    }

    fn find_session(&self, key: &SessionKey) -> (r: Option<usize>)
        ensures
            match r {
                Some(i) => i < self.sessions@.len() && session_key(self.sessions@[i as int]) == *key,
                None => !has_key(self.sessions@, session_key_fn(), *key),
            },
    {
        let mut i: usize = 0;
        while i < self.sessions.len()
            invariant
                i <= self.sessions@.len(),
                forall|j: int| 0 <= j < i ==> session_key(#[trigger] self.sessions@[j]) != *key,
            decreases self.sessions@.len() - i,
        {
            let s = &self.sessions[i];
            let k = SessionKey { machine: s.machine, mint_a: s.data.mint_a, mint_b: s.data.mint_b };
            if k.same(key) {
                return Some(i);
            }
            i += 1;
        }
        assert(!has_key(self.sessions@, session_key_fn(), *key)) by {
            if has_key(self.sessions@, session_key_fn(), *key) {
                let j = choose|j: int|
                    0 <= j < self.sessions@.len() && #[trigger] session_key_fn()(self.sessions@[j]) == *key;
                assert(session_key(self.sessions@[j]) == *key);
            }
        }
        None
    }

    /// An empty registry.
    pub fn new() -> (r: BreedingRegistry)
        ensures
            r.wf(),
            r.machine_view() == Map::<MachineKey, BreedMachine>::empty(),
            r.session_view() == Map::<SessionKey, BreedData>::empty(),
    {
        let r = BreedingRegistry { machines: Vec::new(), sessions: Vec::new(), };
        assert(r.machine_view() =~= Map::<MachineKey, BreedMachine>::empty());
        assert(r.session_view() =~= Map::<SessionKey, BreedData>::empty());
        r
    }

    /// The machine under `key`, if any.
    pub fn machine(&self, key: MachineKey) -> (r: Option<BreedMachine>)
        requires
            self.wf(),
        ensures
            r == if self.machine_view().contains_key(key) {
                Some(self.machine_view()[key])
            } else {
                None::<BreedMachine>
            },
    {
        match self.find_machine(&key) {
            Some(i) => {
                proof {
                    lemma_keyed_at(self.machines@, machine_key_fn(), i as int);
                }
                Some(self.machines[i])
            },
            None => None,
        }
    }

    /// The record of the session open under `key`, if any.
    pub fn session(&self, key: SessionKey) -> (r: Option<BreedData>)
        requires
            self.wf(),
        ensures
            r == if self.session_view().contains_key(key) {
                Some(self.session_view()[key])
            } else {
                None::<BreedData>
            },
    {
        match self.find_session(&key) {
            Some(i) => {
                proof {
                    lemma_keyed_at(self.sessions@, session_key_fn(), i as int);
                }
                Some(self.sessions[i].data)
            },
            None => None,
        }
    }

    /// How many sessions are open under machine `key`.
    pub fn open_session_count(&self, key: MachineKey) -> (r: usize)
        ensures
            r == self.open_sessions(key),
    {
        let mut n: usize = 0;
        let mut i: usize = 0;
        while i < self.sessions.len()
            invariant
                i <= self.sessions@.len(),
                n == count_open(self.sessions@.subrange(0, i as int), key),
                n <= i,
            decreases self.sessions@.len() - i,
        {
            proof {
                assert(self.sessions@.subrange(0, i + 1).drop_last() =~= self.sessions@.subrange(0, i as int));
            }
            if self.sessions[i].machine.same(&key) {
                n += 1;
            }
            i += 1;
        }
        assert(self.sessions@.subrange(0, i as int) =~= self.sessions@);
        n
    }

    /// Creates the machine of `authority` with `config`, unless one exists
    /// under the same key; also returns the operations that fix its reward
    /// pool.
    pub fn create_machine(&mut self, authority: Pubkey, config: BreedConfig) -> (r: Result<
        Vec<TokenOp>,
        BreedingError,
    >)
        requires
            old(self).wf(),
        ensures
            final(self).wf(),
            old(self).machine_view().contains_key(key_of_config(authority, config)) ==> r == Err::<
                Vec<TokenOp>,
                BreedingError,
            >(BreedingError::MachineAlreadyExists),
            r is Err ==> *final(self) == *old(self),
            !old(self).machine_view().contains_key(key_of_config(authority, config)) ==> (r matches Ok(ops) && ops@
                == create_machine_ops(config.reward_supply)),
            r is Ok ==> {
                &&& final(self).machine_view() == old(self).machine_view().insert(
                    key_of_config(authority, config),
                    (BreedMachine { authority, bred: 0, born: 0, config }),
                )
                &&& final(self).session_view() == old(self).session_view()
                &&& forall|k: MachineKey| #[trigger] final(self).open_sessions(k) == old(self).open_sessions(k)
            },
    {
        let key = MachineKey {
            parents_candy_machine: config.parents_candy_machine,
            reward_candy_machine: config.reward_candy_machine,
            authority,
        };
        if let Some(i) = self.find_machine(&key) {
            proof {
                lemma_keyed_at(self.machines@, machine_key_fn(), i as int);
            }
            return Err(BreedingError::MachineAlreadyExists);
        }
        let ctx = InitializeBreedMachine { authority };
        let (machine, ops) = create_machine(&ctx, config);
        proof {
            lemma_keyed_push(self.machines@, machine_key_fn(), machine);
        }
        let ghost old_machines = self.machines@;
        self.machines.push(machine);
        proof {
            assert forall|i: int| 0 <= i < self.sessions@.len() implies has_key(
                self.machines@,
                machine_key_fn(),
                (#[trigger] self.sessions@[i]).machine,
            ) by {
                lemma_has_machine_kept(old_machines, self.machines@, self.sessions@[i].machine);
            }
            assert forall|i: int| 0 <= i < self.machines@.len() implies (#[trigger] self.machines@[i]).bred == 2
                * self.machines@[i].born by {
                if i < old_machines.len() {
                    assert(self.machines@[i] == old_machines[i]);
                }
            }
        }
        Ok(ops)
    }

    /// Opens a session for the pair (`mint_parent_a`, `mint_parent_b`) under
    /// machine `machine` at ledger time `now`, unless one is already open for
    /// that pair; the checks of `initialize_breeding` follow.
    pub fn initialize_breeding(
        &mut self,
        machine: MachineKey,
        user_wallet: Pubkey,
        mint_parent_a: Pubkey,
        metadata_parent_a: NftMetadata,
        mint_parent_b: Pubkey,
        metadata_parent_b: NftMetadata,
        fee_payer_balance: u64,
        now: i64,
    ) -> (r: Result<Vec<TokenOp>, BreedingError>)
        requires
            old(self).wf(),
        ensures
            final(self).wf(),
            !old(self).machine_view().contains_key(machine) ==> r == Err::<Vec<TokenOp>, BreedingError>(
                BreedingError::MachineNotFound,
            ),
            old(self).session_view().contains_key(
                (SessionKey { machine, mint_a: mint_parent_a, mint_b: mint_parent_b }),
            ) ==> r == Err::<Vec<TokenOp>, BreedingError>(BreedingError::SessionAlreadyOpen),
            old(self).machine_view().contains_key(machine) && !old(self).session_view().contains_key(
                (SessionKey { machine, mint_a: mint_parent_a, mint_b: mint_parent_b }),
            ) ==> ({
                let m = old(self).machine_view()[machine];
                let valid = claims_family(metadata_parent_a, mint_parent_a, m.config.parents_candy_machine)
                    && claims_family(metadata_parent_b, mint_parent_b, m.config.parents_candy_machine);
                &&& !valid ==> r == Err::<Vec<TokenOp>, BreedingError>(BreedingError::InvalidNftCollection)
                &&& valid && fee_payer_balance < m.config.initialization_fee_price ==> r == Err::<
                    Vec<TokenOp>,
                    BreedingError,
                >(BreedingError::InsufficientFunds)
                &&& valid && fee_payer_balance >= m.config.initialization_fee_price ==> r is Ok
            }),
            r is Err ==> *final(self) == *old(self),
            r matches Ok(ops) ==> ({
                let m = old(self).machine_view()[machine];
                let key = SessionKey { machine, mint_a: mint_parent_a, mint_b: mint_parent_b };
                &&& ops@ == initialize_ops(m.config.initialization_fee_price)
                &&& final(self).machine_view() == old(self).machine_view()
                &&& final(self).session_view() == old(self).session_view().insert(
                    key,
                    (BreedData {
                        owner: user_wallet,
                        authority: m.authority,
                        timestamp: now,
                        mint_a: mint_parent_a,
                        mint_b: mint_parent_b,
                    }),
                )
                &&& final(self).open_sessions(machine) == old(self).open_sessions(machine) + 1
                &&& forall|k: MachineKey|
                    k != machine ==> #[trigger] final(self).open_sessions(k) == old(self).open_sessions(k)
            }),
    {
        let key = SessionKey { machine, mint_a: mint_parent_a, mint_b: mint_parent_b };
        let i = match self.find_machine(&machine) {
            Some(i) => i,
            None => {
                proof {
                    if self.session_view().contains_key(key) {
                        lemma_session_machine_exists(self, key);
                    }
                }
                return Err(BreedingError::MachineNotFound);
            },
        };
        proof {
            lemma_keyed_at(self.machines@, machine_key_fn(), i as int);
        }
        if let Some(j) = self.find_session(&key) {
            proof {
                lemma_keyed_at(self.sessions@, session_key_fn(), j as int);
            }
            return Err(BreedingError::SessionAlreadyOpen);
        }
        let ctx = InitializeBreed {
            breeding_machine: self.machines[i],
            user_wallet,
            mint_parent_a,
            metadata_parent_a,
            mint_parent_b,
            metadata_parent_b,
            fee_payer_balance,
        };
        let (data, ops) = initialize_breeding(&ctx, now)?;
        let entry = OpenSession { machine, data };
        let ghost old_sessions = self.sessions@;
        proof {
            lemma_session_view_push(self.sessions@, entry);
            assert forall|k: MachineKey| #[trigger]
                count_open(old_sessions.push(entry), k) == count_open(old_sessions, k) + if k == machine {
                    1nat
                } else {
                    0nat
                } by {
                lemma_count_push(old_sessions, entry, k);
            }
        }
        self.sessions.push(entry);
        proof {
            assert forall|j: int| 0 <= j < self.sessions@.len() implies has_key(
                self.machines@,
                machine_key_fn(),
                (#[trigger] self.sessions@[j]).machine,
            ) by {
                if j < old_sessions.len() {
                    assert(self.sessions@[j] == old_sessions[j]);
                } else {
                    lemma_has_machine(self.machines@, i as int);
                }
            }
        }
        Ok(ops)
    }

    /// Finalizes the session open under `session` at ledger time `now`,
    /// signed by `signer`; on success the session is gone and its machine
    /// has counted two more consumed parent units and one more reward.
    pub fn finalize_breeding(&mut self, session: SessionKey, signer: Pubkey, now: i64) -> (r: Result<
        Vec<TokenOp>,
        BreedingError,
    >)
        requires
            old(self).wf(),
        ensures
            final(self).wf(),
            !old(self).session_view().contains_key(session) ==> r == Err::<Vec<TokenOp>, BreedingError>(
                BreedingError::SessionNotFound,
            ),
            old(self).session_view().contains_key(session) ==> ({
                let d = old(self).session_view()[session];
                let m = old(self).machine_view()[session.machine];
                &&& old(self).machine_view().contains_key(session.machine)
                &&& signer != d.owner ==> r == Err::<Vec<TokenOp>, BreedingError>(BreedingError::Unauthorized)
                &&& signer == d.owner && !cooldown_elapsed(d.timestamp, m.config.breeding_time, now) ==> r == Err::<
                    Vec<TokenOp>,
                    BreedingError,
                >(BreedingError::StillInProgress)
                &&& signer == d.owner && cooldown_elapsed(d.timestamp, m.config.breeding_time, now) && !counters_fit(m)
                    ==> r == Err::<Vec<TokenOp>, BreedingError>(BreedingError::ArithmeticError)
                &&& signer == d.owner && cooldown_elapsed(d.timestamp, m.config.breeding_time, now) && counters_fit(m)
                    ==> r is Ok
            }),
            r is Err ==> *final(self) == *old(self),
            r matches Ok(ops) ==> ({
                let m = old(self).machine_view()[session.machine];
                &&& ops@ == finalize_ops(m.config.burn_parents)
                &&& final(self).machine_view() == old(self).machine_view().insert(
                    session.machine,
                    (BreedMachine { bred: (m.bred + 2) as u64, born: (m.born + 1) as u64, ..m }),
                )
                &&& final(self).session_view() == old(self).session_view().remove(session)
                &&& final(self).open_sessions(session.machine) + 1 == old(self).open_sessions(session.machine)
                &&& forall|k: MachineKey|
                    k != session.machine ==> #[trigger] final(self).open_sessions(k) == old(self).open_sessions(k)
            }),
    {
        let j = match self.find_session(&session) {
            Some(j) => j,
            None => return Err(BreedingError::SessionNotFound),
        };
        let entry = self.sessions[j];
        proof {
            lemma_keyed_at(self.sessions@, session_key_fn(), j as int);
        }
        let i = match self.find_machine(&entry.machine) {
            Some(i) => i,
            None => return Err(BreedingError::MachineNotFound),
        };
        let ghost old_machines = self.machines@;
        let ghost old_sessions = self.sessions@;
        proof {
            lemma_keyed_at(self.machines@, machine_key_fn(), i as int);
        }
        let mut ctx = FinalizeBreeding { breeding_machine: self.machines[i], breed_data: entry.data, user_wallet: signer };
        let ops = finalize_breeding(&mut ctx, now)?;
        proof {
            lemma_keyed_update(self.machines@, machine_key_fn(), i as int, ctx.breeding_machine);
            lemma_session_view_remove(self.sessions@, j as int);
            assert forall|k: MachineKey| #[trigger]
                count_open(old_sessions, k) == count_open(old_sessions.remove(j as int), k) + if k == entry.machine {
                    1nat
                } else {
                    0nat
                } by {
                lemma_count_remove(old_sessions, j as int, k);
            }
        }
        self.machines.set(i, ctx.breeding_machine);
        let _ = self.sessions.remove(j);
        proof {
            assert forall|a: int| 0 <= a < self.sessions@.len() implies has_key(
                self.machines@,
                machine_key_fn(),
                (#[trigger] self.sessions@[a]).machine,
            ) by {
                let a2 = if a < j { a } else { a + 1 };
                assert(self.sessions@[a] == old_sessions[a2]);
                lemma_has_machine_kept(old_machines, self.machines@, old_sessions[a2].machine);
            }
            assert forall|b: int| 0 <= b < self.machines@.len() implies (#[trigger] self.machines@[b]).bred == 2
                * self.machines@[b].born by {
                if b != i {
                    assert(self.machines@[b] == old_machines[b]);
                }
            }
        }
        Ok(ops)
    }

    /// Cancels the session open under `session`, signed by `signer`: the
    /// session is gone and no machine's counters change.
    pub fn cancel_breeding(&mut self, session: SessionKey, signer: Pubkey) -> (r: Result<
        Vec<TokenOp>,
        BreedingError,
    >)
        requires
            old(self).wf(),
        ensures
            final(self).wf(),
            !old(self).session_view().contains_key(session) ==> r == Err::<Vec<TokenOp>, BreedingError>(
                BreedingError::SessionNotFound,
            ),
            old(self).session_view().contains_key(session) && signer != old(self).session_view()[session].owner
                ==> r == Err::<Vec<TokenOp>, BreedingError>(BreedingError::Unauthorized),
            old(self).session_view().contains_key(session) && signer == old(self).session_view()[session].owner
                ==> r is Ok,
            r is Err ==> *final(self) == *old(self),
            r matches Ok(ops) ==> {
                &&& ops@ == cancel_ops()
                &&& final(self).machine_view() == old(self).machine_view()
                &&& final(self).session_view() == old(self).session_view().remove(session)
                &&& final(self).open_sessions(session.machine) + 1 == old(self).open_sessions(session.machine)
                &&& forall|k: MachineKey|
                    k != session.machine ==> #[trigger] final(self).open_sessions(k) == old(self).open_sessions(k)
            },
    {
        let j = match self.find_session(&session) {
            Some(j) => j,
            None => return Err(BreedingError::SessionNotFound),
        };
        let entry = self.sessions[j];
        proof {
            lemma_keyed_at(self.sessions@, session_key_fn(), j as int);
        }
        let i = match self.find_machine(&entry.machine) {
            Some(i) => i,
            None => return Err(BreedingError::MachineNotFound),
        };
        let ctx = CancelBreeding { breeding_machine: self.machines[i], breed_data: entry.data, user_wallet: signer };
        let ops = cancel_breeding(&ctx)?;
        let ghost old_sessions = self.sessions@;
        proof {
            lemma_session_view_remove(self.sessions@, j as int);
            assert forall|k: MachineKey| #[trigger]
                count_open(old_sessions, k) == count_open(old_sessions.remove(j as int), k) + if k == entry.machine {
                    1nat
                } else {
                    0nat
                } by {
                lemma_count_remove(old_sessions, j as int, k);
            }
        }
        let _ = self.sessions.remove(j);
        proof {
            assert forall|a: int| 0 <= a < self.sessions@.len() implies has_key(
                self.machines@,
                machine_key_fn(),
                (#[trigger] self.sessions@[a]).machine,
            ) by {
                let a2 = if a < j { a } else { a + 1 };
                assert(self.sessions@[a] == old_sessions[a2]);
            }
        }
        Ok(ops)
    }

    /// Applies a partial configuration update to machine `machine`, signed
    /// by `signer`, who must be its operator. Counters never change.
    pub fn update_machine_config(&mut self, machine: MachineKey, signer: Pubkey, args: UpdateMachineConfigArgs) -> (r:
        Result<(), BreedingError>)
        requires
            old(self).wf(),
        ensures
            final(self).wf(),
            !old(self).machine_view().contains_key(machine) ==> r == Err::<(), BreedingError>(
                BreedingError::MachineNotFound,
            ),
            old(self).machine_view().contains_key(machine) && signer != old(self).machine_view()[machine].authority
                ==> r == Err::<(), BreedingError>(BreedingError::Unauthorized),
            old(self).machine_view().contains_key(machine) && signer == old(self).machine_view()[machine].authority
                ==> r is Ok,
            r is Err ==> *final(self) == *old(self),
            r is Ok ==> {
                let m = old(self).machine_view()[machine];
                &&& final(self).machine_view() == old(self).machine_view().insert(
                    machine,
                    (BreedMachine { config: updated_config(m.config, args), ..m }),
                )
                &&& final(self).session_view() == old(self).session_view()
                &&& forall|k: MachineKey| #[trigger] final(self).open_sessions(k) == old(self).open_sessions(k)
            },
    {
        let i = match self.find_machine(&machine) {
            Some(i) => i,
            None => return Err(BreedingError::MachineNotFound),
        };
        proof {
            lemma_keyed_at(self.machines@, machine_key_fn(), i as int);
        }
        let mut ctx = UpdateMachineConfig { breeding_machine: self.machines[i], authority: signer };
        update_machine_config(&mut ctx, args)?;
        let ghost old_machines = self.machines@;
        proof {
            lemma_keyed_update(self.machines@, machine_key_fn(), i as int, ctx.breeding_machine);
        }
        self.machines.set(i, ctx.breeding_machine);
        proof {
            assert forall|a: int| 0 <= a < self.sessions@.len() implies has_key(
                self.machines@,
                machine_key_fn(),
                (#[trigger] self.sessions@[a]).machine,
            ) by {
                lemma_has_machine_kept(old_machines, self.machines@, self.sessions@[a].machine);
            }
            assert forall|b: int| 0 <= b < self.machines@.len() implies (#[trigger] self.machines@[b]).bred == 2
                * self.machines@[b].born by {
                assert(machine_key(self.machines@[b]) == machine_key(old_machines[b]));
            }
        }
        Ok(())
    }
}

/// Counter invariant: in every well-formed registry, a machine's `bred`
/// (parent units consumed) is exactly twice its `born` (rewards issued),
/// since each finalized session consumes two parents and issues one reward,
/// and nothing else moves either counter. So `bred` is even and at least
/// twice `born`.
pub proof fn lemma_counter_invariant(r: &BreedingRegistry, k: MachineKey)
    requires
        r.wf(),
        r.machine_view().contains_key(k),
    ensures
        r.machine_view()[k].bred == 2 * r.machine_view()[k].born,
        r.machine_view()[k].bred % 2 == 0,
{
    let i = choose|i: int| 0 <= i < r.machines@.len() && #[trigger] machine_key_fn()(r.machines@[i]) == k;
    lemma_keyed_at(r.machines@, machine_key_fn(), i);
}

/// Counters against open sessions: for a machine with no session open,
/// `bred` equals twice `born` plus twice the sessions open under it.
pub proof fn lemma_counters_when_idle(r: &BreedingRegistry, k: MachineKey)
    requires
        r.wf(),
        r.machine_view().contains_key(k),
        r.open_sessions(k) == 0,
    ensures
        r.machine_view()[k].bred == 2 * r.machine_view()[k].born + 2 * r.open_sessions(k),
{
    lemma_counter_invariant(r, k);
}

/// Every open session runs under a machine that exists.
pub proof fn lemma_session_machine_exists(r: &BreedingRegistry, k: SessionKey)
    requires
        r.wf(),
        r.session_view().contains_key(k),
    ensures
        r.machine_view().contains_key(k.machine),
{
    let i = choose|i: int| 0 <= i < r.sessions@.len() && #[trigger] session_key_fn()(r.sessions@[i]) == k;
    lemma_keyed_at(r.sessions@, session_key_fn(), i);
    assert(has_key(r.machines@, machine_key_fn(), r.sessions@[i].machine));
}

} // verus!
