use std::collections::HashMap;

use breed_program::{
    cancel_breeding, create_machine, finalize_breeding, initialize_breeding, update_machine_config, Asset,
    BreedConfig, BreedData, BreedMachine, BreedingError, BreedingRegistry, CancelBreeding, Creator,
    FinalizeBreeding, Holder, InitializeBreed, InitializeBreedMachine, MachineKey, NftMetadata, Pubkey,
    SessionKey, TokenOp, UpdateMachineConfig, UpdateMachineConfigArgs,
};

fn key(b: u8) -> Pubkey {
    Pubkey::new_from_array([b; 32])
}

fn operator() -> Pubkey {
    key(1)
}

fn user() -> Pubkey {
    key(2)
}

fn family() -> Pubkey {
    key(3)
}

fn mint_a() -> Pubkey {
    key(10)
}

fn mint_b() -> Pubkey {
    key(11)
}

fn config(burn: bool) -> BreedConfig {
    BreedConfig {
        breeding_time: 100,
        burn_parents: burn,
        parents_candy_machine: family(),
        reward_candy_machine: key(4),
        initialization_fee_token: key(5),
        initialization_fee_price: 50,
        reward_supply: 1000,
    }
}

fn machine(burn: bool) -> BreedMachine {
    BreedMachine::new(operator(), config(burn))
}

fn metadata(mint: Pubkey, creators: Vec<Creator>) -> NftMetadata {
    NftMetadata { mint, creators: Some(creators) }
}

fn valid_metadata(mint: Pubkey) -> NftMetadata {
    metadata(
        mint,
        vec![Creator { address: key(9), verified: false }, Creator { address: family(), verified: true }],
    )
}

fn init_ctx(m: BreedMachine, balance: u64) -> InitializeBreed {
    InitializeBreed {
        breeding_machine: m,
        user_wallet: user(),
        mint_parent_a: mint_a(),
        metadata_parent_a: valid_metadata(mint_a()),
        mint_parent_b: mint_b(),
        metadata_parent_b: valid_metadata(mint_b()),
        fee_payer_balance: balance,
    }
}

fn session_record(start: i64) -> BreedData {
    BreedData::new(operator(), user(), mint_a(), mint_b(), start)
}

fn machine_key() -> MachineKey {
    MachineKey { parents_candy_machine: family(), reward_candy_machine: key(4), authority: operator() }
}

fn session_key() -> SessionKey {
    SessionKey { machine: machine_key(), mint_a: mint_a(), mint_b: mint_b() }
}

/// Plays token operations on balances and supplies, as the host ledger would.
#[derive(Default)]
struct TestLedger {
    balance: HashMap<(Holder, Asset), i128>,
    supply: HashMap<Asset, i128>,
}

impl TestLedger {
    fn bal(&self, h: Holder, a: Asset) -> i128 {
        *self.balance.get(&(h, a)).unwrap_or(&0)
    }

    fn sup(&self, a: Asset) -> i128 {
        *self.supply.get(&a).unwrap_or(&0)
    }

    fn apply(&mut self, ops: &[TokenOp]) {
        for op in ops {
            match *op {
                TokenOp::Transfer { asset, from, to, amount } => {
                    *self.balance.entry((from, asset)).or_insert(0) -= amount as i128;
                    *self.balance.entry((to, asset)).or_insert(0) += amount as i128;
                }
                TokenOp::Burn { asset, from, amount } => {
                    *self.balance.entry((from, asset)).or_insert(0) -= amount as i128;
                    *self.supply.entry(asset).or_insert(0) -= amount as i128;
                }
                TokenOp::MintTo { asset, to, amount } => {
                    *self.balance.entry((to, asset)).or_insert(0) += amount as i128;
                    *self.supply.entry(asset).or_insert(0) += amount as i128;
                }
                TokenOp::CloseAccount { .. } | TokenOp::RevokeMintAuthority { .. } => {}
            }
        }
    }

    fn funded() -> TestLedger {
        let mut l = TestLedger::default();
        l.apply(&[
            TokenOp::MintTo { asset: Asset::ParentA, to: Holder::Owner, amount: 1 },
            TokenOp::MintTo { asset: Asset::ParentB, to: Holder::Owner, amount: 1 },
            TokenOp::MintTo { asset: Asset::Fee, to: Holder::Owner, amount: 80 },
            TokenOp::MintTo { asset: Asset::Reward, to: Holder::Machine, amount: 10 },
        ]);
        l
    }
}

#[test]
fn pubkey_same_compares_every_byte() {
    let mut bytes = [7u8; 32];
    assert!(key(7).same(&Pubkey::new_from_array(bytes)));
    bytes[31] = 8;
    assert!(!key(7).same(&Pubkey::new_from_array(bytes)));
    bytes[31] = 7;
    bytes[0] = 0;
    assert!(!key(7).same(&Pubkey::new_from_array(bytes)));
}

#[test]
fn new_machine_starts_with_zero_counters() {
    let m = machine(true);
    assert_eq!(m.authority, operator());
    assert_eq!(m.bred, 0);
    assert_eq!(m.born, 0);
    assert_eq!(m.config, config(true));
}

#[test]
fn new_session_record_keeps_its_fields() {
    let d = session_record(1234);
    assert_eq!(d.owner, user());
    assert_eq!(d.authority, operator());
    assert_eq!(d.timestamp, 1234);
    assert_eq!(d.mint_a, mint_a());
    assert_eq!(d.mint_b, mint_b());
}

#[test]
fn create_machine_mints_supply_then_revokes_minting() {
    let ctx = InitializeBreedMachine { authority: operator() };
    let (m, ops) = create_machine(&ctx, config(false));
    assert_eq!(m, BreedMachine { authority: operator(), bred: 0, born: 0, config: config(false) });
    assert_eq!(
        ops,
        vec![
            TokenOp::MintTo { asset: Asset::Reward, to: Holder::Machine, amount: 1000 },
            TokenOp::RevokeMintAuthority { asset: Asset::Reward },
        ]
    );
    assert_eq!(ctx.mint_to_ctx(7), TokenOp::MintTo { asset: Asset::Reward, to: Holder::Machine, amount: 7 });
    assert_eq!(ctx.set_authority_ctx(), TokenOp::RevokeMintAuthority { asset: Asset::Reward });
}

#[test]
fn update_config_overwrites_present_fields_only() {
    let mut m = machine(false);
    m.bred = 6;
    m.born = 2;
    let mut ctx = UpdateMachineConfig { breeding_machine: m, authority: operator() };
    let args = UpdateMachineConfigArgs { breeding_time: Some(7), burn_parents: None, initialization_fee_price: Some(0) };
    assert_eq!(update_machine_config(&mut ctx, args), Ok(()));
    let c = ctx.breeding_machine.config;
    assert_eq!(c.breeding_time, 7);
    assert!(!c.burn_parents);
    assert_eq!(c.initialization_fee_price, 0);
    assert_eq!(c.reward_supply, 1000);
    assert_eq!(c.parents_candy_machine, family());
    assert_eq!(ctx.breeding_machine.bred, 6);
    assert_eq!(ctx.breeding_machine.born, 2);

    let all = UpdateMachineConfigArgs { breeding_time: None, burn_parents: Some(true), initialization_fee_price: None };
    assert_eq!(update_machine_config(&mut ctx, all), Ok(()));
    assert!(ctx.breeding_machine.config.burn_parents);
    assert_eq!(ctx.breeding_machine.config.breeding_time, 7);
}

#[test]
fn update_config_by_stranger_is_refused() {
    let mut ctx = UpdateMachineConfig { breeding_machine: machine(false), authority: user() };
    let before = ctx;
    let args = UpdateMachineConfigArgs { breeding_time: Some(1), burn_parents: Some(true), initialization_fee_price: None };
    assert_eq!(update_machine_config(&mut ctx, args), Err(BreedingError::Unauthorized));
    assert_eq!(ctx, before);
}

#[test]
fn validate_nfts_accepts_verified_family_claims() {
    assert_eq!(init_ctx(machine(false), 50).validate_nfts(), Ok(()));
}

#[test]
fn validate_nfts_rejects_unverified_claim() {
    let mut ctx = init_ctx(machine(false), 50);
    ctx.metadata_parent_b = metadata(mint_b(), vec![Creator { address: family(), verified: false }]);
    assert_eq!(ctx.validate_nfts(), Err(BreedingError::InvalidNftCollection));
}

#[test]
fn validate_nfts_rejects_other_family_and_missing_creators() {
    let mut ctx = init_ctx(machine(false), 50);
    ctx.metadata_parent_a = metadata(mint_a(), vec![Creator { address: key(42), verified: true }]);
    assert_eq!(ctx.validate_nfts(), Err(BreedingError::InvalidNftCollection));
    ctx.metadata_parent_a = NftMetadata { mint: mint_a(), creators: None };
    assert_eq!(ctx.validate_nfts(), Err(BreedingError::InvalidNftCollection));
    ctx.metadata_parent_a = metadata(mint_a(), vec![]);
    assert_eq!(ctx.validate_nfts(), Err(BreedingError::InvalidNftCollection));
}

#[test]
fn validate_nfts_rejects_metadata_of_another_mint() {
    let mut ctx = init_ctx(machine(false), 50);
    ctx.metadata_parent_a = valid_metadata(key(99));
    assert_eq!(ctx.validate_nfts(), Err(BreedingError::InvalidNftCollection));
}

#[test]
fn charge_token_fee_needs_the_full_amount() {
    let ctx = init_ctx(machine(false), 50);
    assert_eq!(
        ctx.charge_token_fee(50),
        Ok(TokenOp::Burn { asset: Asset::Fee, from: Holder::Owner, amount: 50 })
    );
    assert_eq!(ctx.charge_token_fee(51), Err(BreedingError::InsufficientFunds));
}

#[test]
fn lock_parents_moves_one_unit_of_each_into_custody() {
    let ctx = init_ctx(machine(false), 50);
    assert_eq!(
        ctx.lock_parents(),
        vec![
            TokenOp::Transfer { asset: Asset::ParentA, from: Holder::Owner, to: Holder::Session, amount: 1 },
            TokenOp::Transfer { asset: Asset::ParentB, from: Holder::Owner, to: Holder::Session, amount: 1 },
        ]
    );
}

#[test]
fn initialize_charges_and_locks() {
    let ctx = init_ctx(machine(false), 60);
    let (data, ops) = initialize_breeding(&ctx, 5000).unwrap();
    assert_eq!(data, session_record(5000));
    assert_eq!(
        ops,
        vec![
            TokenOp::Burn { asset: Asset::Fee, from: Holder::Owner, amount: 50 },
            TokenOp::Transfer { asset: Asset::ParentA, from: Holder::Owner, to: Holder::Session, amount: 1 },
            TokenOp::Transfer { asset: Asset::ParentB, from: Holder::Owner, to: Holder::Session, amount: 1 },
        ]
    );
    assert_eq!(ctx.breeding_machine.bred, 0);
    assert_eq!(ctx.breeding_machine.born, 0);
}

#[test]
fn initialize_with_invalid_collection_fails_before_any_transfer() {
    let mut ctx = init_ctx(machine(false), 60);
    ctx.metadata_parent_a = metadata(mint_a(), vec![Creator { address: key(42), verified: true }]);
    assert_eq!(initialize_breeding(&ctx, 5000), Err(BreedingError::InvalidNftCollection));
}

#[test]
fn invalid_collection_takes_precedence_over_missing_fee() {
    let mut ctx = init_ctx(machine(false), 0);
    ctx.metadata_parent_b = NftMetadata { mint: mint_b(), creators: None };
    assert_eq!(initialize_breeding(&ctx, 5000), Err(BreedingError::InvalidNftCollection));
}

#[test]
fn initialize_with_short_fee_balance_fails_before_any_lock() {
    let ctx = init_ctx(machine(false), 49);
    assert_eq!(initialize_breeding(&ctx, 5000), Err(BreedingError::InsufficientFunds));
    let ledger = TestLedger::funded();
    assert_eq!(ledger.bal(Holder::Owner, Asset::ParentA), 1);
    assert_eq!(ledger.bal(Holder::Owner, Asset::ParentB), 1);
}

#[test]
fn initialize_with_zero_fee_and_empty_balance_succeeds() {
    let mut m = machine(false);
    m.config.initialization_fee_price = 0;
    let ctx = init_ctx(m, 0);
    let (_, ops) = initialize_breeding(&ctx, 1).unwrap();
    assert_eq!(ops[0], TokenOp::Burn { asset: Asset::Fee, from: Holder::Owner, amount: 0 });
}

#[test]
fn initialize_at_counter_ceiling_still_opens() {
    let mut m = machine(false);
    m.bred = u64::MAX;
    m.born = u64::MAX;
    let ctx = init_ctx(m, 60);
    assert!(initialize_breeding(&ctx, 1).is_ok());
}

#[test]
fn finalize_at_bred_ceiling_is_an_arithmetic_error() {
    let mut m = machine(true);
    m.bred = u64::MAX - 1;
    let mut ctx = FinalizeBreeding { breeding_machine: m, breed_data: session_record(0), user_wallet: user() };
    assert_eq!(finalize_breeding(&mut ctx, 1000), Err(BreedingError::ArithmeticError));
    assert_eq!(ctx.breeding_machine.bred, u64::MAX - 1);
    let mut m = machine(true);
    m.bred = u64::MAX - 2;
    let mut ctx = FinalizeBreeding { breeding_machine: m, breed_data: session_record(0), user_wallet: user() };
    assert!(finalize_breeding(&mut ctx, 1000).is_ok());
    assert_eq!(ctx.breeding_machine.bred, u64::MAX);
    assert_eq!(ctx.breeding_machine.born, 1);
}

#[test]
fn finalize_before_cooldown_is_still_in_progress() {
    let mut ctx = FinalizeBreeding { breeding_machine: machine(true), breed_data: session_record(1000), user_wallet: user() };
    let before = ctx;
    assert_eq!(finalize_breeding(&mut ctx, 1099), Err(BreedingError::StillInProgress));
    assert_eq!(finalize_breeding(&mut ctx, -5), Err(BreedingError::StillInProgress));
    assert_eq!(ctx, before);
}

#[test]
fn finalize_at_end_of_cooldown_succeeds() {
    let mut ctx = FinalizeBreeding { breeding_machine: machine(true), breed_data: session_record(1000), user_wallet: user() };
    assert!(finalize_breeding(&mut ctx, 1100).is_ok());
    assert_eq!(ctx.breeding_machine.born, 1);
    assert_eq!(ctx.breeding_machine.bred, 2);
}

#[test]
fn finalize_with_extreme_times_does_not_overflow() {
    let mut m = machine(true);
    m.config.breeding_time = u64::MAX;
    let mut ctx = FinalizeBreeding { breeding_machine: m, breed_data: session_record(i64::MAX), user_wallet: user() };
    assert_eq!(finalize_breeding(&mut ctx, i64::MAX), Err(BreedingError::StillInProgress));
    let mut m = machine(true);
    m.config.breeding_time = 0;
    let mut ctx = FinalizeBreeding { breeding_machine: m, breed_data: session_record(i64::MIN), user_wallet: user() };
    assert!(finalize_breeding(&mut ctx, i64::MIN).is_ok());
}

#[test]
fn finalize_with_burn_policy_burns_then_closes_then_rewards() {
    let mut ctx = FinalizeBreeding { breeding_machine: machine(true), breed_data: session_record(0), user_wallet: user() };
    let ops = finalize_breeding(&mut ctx, 100).unwrap();
    assert_eq!(
        ops,
        vec![
            TokenOp::Burn { asset: Asset::ParentA, from: Holder::Session, amount: 1 },
            TokenOp::Burn { asset: Asset::ParentB, from: Holder::Session, amount: 1 },
            TokenOp::CloseAccount { asset: Asset::ParentA, holder: Holder::Session },
            TokenOp::CloseAccount { asset: Asset::ParentB, holder: Holder::Session },
            TokenOp::Transfer { asset: Asset::Reward, from: Holder::Machine, to: Holder::Owner, amount: 1 },
        ]
    );
}

#[test]
fn finalize_with_return_policy_returns_the_parents() {
    let ctx = FinalizeBreeding { breeding_machine: machine(false), breed_data: session_record(0), user_wallet: user() };
    assert_eq!(
        ctx.unlock_parents(),
        vec![
            TokenOp::Transfer { asset: Asset::ParentA, from: Holder::Session, to: Holder::Owner, amount: 1 },
            TokenOp::Transfer { asset: Asset::ParentB, from: Holder::Session, to: Holder::Owner, amount: 1 },
            TokenOp::CloseAccount { asset: Asset::ParentA, holder: Holder::Session },
            TokenOp::CloseAccount { asset: Asset::ParentB, holder: Holder::Session },
        ]
    );
    assert_eq!(
        ctx.transfer_ctx(),
        TokenOp::Transfer { asset: Asset::Reward, from: Holder::Machine, to: Holder::Owner, amount: 1 }
    );
}

#[test]
fn release_policy_on_balances_and_supply() {
    for burn in [true, false] {
        let mut ledger = TestLedger::funded();
        let open = init_ctx(machine(burn), 80);
        let (data, ops) = initialize_breeding(&open, 0).unwrap();
        ledger.apply(&ops);
        let (owner_a, owner_b) = (ledger.bal(Holder::Owner, Asset::ParentA), ledger.bal(Holder::Owner, Asset::ParentB));
        let (sup_a, sup_b) = (ledger.sup(Asset::ParentA), ledger.sup(Asset::ParentB));
        let mut fin = FinalizeBreeding { breeding_machine: open.breeding_machine, breed_data: data, user_wallet: user() };
        ledger.apply(&finalize_breeding(&mut fin, 100).unwrap());
        if burn {
            assert_eq!(ledger.sup(Asset::ParentA) + ledger.sup(Asset::ParentB), sup_a + sup_b - 2);
            assert_eq!(ledger.bal(Holder::Owner, Asset::ParentA), owner_a);
            assert_eq!(ledger.bal(Holder::Owner, Asset::ParentB), owner_b);
        } else {
            assert_eq!(ledger.sup(Asset::ParentA), sup_a);
            assert_eq!(ledger.sup(Asset::ParentB), sup_b);
            assert_eq!(ledger.bal(Holder::Owner, Asset::ParentA), owner_a + 1);
            assert_eq!(ledger.bal(Holder::Owner, Asset::ParentB), owner_b + 1);
        }
        assert_eq!(ledger.bal(Holder::Session, Asset::ParentA), 0);
        assert_eq!(ledger.bal(Holder::Session, Asset::ParentB), 0);
        assert_eq!(ledger.bal(Holder::Owner, Asset::Reward), 1);
        assert_eq!(ledger.bal(Holder::Machine, Asset::Reward), 9);
    }
}

#[test]
fn finalize_by_stranger_is_refused() {
    let mut ctx = FinalizeBreeding { breeding_machine: machine(true), breed_data: session_record(0), user_wallet: key(77) };
    assert_eq!(finalize_breeding(&mut ctx, 1000), Err(BreedingError::Unauthorized));
}

#[test]
fn finalize_at_born_ceiling_is_an_arithmetic_error() {
    let mut m = machine(true);
    m.born = u64::MAX;
    let mut ctx = FinalizeBreeding { breeding_machine: m, breed_data: session_record(0), user_wallet: user() };
    assert_eq!(finalize_breeding(&mut ctx, 1000), Err(BreedingError::ArithmeticError));
    assert_eq!(ctx.breeding_machine.born, u64::MAX);
}

#[test]
fn cancel_returns_parents_even_under_burn_policy() {
    let ctx = CancelBreeding { breeding_machine: machine(true), breed_data: session_record(0), user_wallet: user() };
    let expected = vec![
        TokenOp::Transfer { asset: Asset::ParentA, from: Holder::Session, to: Holder::Owner, amount: 1 },
        TokenOp::Transfer { asset: Asset::ParentB, from: Holder::Session, to: Holder::Owner, amount: 1 },
        TokenOp::CloseAccount { asset: Asset::ParentA, holder: Holder::Session },
        TokenOp::CloseAccount { asset: Asset::ParentB, holder: Holder::Session },
    ];
    assert_eq!(ctx.unlock_parents(), expected);
    assert_eq!(cancel_breeding(&ctx), Ok(expected));
}

#[test]
fn cancel_by_stranger_is_refused() {
    let ctx = CancelBreeding { breeding_machine: machine(true), breed_data: session_record(0), user_wallet: key(77) };
    assert_eq!(cancel_breeding(&ctx), Err(BreedingError::Unauthorized));
}

#[test]
fn cancel_round_trip_restores_balances_but_the_fee() {
    let mut ledger = TestLedger::funded();
    let before = ledger.balance.clone();
    let mut m = machine(true);
    m.bred = 8;
    m.born = 4;
    let open = init_ctx(m, 80);
    let (data, ops) = initialize_breeding(&open, 0).unwrap();
    ledger.apply(&ops);
    let cancel = CancelBreeding { breeding_machine: open.breeding_machine, breed_data: data, user_wallet: user() };
    ledger.apply(&cancel_breeding(&cancel).unwrap());
    assert_eq!(cancel.breeding_machine, m);
    for (k, v) in before.iter() {
        if *k == (Holder::Owner, Asset::Fee) {
            assert_eq!(ledger.bal(k.0, k.1), v - 50);
        } else {
            assert_eq!(ledger.bal(k.0, k.1), *v);
        }
    }
    assert_eq!(ledger.bal(Holder::Session, Asset::ParentA), 0);
    assert_eq!(ledger.bal(Holder::Session, Asset::ParentB), 0);
    assert_eq!(ledger.sup(Asset::ParentA), 1);
    assert_eq!(ledger.sup(Asset::Fee), 30);
}

fn registry_with_machine(burn: bool) -> BreedingRegistry {
    let mut r = BreedingRegistry::new();
    let ops = r.create_machine(operator(), config(burn)).unwrap();
    assert_eq!(ops.len(), 2);
    r
}

fn open_in(r: &mut BreedingRegistry, a: Pubkey, b: Pubkey, now: i64) -> Result<Vec<TokenOp>, BreedingError> {
    r.initialize_breeding(machine_key(), user(), a, valid_metadata(a), b, valid_metadata(b), 100, now)
}

#[test]
fn registry_refuses_second_machine_under_same_key() {
    let mut r = registry_with_machine(false);
    assert_eq!(r.create_machine(operator(), config(true)), Err(BreedingError::MachineAlreadyExists));
    assert_eq!(r.machine(machine_key()), Some(machine(false)));
    let other = BreedConfig { reward_candy_machine: key(44), ..config(false) };
    assert!(r.create_machine(operator(), other).is_ok());
}

#[test]
fn registry_second_open_of_same_pair_collides() {
    let mut r = registry_with_machine(false);
    assert!(open_in(&mut r, mint_a(), mint_b(), 10).is_ok());
    assert_eq!(open_in(&mut r, mint_a(), mint_b(), 20), Err(BreedingError::SessionAlreadyOpen));
    let empty_wallet = r.initialize_breeding(
        machine_key(),
        user(),
        mint_a(),
        valid_metadata(mint_a()),
        mint_b(),
        NftMetadata { mint: mint_b(), creators: None },
        0,
        30,
    );
    assert_eq!(empty_wallet, Err(BreedingError::SessionAlreadyOpen));
    assert_eq!(r.session(session_key()), Some(session_record(10)));
    assert_eq!(r.open_session_count(machine_key()), 1);
}

#[test]
fn registry_pair_can_reopen_after_cancel() {
    let mut r = registry_with_machine(false);
    assert!(open_in(&mut r, mint_a(), mint_b(), 10).is_ok());
    assert!(r.cancel_breeding(session_key(), user()).is_ok());
    assert_eq!(r.session(session_key()), None);
    assert!(open_in(&mut r, mint_a(), mint_b(), 20).is_ok());
    assert_eq!(r.session(session_key()), Some(session_record(20)));
}

#[test]
fn registry_counters_follow_finalized_sessions() {
    let mut r = registry_with_machine(true);
    let c = key(12);
    let d = key(13);
    assert!(open_in(&mut r, mint_a(), mint_b(), 0).is_ok());
    assert!(open_in(&mut r, c, d, 0).is_ok());
    let m = r.machine(machine_key()).unwrap();
    assert_eq!((m.bred, m.born), (0, 0));
    assert_eq!(r.open_session_count(machine_key()), 2);
    assert!(r.finalize_breeding(session_key(), user(), 100).is_ok());
    let m = r.machine(machine_key()).unwrap();
    assert_eq!((m.bred, m.born), (2, 1));
    assert_eq!(r.open_session_count(machine_key()), 1);
    let second = SessionKey { machine: machine_key(), mint_a: c, mint_b: d };
    assert!(r.finalize_breeding(second, user(), 100).is_ok());
    let m = r.machine(machine_key()).unwrap();
    assert_eq!((m.bred, m.born), (4, 2));
    assert_eq!(r.open_session_count(machine_key()), 0);
    assert_eq!(m.bred, 2 * m.born + 2 * r.open_session_count(machine_key()) as u64);
}

#[test]
fn registry_cancel_leaves_counters_untouched() {
    let mut r = registry_with_machine(true);
    let before = r.machine(machine_key()).unwrap();
    assert!(open_in(&mut r, mint_a(), mint_b(), 0).is_ok());
    assert_eq!(r.machine(machine_key()), Some(before));
    let ops = r.cancel_breeding(session_key(), user()).unwrap();
    assert_eq!(ops[0], TokenOp::Transfer { asset: Asset::ParentA, from: Holder::Session, to: Holder::Owner, amount: 1 });
    assert_eq!(r.machine(machine_key()), Some(before));
    assert_eq!((before.bred, before.born), (0, 0));
    assert_eq!(r.open_session_count(machine_key()), 0);
}

#[test]
fn registry_finalize_checks_owner_and_cooldown() {
    let mut r = registry_with_machine(false);
    assert!(open_in(&mut r, mint_a(), mint_b(), 1000).is_ok());
    assert_eq!(r.finalize_breeding(session_key(), key(77), 5000), Err(BreedingError::Unauthorized));
    assert_eq!(r.finalize_breeding(session_key(), user(), 1099), Err(BreedingError::StillInProgress));
    assert_eq!(r.cancel_breeding(session_key(), key(77)), Err(BreedingError::Unauthorized));
    assert_eq!(r.session(session_key()), Some(session_record(1000)));
    let ops = r.finalize_breeding(session_key(), user(), 1100).unwrap();
    assert_eq!(ops.len(), 5);
    assert_eq!(r.finalize_breeding(session_key(), user(), 1200), Err(BreedingError::SessionNotFound));
    assert_eq!(r.cancel_breeding(session_key(), user()), Err(BreedingError::SessionNotFound));
}

#[test]
fn registry_unknown_machine_is_reported() {
    let mut r = BreedingRegistry::new();
    assert_eq!(open_in(&mut r, mint_a(), mint_b(), 0), Err(BreedingError::MachineNotFound));
    let args = UpdateMachineConfigArgs { breeding_time: Some(1), burn_parents: None, initialization_fee_price: None };
    assert_eq!(r.update_machine_config(machine_key(), operator(), args), Err(BreedingError::MachineNotFound));
    assert_eq!(r.machine(machine_key()), None);
}

#[test]
fn registry_update_uses_new_cooldown_for_open_sessions() {
    let mut r = registry_with_machine(false);
    assert!(open_in(&mut r, mint_a(), mint_b(), 0).is_ok());
    let args = UpdateMachineConfigArgs { breeding_time: Some(500), burn_parents: Some(true), initialization_fee_price: None };
    assert_eq!(r.update_machine_config(machine_key(), user(), args), Err(BreedingError::Unauthorized));
    assert_eq!(r.update_machine_config(machine_key(), operator(), args), Ok(()));
    assert_eq!(r.finalize_breeding(session_key(), user(), 499), Err(BreedingError::StillInProgress));
    let ops = r.finalize_breeding(session_key(), user(), 500).unwrap();
    assert_eq!(ops[0], TokenOp::Burn { asset: Asset::ParentA, from: Holder::Session, amount: 1 });
    assert_eq!(r.machine(machine_key()).unwrap().config.breeding_time, 500);
}

#[test]
fn registry_failed_open_changes_nothing() {
    let mut r = registry_with_machine(false);
    let short = r.initialize_breeding(
        machine_key(),
        user(),
        mint_a(),
        valid_metadata(mint_a()),
        mint_b(),
        valid_metadata(mint_b()),
        10,
        0,
    );
    assert_eq!(short, Err(BreedingError::InsufficientFunds));
    let invalid = r.initialize_breeding(
        machine_key(),
        user(),
        mint_a(),
        valid_metadata(mint_a()),
        mint_b(),
        metadata(mint_b(), vec![Creator { address: key(42), verified: true }]),
        100,
        0,
    );
    assert_eq!(invalid, Err(BreedingError::InvalidNftCollection));
    assert_eq!(r.session(session_key()), None);
    assert_eq!(r.machine(machine_key()).unwrap().bred, 0);
    assert_eq!(r.open_session_count(machine_key()), 0);
}
