use vstd::prelude::*;

use crate::key::Pubkey;
use crate::ops::{
    cancel_ops, close_ops, create_machine_ops, fee_op, finalize_ops, initialize_ops, lock_ops, mint_supply_op,
    release_ops, revoke_op, reward_op, unlock_ops, Asset, Holder, TokenOp,
};
use crate::state::{BreedConfig, BreedData, BreedMachine, BreedingError, Creator, NftMetadata, UpdateMachineConfigArgs};

verus! {

/// Some entry names `family` and is verified.
pub open spec fn lists_verified(cs: Seq<Creator>, family: Pubkey) -> bool {
    exists|i: int| 0 <= i < cs.len() && (#[trigger] cs[i]).address == family && cs[i].verified
}

/// The metadata lists `family` among its creators with the verified flag set.
pub open spec fn has_verified_creator(creators: Option<Vec<Creator>>, family: Pubkey) -> bool {
    match creators {
        Some(cs) => lists_verified(cs@, family),
        None => false,
    }
}

/// The metadata describes `mint` and carries a verified claim of `family`.
pub open spec fn claims_family(meta: NftMetadata, mint: Pubkey, family: Pubkey) -> bool {
    meta.mint == mint && has_verified_creator(meta.creators, family)
}

/// Ledger time has reached the end of the cooldown.
pub open spec fn cooldown_elapsed(start: i64, breeding_time: u64, now: i64) -> bool {
    now as int >= start as int + breeding_time as int
}

/// The policy after a partial update: present fields overwrite, absent ones stay.
pub open spec fn updated_config(c: BreedConfig, args: UpdateMachineConfigArgs) -> BreedConfig {
    BreedConfig {
        breeding_time: match args.breeding_time {
            Some(t) => t,
            None => c.breeding_time,
        },
        burn_parents: match args.burn_parents {
            Some(b) => b,
            None => c.burn_parents,
        },
        initialization_fee_price: match args.initialization_fee_price {
            Some(p) => p,
            None => c.initialization_fee_price,
        },
        ..c
    }
}

/// Inputs of machine creation: the operator that creates it.
#[derive(Clone, Copy, Debug, PartialEq, Eq)]
pub struct InitializeBreedMachine {
    pub authority: Pubkey,
}

impl InitializeBreedMachine {
    /// Minting `amount` reward units into the machine's pool.
    pub fn mint_to_ctx(&self, amount: u64) -> (r: TokenOp)
        ensures
            r == mint_supply_op(amount),
    {
        TokenOp::MintTo { asset: Asset::Reward, to: Holder::Machine, amount }
    }

    /// Giving up the authority to mint the reward token.
    pub fn set_authority_ctx(&self) -> (r: TokenOp)
        ensures
            r == revoke_op(),
    {
        TokenOp::RevokeMintAuthority { asset: Asset::Reward }
    }
}

/// Creates a machine with zeroed counters, owned by the signing operator,
/// together with the operations that fix its reward pool.
pub fn create_machine(ctx: &InitializeBreedMachine, config: BreedConfig) -> (r: (BreedMachine, Vec<TokenOp>))
    ensures
        r.0 == (BreedMachine { authority: ctx.authority, bred: 0, born: 0, config }),
        r.1@ == create_machine_ops(config.reward_supply),
{
    let machine = BreedMachine::new(ctx.authority, config);
    let mut ops: Vec<TokenOp> = Vec::new();
    ops.push(ctx.mint_to_ctx(config.reward_supply));
    ops.push(ctx.set_authority_ctx());
    assert(ops@ =~= create_machine_ops(config.reward_supply));
    (machine, ops)
}

/// Inputs of a configuration update: the machine and the signer.
#[derive(Clone, Copy, Debug, PartialEq, Eq)]
pub struct UpdateMachineConfig {
    pub breeding_machine: BreedMachine,
    pub authority: Pubkey,
}

/// Overwrites the configuration fields present in `args`; only the
/// machine's operator may do so. Counters are never touched.
pub fn update_machine_config(ctx: &mut UpdateMachineConfig, args: UpdateMachineConfigArgs) -> (r: Result<
    (),
    BreedingError,
>)
    ensures
        old(ctx).authority != old(ctx).breeding_machine.authority ==> r == Err::<(), BreedingError>(
            BreedingError::Unauthorized,
        ) && *final(ctx) == *old(ctx),
        old(ctx).authority == old(ctx).breeding_machine.authority ==> r is Ok && *final(ctx) == (
        UpdateMachineConfig {
            breeding_machine: BreedMachine {
                config: updated_config(old(ctx).breeding_machine.config, args),
                ..old(ctx).breeding_machine
            },
            ..*old(ctx)
        }),
{
    if !ctx.authority.same(&ctx.breeding_machine.authority) {
        return Err(BreedingError::Unauthorized);
    }
    let mut config = ctx.breeding_machine.config;
    config.breeding_time = match args.breeding_time {
        Some(t) => t,
        None => config.breeding_time,
    };
    config.initialization_fee_price = match args.initialization_fee_price {
        Some(p) => p,
        None => config.initialization_fee_price,
    };
    config.burn_parents = match args.burn_parents {
        Some(b) => b,
        None => config.burn_parents,
    };
    ctx.breeding_machine.config = config;
    Ok(())
}

/// Checks that the metadata lists `creator_address` as a verified creator.
fn verify_creator(metadata: &NftMetadata, creator_address: Pubkey) -> (r: Result<(), BreedingError>)
    ensures
        r == if has_verified_creator(metadata.creators, creator_address) {
            Ok::<(), BreedingError>(())
        } else {
            Err(BreedingError::InvalidNftCollection)
        },
{
    match &metadata.creators {
        None => Err(BreedingError::InvalidNftCollection),
        Some(cs) => {
            let mut i: usize = 0;
            while i < cs.len()
                invariant
                    i <= cs@.len(),
                    metadata.creators == Some(*cs),
                    forall|j: int|
                        0 <= j < i ==> !((#[trigger] cs@[j]).address == creator_address && cs@[j].verified),
                decreases cs.len() - i,
            {
                if cs[i].verified && cs[i].address.same(&creator_address) {
                    assert(lists_verified(cs@, creator_address)) by {
                        assert(cs@[i as int].address == creator_address && cs@[i as int].verified);
                    }
                    return Ok(());
                }
                i += 1;
            }
            Err(BreedingError::InvalidNftCollection)
        },
    }
}

/// Inputs of opening a session, as read from the ledger: the machine, the
/// initiator, both parents with their metadata, and the initiator's balance
/// of the machine's fee token.
#[derive(Clone, Debug, PartialEq, Eq)]
pub struct InitializeBreed {
    pub breeding_machine: BreedMachine,
    pub user_wallet: Pubkey,
    pub mint_parent_a: Pubkey,
    pub metadata_parent_a: NftMetadata,
    pub mint_parent_b: Pubkey,
    pub metadata_parent_b: NftMetadata,
    pub fee_payer_balance: u64,
}

impl InitializeBreed {
    /// Both parents belong to the machine's approved parent family.
    pub open spec fn nfts_valid(&self) -> bool {
        &&& claims_family(self.metadata_parent_a, self.mint_parent_a, self.breeding_machine.config.parents_candy_machine)
        &&& claims_family(self.metadata_parent_b, self.mint_parent_b, self.breeding_machine.config.parents_candy_machine)
    }

    /// Checks each parent's metadata against the machine's parent family.
    pub fn validate_nfts(&self) -> (r: Result<(), BreedingError>)
        ensures
            r == if self.nfts_valid() {
                Ok::<(), BreedingError>(())
            } else {
                Err(BreedingError::InvalidNftCollection)
            },
    {
        let family = self.breeding_machine.config.parents_candy_machine;
        if !self.metadata_parent_a.mint.same(&self.mint_parent_a) {
            return Err(BreedingError::InvalidNftCollection);
        }
        verify_creator(&self.metadata_parent_a, family)?;
        if !self.metadata_parent_b.mint.same(&self.mint_parent_b) {
            return Err(BreedingError::InvalidNftCollection);
        }
        verify_creator(&self.metadata_parent_b, family)?;
        Ok(())
    }

    /// The fee burn, provided the payer holds at least `amount`.
    pub fn charge_token_fee(&self, amount: u64) -> (r: Result<TokenOp, BreedingError>)
        ensures
            self.fee_payer_balance < amount ==> r == Err::<TokenOp, BreedingError>(BreedingError::InsufficientFunds),
            self.fee_payer_balance >= amount ==> r == Ok::<TokenOp, BreedingError>(fee_op(amount)),
    {
        if self.fee_payer_balance < amount {
            return Err(BreedingError::InsufficientFunds);
        }
        Ok(TokenOp::Burn { asset: Asset::Fee, from: Holder::Owner, amount })
    }

    /// Moving one unit of each parent into the session's vaults.
    pub fn lock_parents(&self) -> (r: Vec<TokenOp>)
        ensures
            r@ == lock_ops(),
    {
        let mut ops: Vec<TokenOp> = Vec::new();
        ops.push(TokenOp::Transfer { asset: Asset::ParentA, from: Holder::Owner, to: Holder::Session, amount: 1 });
        ops.push(TokenOp::Transfer { asset: Asset::ParentB, from: Holder::Owner, to: Holder::Session, amount: 1 });
        assert(ops@ =~= lock_ops());
        ops
    }
}

/// Opens a session at ledger time `now`: validates both parents, charges
/// the fee, records the session and locks both parents. The machine's
/// counters are not touched here: parents count as consumed only when the
/// session is finalized. Each failure asks for nothing.
pub fn initialize_breeding(ctx: &InitializeBreed, now: i64) -> (r: Result<
    (BreedData, Vec<TokenOp>),
    BreedingError,
>)
    ensures
        !ctx.nfts_valid() ==> r == Err::<(BreedData, Vec<TokenOp>), BreedingError>(
            BreedingError::InvalidNftCollection,
        ),
        ctx.nfts_valid() && ctx.fee_payer_balance < ctx.breeding_machine.config.initialization_fee_price ==> r
            == Err::<(BreedData, Vec<TokenOp>), BreedingError>(BreedingError::InsufficientFunds),
        ctx.nfts_valid() && ctx.fee_payer_balance >= ctx.breeding_machine.config.initialization_fee_price ==> r is Ok,
        r matches Ok((data, ops)) ==> {
            &&& data == (BreedData {
                owner: ctx.user_wallet,
                authority: ctx.breeding_machine.authority,
                timestamp: now,
                mint_a: ctx.mint_parent_a,
                mint_b: ctx.mint_parent_b,
            })
            &&& ops@ == initialize_ops(ctx.breeding_machine.config.initialization_fee_price)
        },
{
    ctx.validate_nfts()?;
    let fee = ctx.charge_token_fee(ctx.breeding_machine.config.initialization_fee_price)?;
    let data = BreedData::new(
        ctx.breeding_machine.authority,
        ctx.user_wallet,
        ctx.mint_parent_a,
        ctx.mint_parent_b,
        now,
    );
    let mut ops: Vec<TokenOp> = Vec::new();
    ops.push(fee);
    let mut locks = ctx.lock_parents();
    ops.append(&mut locks);
    assert(ops@ =~= initialize_ops(ctx.breeding_machine.config.initialization_fee_price));
    Ok((data, ops))
}

/// Both vaults of a session closed, rent going back through the session.
fn close_parent_vaults() -> (r: Vec<TokenOp>)
    ensures
        r@ == close_ops(),
{
    let mut ops: Vec<TokenOp> = Vec::new();
    ops.push(TokenOp::CloseAccount { asset: Asset::ParentA, holder: Holder::Session });
    ops.push(TokenOp::CloseAccount { asset: Asset::ParentB, holder: Holder::Session });
    assert(ops@ =~= close_ops());
    ops
}

/// Both vaults emptied back into the owner's accounts.
fn return_parents() -> (r: Vec<TokenOp>)
    ensures
        r@ == release_ops(false),
{
    let mut ops: Vec<TokenOp> = Vec::new();
    ops.push(TokenOp::Transfer { asset: Asset::ParentA, from: Holder::Session, to: Holder::Owner, amount: 1 });
    ops.push(TokenOp::Transfer { asset: Asset::ParentB, from: Holder::Session, to: Holder::Owner, amount: 1 });
    assert(ops@ =~= release_ops(false));
    ops
}

/// Both vaults emptied by burning their units.
fn burn_parents() -> (r: Vec<TokenOp>)
    ensures
        r@ == release_ops(true),
{
    let mut ops: Vec<TokenOp> = Vec::new();
    ops.push(TokenOp::Burn { asset: Asset::ParentA, from: Holder::Session, amount: 1 });
    ops.push(TokenOp::Burn { asset: Asset::ParentB, from: Holder::Session, amount: 1 });
    assert(ops@ =~= release_ops(true));
    ops
}

/// Inputs of finalizing a session: its machine, its record and the signer.
#[derive(Clone, Copy, Debug, PartialEq, Eq)]
pub struct FinalizeBreeding {
    pub breeding_machine: BreedMachine,
    pub breed_data: BreedData,
    pub user_wallet: Pubkey,
}

impl FinalizeBreeding {
    /// Empties both vaults as the machine's policy says (burn or return),
    /// then closes them.
    pub fn unlock_parents(&self) -> (r: Vec<TokenOp>)
        ensures
            r@ == unlock_ops(self.breeding_machine.config.burn_parents),
    {
        let mut ops = if self.breeding_machine.config.burn_parents {
            burn_parents()
        } else {
            return_parents()
        };
        let mut closes = close_parent_vaults();
        ops.append(&mut closes);
        ops
    }

    /// One reward unit from the machine's pool to the owner.
    pub fn transfer_ctx(&self) -> (r: TokenOp)
        ensures
            r == reward_op(),
    {
        TokenOp::Transfer { asset: Asset::Reward, from: Holder::Machine, to: Holder::Owner, amount: 1 }
    }
}

/// The counters fit one more finalized session: two more parent units
/// consumed and one more reward issued.
pub open spec fn counters_fit(m: BreedMachine) -> bool {
    m.bred + 2 <= u64::MAX && m.born + 1 <= u64::MAX
}

/// Ends a session at ledger time `now` once its cooldown has elapsed:
/// releases the parents by the machine's policy, issues one reward, and
/// counts the two consumed parent units and the reward. Only the session's
/// owner may finalize it; each failure leaves the machine unchanged.
pub fn finalize_breeding(ctx: &mut FinalizeBreeding, now: i64) -> (r: Result<Vec<TokenOp>, BreedingError>)
    ensures
        old(ctx).user_wallet != old(ctx).breed_data.owner ==> r == Err::<Vec<TokenOp>, BreedingError>(
            BreedingError::Unauthorized,
        ),
        old(ctx).user_wallet == old(ctx).breed_data.owner && !cooldown_elapsed(
            old(ctx).breed_data.timestamp,
            old(ctx).breeding_machine.config.breeding_time,
            now,
        ) ==> r == Err::<Vec<TokenOp>, BreedingError>(BreedingError::StillInProgress),
        old(ctx).user_wallet == old(ctx).breed_data.owner && cooldown_elapsed(
            old(ctx).breed_data.timestamp,
            old(ctx).breeding_machine.config.breeding_time,
            now,
        ) && !counters_fit(old(ctx).breeding_machine) ==> r == Err::<Vec<TokenOp>, BreedingError>(
            BreedingError::ArithmeticError,
        ),
        old(ctx).user_wallet == old(ctx).breed_data.owner && cooldown_elapsed(
            old(ctx).breed_data.timestamp,
            old(ctx).breeding_machine.config.breeding_time,
            now,
        ) && counters_fit(old(ctx).breeding_machine) ==> r is Ok,
        r is Err ==> *final(ctx) == *old(ctx),
        r matches Ok(ops) ==> {
            &&& ops@ == finalize_ops(old(ctx).breeding_machine.config.burn_parents)
            &&& *final(ctx) == (FinalizeBreeding {
                breeding_machine: BreedMachine {
                    bred: (old(ctx).breeding_machine.bred + 2) as u64,
                    born: (old(ctx).breeding_machine.born + 1) as u64,
                    ..old(ctx).breeding_machine
                },
                ..*old(ctx)
            })
        },
{
    if !ctx.user_wallet.same(&ctx.breed_data.owner) {
        return Err(BreedingError::Unauthorized);
    }
    let start = ctx.breed_data.timestamp as i128;
    let cooldown = ctx.breeding_machine.config.breeding_time as i128;
    if (now as i128) < start + cooldown {
        return Err(BreedingError::StillInProgress);
    }
    let bred = match ctx.breeding_machine.bred.checked_add(2) {
        Some(b) => b,
        None => return Err(BreedingError::ArithmeticError),
    };
    let born = match ctx.breeding_machine.born.checked_add(1) {
        Some(b) => b,
        None => return Err(BreedingError::ArithmeticError),
    };
    let mut ops = ctx.unlock_parents();
    ops.push(ctx.transfer_ctx());
    ctx.breeding_machine.bred = bred;
    ctx.breeding_machine.born = born;
    Ok(ops)
}

/// Inputs of cancelling a session: its machine, its record and the signer.
#[derive(Clone, Copy, Debug, PartialEq, Eq)]
pub struct CancelBreeding {
    pub breeding_machine: BreedMachine,
    pub breed_data: BreedData,
    pub user_wallet: Pubkey,
}

impl CancelBreeding {
    /// Hands both parents back to the owner and closes the vaults,
    /// whatever the burn policy.
    pub fn unlock_parents(&self) -> (r: Vec<TokenOp>)
        ensures
            r@ == cancel_ops(),
    {
        let mut ops = return_parents();
        let mut closes = close_parent_vaults();
        ops.append(&mut closes);
        ops
    }
}

/// Ends a session early, at any time: the parents go back to the owner, no
/// reward is issued and the machine's counters stay as they are. Only the
/// session's owner may cancel it.
pub fn cancel_breeding(ctx: &CancelBreeding) -> (r: Result<Vec<TokenOp>, BreedingError>)
    ensures
        ctx.user_wallet != ctx.breed_data.owner ==> r == Err::<Vec<TokenOp>, BreedingError>(
            BreedingError::Unauthorized,
        ),
        ctx.user_wallet == ctx.breed_data.owner ==> (r matches Ok(ops) && ops@ == cancel_ops()),
{
    if !ctx.user_wallet.same(&ctx.breed_data.owner) {
        return Err(BreedingError::Unauthorized);
    }
    Ok(ctx.unlock_parents())
}

} // verus!
