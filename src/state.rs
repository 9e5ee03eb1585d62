use vstd::prelude::*;

use crate::key::Pubkey;

verus! {

/// Policy block of a breeding machine.
#[derive(Clone, Copy, Debug, PartialEq, Eq)]
pub struct BreedConfig {
    /// Seconds a session must run before it can be finalized.
    pub breeding_time: u64,
    /// Whether the parents are burned (rather than returned) on finalize.
    pub burn_parents: bool,
    /// Creator address that every parent asset must carry, verified.
    pub parents_candy_machine: Pubkey,
    /// Creator address of the reward family.
    pub reward_candy_machine: Pubkey,
    /// Mint of the token charged when a session opens.
    pub initialization_fee_token: Pubkey,
    /// How much of the fee token a session costs.
    pub initialization_fee_price: u64,
    /// How many reward units are minted when the machine is created.
    pub reward_supply: u64,
}

/// Per-operator configuration and aggregate counters.
#[derive(Clone, Copy, Debug, PartialEq, Eq)]
pub struct BreedMachine {
    pub authority: Pubkey,
    /// Parent units consumed (two per session finalized).
    pub bred: u64,
    /// Rewards issued (one per session finalized).
    pub born: u64,
    pub config: BreedConfig,
}

impl BreedMachine {
    /// A fresh machine with both counters at zero.
    pub fn new(authority: Pubkey, config: BreedConfig) -> (r: BreedMachine)
        ensures
            r.authority == authority,
            r.config == config,
            r.bred == 0,
            r.born == 0,
    {
        BreedMachine { authority, bred: 0, born: 0, config }
    }
}

/// The escrow record of one open breeding session.
#[derive(Clone, Copy, Debug, PartialEq, Eq)]
pub struct BreedData {
    /// The initiator, to whom everything is released.
    pub owner: Pubkey,
    /// The operator of the machine the session runs under.
    pub authority: Pubkey,
    /// Ledger time (unix seconds) at which the session was opened.
    pub timestamp: i64,
    pub mint_a: Pubkey,
    pub mint_b: Pubkey,
}

impl BreedData {
    /// The record of a session opened at ledger time `timestamp`.
    pub fn new(authority: Pubkey, owner: Pubkey, mint_a: Pubkey, mint_b: Pubkey, timestamp: i64) -> (r:
        BreedData)
        ensures
            r.authority == authority,
            r.owner == owner,
            r.mint_a == mint_a,
            r.mint_b == mint_b,
            r.timestamp == timestamp,
    {
        BreedData { owner, authority, timestamp, mint_a, mint_b }
    }
}

/// Partial update of a machine's policy: each present field overwrites.
#[derive(Clone, Copy, Debug, PartialEq, Eq)]
pub struct UpdateMachineConfigArgs {
    pub breeding_time: Option<u64>,
    pub burn_parents: Option<bool>,
    pub initialization_fee_price: Option<u64>,
}

/// One creator entry of an asset's metadata.
#[derive(Clone, Copy, Debug, PartialEq, Eq)]
pub struct Creator {
    pub address: Pubkey,
    pub verified: bool,
}

/// What the metadata oracle reports of an asset: the asset it describes
/// and its claimed creators.
#[derive(Clone, Debug, PartialEq, Eq)]
pub struct NftMetadata {
    pub mint: Pubkey,
    pub creators: Option<Vec<Creator>>,
}

#[derive(Clone, Copy, Debug, PartialEq, Eq, Structural)]
pub enum BreedingError {
    /// The cooldown has not elapsed yet.
    StillInProgress,
    /// A counter would overflow.
    ArithmeticError,
    /// A parent asset lacks a verified claim of the machine's parent family.
    InvalidNftCollection,
    /// The fee payer holds less than the fee.
    InsufficientFunds,
    /// The signer is not the party the operation belongs to.
    Unauthorized,
    /// A machine already exists under the same key.
    MachineAlreadyExists,
    /// A session is already open for the same machine and parent pair.
    SessionAlreadyOpen,
    /// No machine exists under the given key.
    MachineNotFound,
    /// No session is open under the given key.
    SessionNotFound,
}

} // verus!
