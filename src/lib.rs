//! Breeding escrow: two parent assets are locked into a time-gated session
//! that ends by burning or returning them and issuing a reward.
//!
//! Each instruction is a transition from the state it reads (machine,
//! session record, balances, metadata, ledger time) to its new state and the
//! list of token operations the host ledger is to perform, in order, within
//! the same atomic transaction. A failed instruction returns an error and
//! asks for nothing.
pub mod instructions;
pub mod key;
pub mod keyed;
pub mod laws;
pub mod ops;
pub mod registry;
pub mod state;

pub use instructions::{
    cancel_breeding, create_machine, finalize_breeding, initialize_breeding, update_machine_config, CancelBreeding,
    FinalizeBreeding, InitializeBreed, InitializeBreedMachine, UpdateMachineConfig,
};
pub use key::Pubkey;
pub use ops::{Asset, Holder, TokenOp};
pub use registry::{BreedingRegistry, MachineKey, SessionKey};
pub use state::{BreedConfig, BreedData, BreedMachine, BreedingError, Creator, NftMetadata, UpdateMachineConfigArgs};
