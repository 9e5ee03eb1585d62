use vstd::prelude::*;

verus! {

/// Which asset a token operation moves, named by its role in a session.
#[derive(Clone, Copy, Debug, PartialEq, Eq, Hash, Structural)]
pub enum Asset {
    ParentA,
    ParentB,
    /// The machine's configured fee token.
    Fee,
    /// The machine's reward token.
    Reward,
}

/// Whose token account an operation touches.
#[derive(Clone, Copy, Debug, PartialEq, Eq, Hash, Structural)]
pub enum Holder {
    /// The session's initiator.
    Owner,
    /// The session's derived authority, which holds the custody vaults.
    Session,
    /// The machine's derived authority, which holds the reward pool.
    Machine,
}

/// One primitive of the token subsystem that a transition asks the ledger
/// to perform, in order, within the same atomic transaction.
#[derive(Clone, Copy, Debug, PartialEq, Eq, Hash, Structural)]
pub enum TokenOp {
    Transfer { asset: Asset, from: Holder, to: Holder, amount: u64 },
    Burn { asset: Asset, from: Holder, amount: u64 },
    MintTo { asset: Asset, to: Holder, amount: u64 },
    /// Close the (emptied) token account, reclaiming its rent.
    CloseAccount { asset: Asset, holder: Holder },
    /// Give up the authority to mint more of the asset, for good.
    RevokeMintAuthority { asset: Asset },
}

/// The token ledger as the operations see it: balance of each account,
/// supply of each asset, closed accounts, and assets that can no longer be
/// minted.
pub struct Ledger {
    pub balance: spec_fn((Holder, Asset)) -> int,
    pub supply: spec_fn(Asset) -> int,
    pub closed: Set<(Holder, Asset)>,
    pub mint_revoked: Set<Asset>,
}

impl Ledger {
    pub open spec fn balance_of(self, holder: Holder, asset: Asset) -> int {
        (self.balance)((holder, asset))
    }

    pub open spec fn supply_of(self, asset: Asset) -> int {
        (self.supply)(asset)
    }
}

/// `f` with `delta` added at `key`.
pub open spec fn credit<K>(f: spec_fn(K) -> int, key: K, delta: int) -> spec_fn(K) -> int {
    |k: K| if k == key { f(k) + delta } else { f(k) }
}

/// The effect of one operation on the ledger.
pub open spec fn apply_op(l: Ledger, op: TokenOp) -> Ledger {
    match op {
        TokenOp::Transfer { asset, from, to, amount } => Ledger {
            balance: credit(credit(l.balance, (from, asset), -amount), (to, asset), amount as int),
            ..l
        },
        TokenOp::Burn { asset, from, amount } => Ledger {
            balance: credit(l.balance, (from, asset), -amount),
            supply: credit(l.supply, asset, -amount),
            ..l
        },
        TokenOp::MintTo { asset, to, amount } => Ledger {
            balance: credit(l.balance, (to, asset), amount as int),
            supply: credit(l.supply, asset, amount as int),
            ..l
        },
        TokenOp::CloseAccount { asset, holder } => Ledger { closed: l.closed.insert((holder, asset)), ..l },
        TokenOp::RevokeMintAuthority { asset } => Ledger { mint_revoked: l.mint_revoked.insert(asset), ..l },
    }
}

/// The effect of a sequence of operations, first to last.
pub open spec fn apply_ops(l: Ledger, ops: Seq<TokenOp>) -> Ledger
    decreases ops.len(),
{
    if ops.len() == 0 {
        l
    } else {
        apply_ops(apply_op(l, ops[0]), ops.subrange(1, ops.len() as int))
    }
}

/// Burning the opening fee from the owner's fee account.
pub open spec fn fee_op(price: u64) -> TokenOp {
    TokenOp::Burn { asset: Asset::Fee, from: Holder::Owner, amount: price }
}

/// Moving one unit of a parent from the owner into the session's vault.
pub open spec fn lock_op(asset: Asset) -> TokenOp {
    TokenOp::Transfer { asset, from: Holder::Owner, to: Holder::Session, amount: 1 }
}

pub open spec fn lock_ops() -> Seq<TokenOp> {
    seq![lock_op(Asset::ParentA), lock_op(Asset::ParentB)]
}

/// What opening a session asks of the ledger: the fee, then both locks.
pub open spec fn initialize_ops(price: u64) -> Seq<TokenOp> {
    seq![fee_op(price)] + lock_ops()
}

/// Emptying one vault: burn its unit, or hand it back to the owner.
pub open spec fn release_op(asset: Asset, burn: bool) -> TokenOp {
    if burn {
        TokenOp::Burn { asset, from: Holder::Session, amount: 1 }
    } else {
        TokenOp::Transfer { asset, from: Holder::Session, to: Holder::Owner, amount: 1 }
    }
}

pub open spec fn close_op(asset: Asset) -> TokenOp {
    TokenOp::CloseAccount { asset, holder: Holder::Session }
}

pub open spec fn release_ops(burn: bool) -> Seq<TokenOp> {
    seq![release_op(Asset::ParentA, burn), release_op(Asset::ParentB, burn)]
}

pub open spec fn close_ops() -> Seq<TokenOp> {
    seq![close_op(Asset::ParentA), close_op(Asset::ParentB)]
}

/// Releasing both vaults under a policy, then closing them.
pub open spec fn unlock_ops(burn: bool) -> Seq<TokenOp> {
    release_ops(burn) + close_ops()
}

/// One reward unit from the machine's pool to the owner.
pub open spec fn reward_op() -> TokenOp {
    TokenOp::Transfer { asset: Asset::Reward, from: Holder::Machine, to: Holder::Owner, amount: 1 }
}

pub open spec fn finalize_ops(burn: bool) -> Seq<TokenOp> {
    unlock_ops(burn).push(reward_op())
}

/// Cancelling always hands the parents back, whatever the burn policy.
pub open spec fn cancel_ops() -> Seq<TokenOp> {
    unlock_ops(false)
}

pub open spec fn mint_supply_op(amount: u64) -> TokenOp {
    TokenOp::MintTo { asset: Asset::Reward, to: Holder::Machine, amount }
}

pub open spec fn revoke_op() -> TokenOp {
    TokenOp::RevokeMintAuthority { asset: Asset::Reward }
}

/// Creating a machine mints the whole reward supply into its pool and then
/// gives up minting, so the pool cannot grow later.
pub open spec fn create_machine_ops(supply: u64) -> Seq<TokenOp> {
    seq![mint_supply_op(supply), revoke_op()]
}

} // verus!
