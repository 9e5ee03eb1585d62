use vstd::prelude::*;

use crate::ops::{
    apply_ops, cancel_ops, close_ops, finalize_ops, initialize_ops, release_ops, reward_op, Asset, Holder, Ledger,
};

verus! {

/// Release policy: finalizing under the burn policy destroys one unit of
/// each parent, so the parents' supply falls by two, and the owner's parent
/// accounts stay as they were; under the return policy the supply stays and
/// the owner regains one unit of each parent. Either way both vaults give up
/// their unit and are closed, and the owner receives one reward unit out of
/// the machine's pool.
pub proof fn lemma_release_policy(l: Ledger, burn: bool)
    ensures
        ({
            let after = apply_ops(l, finalize_ops(burn));
            &&& burn ==> {
                &&& after.supply_of(Asset::ParentA) == l.supply_of(Asset::ParentA) - 1
                &&& after.supply_of(Asset::ParentB) == l.supply_of(Asset::ParentB) - 1
                &&& after.balance_of(Holder::Owner, Asset::ParentA) == l.balance_of(Holder::Owner, Asset::ParentA)
                &&& after.balance_of(Holder::Owner, Asset::ParentB) == l.balance_of(Holder::Owner, Asset::ParentB)
            }
            &&& !burn ==> {
                &&& after.supply_of(Asset::ParentA) == l.supply_of(Asset::ParentA)
                &&& after.supply_of(Asset::ParentB) == l.supply_of(Asset::ParentB)
                &&& after.balance_of(Holder::Owner, Asset::ParentA) == l.balance_of(Holder::Owner, Asset::ParentA) + 1
                &&& after.balance_of(Holder::Owner, Asset::ParentB) == l.balance_of(Holder::Owner, Asset::ParentB) + 1
            }
            &&& after.balance_of(Holder::Session, Asset::ParentA) == l.balance_of(Holder::Session, Asset::ParentA) - 1
            &&& after.balance_of(Holder::Session, Asset::ParentB) == l.balance_of(Holder::Session, Asset::ParentB) - 1
            &&& after.closed == l.closed.insert((Holder::Session, Asset::ParentA)).insert(
                (Holder::Session, Asset::ParentB),
            )
            &&& after.balance_of(Holder::Owner, Asset::Reward) == l.balance_of(Holder::Owner, Asset::Reward) + 1
            &&& after.supply_of(Asset::Reward) == l.supply_of(Asset::Reward)
        }),
{
    reveal_with_fuel(apply_ops, 6);
    assert(apply_ops(l, finalize_ops(burn)).closed =~= l.closed.insert((Holder::Session, Asset::ParentA)).insert(
        (Holder::Session, Asset::ParentB),
    ));
}

/// Round-trip cancel: opening a session and cancelling it at once leaves
/// every account balance and every supply as it was, but for the fee that
/// was burned from the owner.
pub proof fn lemma_cancel_round_trip(l: Ledger, price: u64)
    ensures
        ({
            let back = apply_ops(apply_ops(l, initialize_ops(price)), cancel_ops());
            &&& back.balance_of(Holder::Owner, Asset::Fee) == l.balance_of(Holder::Owner, Asset::Fee) - price
            &&& back.supply_of(Asset::Fee) == l.supply_of(Asset::Fee) - price
            &&& forall|h: Holder, a: Asset|
                !(h == Holder::Owner && a == Asset::Fee) ==> #[trigger] back.balance_of(h, a) == l.balance_of(h, a)
            &&& forall|a: Asset| a != Asset::Fee ==> #[trigger] back.supply_of(a) == l.supply_of(a)
        }),
{
    reveal_with_fuel(apply_ops, 5);
}

/// Custody lifecycle: vaults that start empty hold exactly one unit each
/// once a session is open, and are empty again, whichever way they are
/// released, by the time they are closed: in every way a session ends, both
/// releases come first, then both closes.
pub proof fn lemma_custody_lifecycle(l: Ledger, price: u64, burn: bool)
    requires
        l.balance_of(Holder::Session, Asset::ParentA) == 0,
        l.balance_of(Holder::Session, Asset::ParentB) == 0,
    ensures
        ({
            let locked = apply_ops(l, initialize_ops(price));
            let released = apply_ops(locked, release_ops(burn));
            &&& locked.balance_of(Holder::Session, Asset::ParentA) == 1
            &&& locked.balance_of(Holder::Session, Asset::ParentB) == 1
            &&& released.balance_of(Holder::Session, Asset::ParentA) == 0
            &&& released.balance_of(Holder::Session, Asset::ParentB) == 0
        }),
        finalize_ops(burn) == release_ops(burn) + close_ops() + seq![reward_op()],
        cancel_ops() == release_ops(false) + close_ops(),
{
    reveal_with_fuel(apply_ops, 4);
    assert(finalize_ops(burn) =~= release_ops(burn) + close_ops() + seq![reward_op()]);
}

} // verus!
