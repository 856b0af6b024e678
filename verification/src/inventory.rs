//! The validity filter: a time-bound rule over record expiry.
//!
//! `now` is sampled once per request by the caller and handed in, so a
//! batch check is consistent within one evaluation.

use vstd::prelude::*;

use crate::errors::PaymentErr;
use crate::models::Inventory;

verus! {

/// A record is valid while its expiry lies strictly in the future.
pub open spec fn is_valid_at(inv: Inventory, now: u128) -> bool {
    inv.expiry > now
}

/// The subsequence of records still valid at `now`, in their original
/// relative order.
pub open spec fn valid_subset(l: Seq<Inventory>, now: u128) -> Seq<Inventory> {
    l.filter(|inv: Inventory| is_valid_at(inv, now))
}

/// Passes a valid record through unchanged; an expired one is rejected
/// with the expiry failure.
pub fn check_inventory_validity(inventory: Inventory, now: u128) -> (r: Result<
    Inventory,
    PaymentErr,
>)
    ensures
        is_valid_at(inventory, now) ==> r == Ok::<Inventory, PaymentErr>(inventory),
        !is_valid_at(inventory, now) ==> r == Err::<Inventory, PaymentErr>(
            PaymentErr::InventoryDetailsNotFound,
        ),
{
    if inventory.expiry > now {
        Ok(inventory)
    } else {
        Err(PaymentErr::InventoryDetailsNotFound)
    }
}

/// Keeps the records still valid at `now`, preserving their relative
/// order.  When nothing survives — equally when the input itself was
/// empty — the whole batch is rejected with the same expiry failure the
/// single-record check gives, so the two outcomes read alike.
pub fn check_all_inventory_validity(inventory_list: Vec<Inventory>, now: u128) -> (r: Result<
    Vec<Inventory>,
    PaymentErr,
>)
    ensures
        valid_subset(inventory_list@, now).len() == 0 ==> r == Err::<Vec<Inventory>, PaymentErr>(
            PaymentErr::InventoryDetailsNotFound,
        ),
        valid_subset(inventory_list@, now).len() > 0 ==> (r matches Ok(l) && l@ == valid_subset(
            inventory_list@,
            now,
        )),
{
    let mut valid: Vec<Inventory> = Vec::new();
    let mut i: usize = 0;
    proof {
        reveal(Seq::filter);
        assert(inventory_list@.take(0) =~= Seq::<Inventory>::empty());
    }
    while i < inventory_list.len()
        invariant
            i <= inventory_list.len(),
            valid@ == valid_subset(inventory_list@.take(i as int), now),
        decreases inventory_list.len() - i,
    {
        if inventory_list[i].expiry > now {
            valid.push(inventory_list[i].clone());
        }
        i = i + 1;
        proof {
            reveal(Seq::filter);
            assert(inventory_list@.take(i as int).drop_last() =~= inventory_list@.take(
                i as int - 1,
            ));
            assert(inventory_list@.take(i as int).last() == inventory_list@[i as int - 1]);
        }
    }
    proof {
        assert(inventory_list@.take(inventory_list@.len() as int) =~= inventory_list@);
    }
    if valid.len() > 0 {
        Ok(valid)
    } else {
        Err(PaymentErr::InventoryDetailsNotFound)
    }
}

/// Law: filtering preserves relative order.  Split the input anywhere:
/// the valid subset of the whole is the valid subset of the front
/// followed by the valid subset of the back, so no surviving record ever
/// moves past another.
pub proof fn lemma_valid_subset_keeps_order(l1: Seq<Inventory>, l2: Seq<Inventory>, now: u128)
    ensures
        valid_subset(l1 + l2, now) =~= valid_subset(l1, now) + valid_subset(l2, now),
    decreases l2.len(),
{
    reveal(Seq::filter);
    if l2.len() == 0 {
        assert(l1 + l2 =~= l1);
        assert(valid_subset(l2, now) =~= Seq::<Inventory>::empty());
    } else {
        lemma_valid_subset_keeps_order(l1, l2.drop_last(), now);
        assert((l1 + l2).drop_last() =~= l1 + l2.drop_last());
        assert((l1 + l2).last() == l2.last());
        if is_valid_at(l2.last(), now) {
            assert(valid_subset(l1 + l2, now) =~= (valid_subset(l1, now) + valid_subset(
                l2.drop_last(),
                now,
            )).push(l2.last()));
        }
    }
}

/// Law: everything the filter keeps was indeed still valid at `now`.
pub proof fn lemma_valid_subset_members(l: Seq<Inventory>, now: u128)
    ensures
        forall|i: int|
            0 <= i < valid_subset(l, now).len() ==> is_valid_at(
                #[trigger] valid_subset(l, now)[i],
                now,
            ),
    decreases l.len(),
{
    reveal(Seq::filter);
    if l.len() > 0 {
        lemma_valid_subset_members(l.drop_last(), now);
    }
}

/// Law: a search that matched no record and a search whose matches have
/// all expired leave the same empty valid subset, so by the batch check's
/// contract both are rejected with the one expiry failure — the two cases
/// are indistinguishable to the caller.
pub proof fn lemma_empty_and_all_expired_alike(l: Seq<Inventory>, now: u128)
    requires
        forall|i: int| 0 <= i < l.len() ==> !is_valid_at(#[trigger] l[i], now),
    ensures
        valid_subset(l, now).len() == 0,
        valid_subset(Seq::<Inventory>::empty(), now).len() == 0,
    decreases l.len(),
{
    reveal(Seq::filter);
    if l.len() > 0 {
        assert forall|i: int| 0 <= i < l.drop_last().len() implies !is_valid_at(
            #[trigger] l.drop_last()[i],
            now,
        ) by {
            assert(l.drop_last()[i] == l[i]);
        }
        lemma_empty_and_all_expired_alike(l.drop_last(), now);
        assert(!is_valid_at(l.last(), now));
    }
}

} // verus!
