//! The basket of assets that the stake pool asks for when staking pool
//! tokens are created.
use vstd::prelude::*;

verus! {

/// Quantities of each of a pool's assets, in the pool's order.
#[derive(Clone, Debug)]
pub struct Basket {
    pub quantities: Vec<i64>,
}

/// The stake pool's reasons to refuse a request.
#[derive(Clone, Copy, Debug, PartialEq, Eq, Structural)]
pub enum StakeErrorCode {
    /// The pool's state does not fit the request.
    InvalidState,
}

/// An error of the stake pool.
#[derive(Clone, Copy, Debug, PartialEq, Eq, Structural)]
pub enum StakeError {
    ErrorCode(StakeErrorCode),
}

/// Where the basket for a creation comes from.
#[derive(Clone, Debug)]
pub enum BasketSource {
    /// This basket, fixed by the pool's assets.
    Deposit(Basket),
    /// The pool's simple basket for the amount, in proportion to its holdings.
    SimpleBasket,
}

/// The sum of a basket's quantities.
pub open spec fn basket_total(q: Seq<i64>) -> int
    decreases q.len(),
{
    if q.len() == 0 {
        0
    } else {
        basket_total(q.drop_last()) + q.last()
    }
}

/// A basket's total is the sum of its quantities: nothing for an empty basket,
/// and one more quantity adds its amount.
pub proof fn basket_total_adds_quantities(q: Seq<i64>, x: i64)
    ensures
        basket_total(Seq::<i64>::empty()) == 0,
        basket_total(q.push(x)) == basket_total(q) + x,
{
    assert(q.push(x).drop_last() =~= q);
}

/// The basket for `spt_amount` staking pool tokens, given the number of pool
/// tokens in circulation and the number of the pool's assets.
///
/// While no pool tokens circulate, creating `spt_amount` of them takes the same
/// amount of the pool's last asset: a pool of one asset takes
/// `[spt_amount]`, a pool of two `[0, spt_amount]`, and any other pool is in an
/// invalid state. A quantity is an `i64`, so an amount above `i64::MAX` cannot
/// be deposited and is refused. Once pool tokens circulate, the pool's simple
/// basket applies.
pub fn handler(total_pool_tokens: u64, asset_count: usize, spt_amount: u64) -> (r: Result<
    BasketSource,
    StakeError,
>)
    ensures
        total_pool_tokens != 0 ==> r matches Ok(BasketSource::SimpleBasket),
        total_pool_tokens == 0 && spt_amount <= i64::MAX && asset_count == 1 ==> (r matches Ok(
            BasketSource::Deposit(b),
        ) && b.quantities@ == seq![spt_amount as i64]),
        total_pool_tokens == 0 && spt_amount <= i64::MAX && asset_count == 2 ==> (r matches Ok(
            BasketSource::Deposit(b),
        ) && b.quantities@ == seq![0i64, spt_amount as i64]),
        total_pool_tokens == 0 && (spt_amount > i64::MAX || (asset_count != 1 && asset_count
            != 2)) ==> r == Err::<BasketSource, StakeError>(
            StakeError::ErrorCode(StakeErrorCode::InvalidState),
        ),
        // Creating from an empty pool deposits exactly the amount created.
        r matches Ok(BasketSource::Deposit(b)) ==> basket_total(b.quantities@) == spt_amount,
{
    if total_pool_tokens == 0 {
        if spt_amount > 0x7fff_ffff_ffff_ffffu64 || (asset_count != 1 && asset_count != 2) {
            return Err(StakeError::ErrorCode(StakeErrorCode::InvalidState));
        }
        let amount = spt_amount as i64;
        let quantities = if asset_count == 1 {
            vec![amount]
        } else {
            vec![0i64, amount]
        };
        proof {
            assert(amount == spt_amount);
            reveal_with_fuel(basket_total, 3);
            if quantities@.len() == 2 {
                assert(quantities@.drop_last() =~= seq![0i64]);
                assert(quantities@.drop_last().drop_last() =~= Seq::<i64>::empty());
                assert(basket_total(quantities@) == amount);
            } else {
                assert(quantities@.drop_last() =~= Seq::<i64>::empty());
                assert(basket_total(quantities@) == amount);
            }
        }
        Ok(BasketSource::Deposit(Basket { quantities }))
    } else {
        Ok(BasketSource::SimpleBasket)
    }
}

} // verus!
