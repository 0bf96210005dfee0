//! Totals over a cart, and the body of the request sent to the pricing
//! collaborator.

use vstd::prelude::*;
use crate::text::{decimal, decimal_text};
use crate::types::CartItem;

verus! {

/// The sum of the quantities of `items`.
pub open spec fn quantity_sum(items: Seq<CartItem>) -> nat
    decreases items.len(),
{
    if items.len() == 0 {
        0
    } else {
        quantity_sum(items.drop_last()) + items.last().quantity as nat
    }
}

/// A prefix never sums to more than the whole sequence.
pub proof fn lemma_quantity_sum_prefix(items: Seq<CartItem>, i: int)
    requires
        0 <= i <= items.len(),
    ensures
        quantity_sum(items.take(i)) <= quantity_sum(items),
    decreases items.len(),
{
    if i < items.len() {
        assert(items.drop_last().take(i) =~= items.take(i));
        lemma_quantity_sum_prefix(items.drop_last(), i);
    } else {
        assert(items.take(i) =~= items);
    }
}

/// The total quantity of a cart, or `None` when it exceeds `u32::MAX`, the
/// largest item count the pricing collaborator is sent.
pub fn total_item_count(items: &Vec<CartItem>) -> (r: Option<u32>)
    ensures
        quantity_sum(items@) <= u32::MAX ==> r == Some(quantity_sum(items@) as u32),
        quantity_sum(items@) > u32::MAX ==> r is None,
{
    let mut total: u32 = 0;
    let mut i: usize = 0;
    while i < items.len()
        invariant
            0 <= i <= items@.len(),
            total as nat == quantity_sum(items@.take(i as int)),
        decreases items@.len() - i,
    {
        assert(items@.take(i as int + 1).drop_last() =~= items@.take(i as int));
        let q = items[i].quantity;
        if q > u32::MAX - total {
            proof {
                lemma_quantity_sum_prefix(items@, i as int + 1);
            }
            return None;
        }
        total = total + q;
        i = i + 1;
    }
    assert(items@.take(i as int) =~= items@);
    Some(total)
}

/// The JSON text `{"numberOfItems":<count>}`.
pub open spec fn quote_request_json(count: nat) -> Seq<char> {
    "{\"numberOfItems\":"@ + decimal(count) + "}"@
}

/// The body of the request that asks the pricing collaborator to price
/// `count` items.
pub fn quote_request_body(count: u32) -> (r: String)
    ensures
        r@ == quote_request_json(count as nat),
{
    let mut s = String::from_str("{\"numberOfItems\":");
    let digits = decimal_text(count as u64);
    s.append(digits.as_str());
    s.append("}");
    s
}

} // verus!
