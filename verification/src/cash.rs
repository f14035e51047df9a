//! The cash side of the ledger: the balance of a portfolio is the plain sum of the
//! amounts of its cash movements.

use vstd::prelude::*;
use vstd::seq_lib::to_multiset_build;
use vstd::seq_lib::to_multiset_contains;
use vstd::seq_lib::to_multiset_len;
use vstd::seq_lib::to_multiset_remove;
use crate::error::LedgerError;
use crate::types::CashFlow;
use crate::units::amount_add;
use crate::units::in_range;

verus! {

/// The sum of `value` over the items of a sequence.
pub open spec fn sum_of<T>(items: Seq<T>, value: spec_fn(T) -> int) -> int
    decreases items.len(),
{
    if items.len() == 0 {
        0
    } else {
        sum_of(items.drop_last(), value) + value(items.last())
    }
}

/// What a movement adds to the balance.
pub open spec fn amount_of(m: CashFlow) -> int {
    m.amount as int
}

/// What a movement pays in: its amount, if that is positive.
pub open spec fn credit_of(m: CashFlow) -> int {
    if m.amount > 0 {
        m.amount as int
    } else {
        0
    }
}

/// What a movement takes out: its amount, if that is negative.
pub open spec fn debit_of(m: CashFlow) -> int {
    if m.amount < 0 {
        m.amount as int
    } else {
        0
    }
}

/// The balance after a list of movements: the sum of their amounts.
pub open spec fn cash_total(movements: Seq<CashFlow>) -> int {
    sum_of(movements, |m: CashFlow| amount_of(m))
}

/// All that a list of movements pays in.
pub open spec fn credits(movements: Seq<CashFlow>) -> int {
    sum_of(movements, |m: CashFlow| credit_of(m))
}

/// All that a list of movements takes out; never positive.
pub open spec fn debits(movements: Seq<CashFlow>) -> int {
    sum_of(movements, |m: CashFlow| debit_of(m))
}

/// Whether the ledger can hold the balance of a list of movements: what they pay in
/// and what they take out are both amounts.
pub open spec fn cash_fits(movements: Seq<CashFlow>) -> bool {
    in_range(credits(movements)) && in_range(debits(movements))
}

/// Taking one item out of a sequence takes its value out of the sum.
pub proof fn lemma_sum_without<T>(items: Seq<T>, value: spec_fn(T) -> int, i: int)
    requires
        0 <= i < items.len(),
    ensures
        sum_of(items, value) == sum_of(items.remove(i), value) + value(items[i]),
    decreases items.len(),
{
    if i == items.len() - 1 {
        assert(items.remove(i) =~= items.drop_last());
    } else {
        lemma_sum_without(items.drop_last(), value, i);
        assert(items.remove(i).drop_last() =~= items.drop_last().remove(i));
        assert(items.remove(i).last() == items.last());
    }
}

/// A sum does not depend on the order of its terms.
pub proof fn lemma_sum_of_reordered<T>(a: Seq<T>, b: Seq<T>, value: spec_fn(T) -> int)
    requires
        a.to_multiset() == b.to_multiset(),
    ensures
        sum_of(a, value) == sum_of(b, value),
    decreases a.len(),
{
    to_multiset_len(a);
    to_multiset_len(b);
    if a.len() > 0 {
        let x = a.last();
        assert(a.drop_last().push(x) =~= a);
        to_multiset_build(a.drop_last(), x);
        to_multiset_contains(b, x);
        assert(a.to_multiset().count(x) > 0);
        let j = choose|j: int| 0 <= j < b.len() && b[j] == x;
        to_multiset_remove(b, j);
        assert(a.drop_last().to_multiset() =~= b.remove(j).to_multiset());
        lemma_sum_of_reordered(a.drop_last(), b.remove(j), value);
        lemma_sum_without(b, value, j);
    }
}

/// The balance is what was paid in less what was taken out, and neither of the two
/// shrinks as movements are added.
pub proof fn lemma_credits_and_debits(movements: Seq<CashFlow>, n: int)
    requires
        0 <= n <= movements.len(),
    ensures
        cash_total(movements) == credits(movements) + debits(movements),
        0 <= credits(movements.take(n)) <= credits(movements),
        0 >= debits(movements.take(n)) >= debits(movements),
    decreases movements.len(),
{
    if movements.len() == 0 {
        assert(movements.take(n) =~= movements);
    } else {
        let earlier = movements.drop_last();
        if n == movements.len() {
            assert(movements.take(n) =~= movements);
            lemma_credits_and_debits(earlier, 0);
            assert(earlier.take(0).len() == 0);
        } else {
            lemma_credits_and_debits(earlier, n);
            assert(earlier.take(n) =~= movements.take(n));
        }
    }
}

/// The cash balance of a portfolio: the sum of the amounts of its movements. No
/// movement is left out and none is weighted, so the order of the list is of no
/// account. Fails only where what was paid in, or what was taken out, is more than
/// 128 bits hold.
pub fn compute_cash_balance(movements: &Vec<CashFlow>) -> (r: Result<i128, LedgerError>)
    ensures
        match r {
            Ok(balance) => cash_fits(movements@) && balance == cash_total(movements@),
            Err(e) => e == LedgerError::Overflow && !cash_fits(movements@),
        },
{
    let mut paid_in: i128 = 0;
    let mut taken_out: i128 = 0;
    let mut i: usize = 0;
    while i < movements.len()
        invariant
            i <= movements.len(),
            paid_in == credits(movements@.take(i as int)),
            taken_out == debits(movements@.take(i as int)),
            in_range(paid_in as int),
            in_range(taken_out as int),
        decreases movements.len() - i,
    {
        let amount: i128 = movements[i].amount;
        proof {
            assert(movements@.take(i + 1).drop_last() =~= movements@.take(i as int));
            lemma_credits_and_debits(movements@, i as int);
            lemma_credits_and_debits(movements@, i + 1);
        }
        if amount > 0 {
            match amount_add(paid_in, amount) {
                Some(sum) => {
                    paid_in = sum;
                },
                None => {
                    return Err(LedgerError::Overflow);
                },
            }
        } else {
            match amount_add(taken_out, amount) {
                Some(sum) => {
                    taken_out = sum;
                },
                None => {
                    return Err(LedgerError::Overflow);
                },
            }
        }
        i = i + 1;
    }
    proof {
        assert(movements@.take(i as int) =~= movements@);
        lemma_credits_and_debits(movements@, 0);
    }
    Ok(paid_in + taken_out)
}

} // verus!
