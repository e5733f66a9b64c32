use vstd::prelude::*;

verus! {

/// The sum of all amounts recorded in a finite book.
pub open spec fn total(amounts: Map<Seq<char>, nat>) -> nat
    decreases amounts.dom().len(),
    when amounts.dom().finite()
{
    if amounts.dom().len() == 0 {
        0
    } else {
        let account = amounts.dom().choose();
        amounts[account] + total(amounts.remove(account))
    }
}

/// The accounts for which a book records more than nothing.
pub open spec fn holders(amounts: Map<Seq<char>, nat>) -> Set<Seq<char>> {
    amounts.dom().filter(|account: Seq<char>| amounts[account] > 0)
}

/// The sum can be taken with any recorded account first.
pub proof fn lemma_total_split(amounts: Map<Seq<char>, nat>, account: Seq<char>)
    requires
        amounts.dom().finite(),
        amounts.contains_key(account),
    ensures
        total(amounts) == amounts[account] + total(amounts.remove(account)),
    decreases amounts.dom().len(),
{
    let first = amounts.dom().choose();
    if first != account {
        let without_first = amounts.remove(first);
        let without_account = amounts.remove(account);
        lemma_total_split(without_first, account);
        lemma_total_split(without_account, first);
        assert(without_first.remove(account) =~= without_account.remove(first));
    }
}

/// Recording an amount for an account changes the sum by the difference to
/// what was recorded for it before.
pub proof fn lemma_total_insert(amounts: Map<Seq<char>, nat>, account: Seq<char>, amount: nat)
    requires
        amounts.dom().finite(),
    ensures
        amounts.insert(account, amount).dom().finite(),
        total(amounts.insert(account, amount)) + (if amounts.contains_key(account) {
            amounts[account]
        } else {
            0
        }) == total(amounts) + amount,
{
    let updated = amounts.insert(account, amount);
    lemma_total_split(updated, account);
    assert(updated.remove(account) =~= amounts.remove(account));
    if amounts.contains_key(account) {
        lemma_total_split(amounts, account);
    } else {
        assert(amounts.remove(account) =~= amounts);
    }
}

/// No single account holds more than the sum.
pub proof fn lemma_total_bounds_each(amounts: Map<Seq<char>, nat>, account: Seq<char>)
    requires
        amounts.dom().finite(),
        amounts.contains_key(account),
    ensures
        amounts[account] <= total(amounts),
{
    lemma_total_split(amounts, account);
}

/// Recording a positive amount makes the account a holder; recording nothing
/// makes it none. No other account is affected.
pub proof fn lemma_holders_insert(amounts: Map<Seq<char>, nat>, account: Seq<char>, amount: nat)
    requires
        amounts.dom().finite(),
    ensures
        holders(amounts).finite(),
        holders(amounts.insert(account, amount)).finite(),
        holders(amounts.insert(account, amount)).len() == holders(amounts).len() + (if amount > 0
            && !holders(amounts).contains(account) {
            1int
        } else if amount == 0 && holders(amounts).contains(account) {
            -1int
        } else {
            0int
        }),
{
    let before = holders(amounts);
    let after = holders(amounts.insert(account, amount));
    amounts.dom().lemma_len_filter(|a: Seq<char>| amounts[a] > 0);
    if amount > 0 {
        assert(after =~= before.insert(account));
    } else {
        assert(after =~= before.remove(account));
    }
}

} // verus!
