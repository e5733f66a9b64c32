use crate::model::{limit, Call, Ledger};
use crate::totals::{holders, lemma_holders_insert, lemma_total_bounds_each, lemma_total_insert};
use vstd::prelude::*;

verus! {

/// Conservation: whatever calls are made, in whatever order, what the pool
/// holds and what has been handed out together grow by exactly what the
/// accepted funding notices brought in.
pub proof fn conservation(start: Ledger, calls: Seq<Call>)
    ensures
        start.after_all(calls).available_balance + start.after_all(calls).current_shared_balance
            == start.available_balance + start.current_shared_balance + start.funding_of_all(
            calls,
        ),
    decreases calls.len(),
{
    if calls.len() > 0 {
        conservation(start, calls.drop_last());
    }
}

/// Conservation from the start: on a ledger that began fresh, what the pool
/// holds and what has been handed out together are what was funded.
pub proof fn conservation_from_fresh(
    owner_id: Seq<char>,
    ft_contract_id: Seq<char>,
    cap: nat,
    calls: Seq<Call>,
)
    ensures
        ({
            let start = Ledger::fresh(owner_id, ft_contract_id, cap);
            start.after_all(calls).available_balance + start.after_all(
                calls,
            ).current_shared_balance == start.funding_of_all(calls)
        }),
{
    conservation(Ledger::fresh(owner_id, ft_contract_id, cap), calls);
}

/// Monotonicity of one call: what has been handed out, the count of
/// accounts and what any one account has received never go down.
pub proof fn call_never_takes_back(ledger: Ledger, call: Call, account: Seq<char>)
    ensures
        ledger.after(call).current_shared_balance >= ledger.current_shared_balance,
        ledger.after(call).total_share_account >= ledger.total_share_account,
        ledger.after(call).balance_of(account) >= ledger.balance_of(account),
{
}

/// Monotonicity: whatever calls are made, what has been handed out, the
/// count of accounts and what any one account has received never go down.
pub proof fn monotonicity(start: Ledger, calls: Seq<Call>, account: Seq<char>)
    ensures
        start.after_all(calls).current_shared_balance >= start.current_shared_balance,
        start.after_all(calls).total_share_account >= start.total_share_account,
        start.after_all(calls).balance_of(account) >= start.balance_of(account),
    decreases calls.len(),
{
    if calls.len() > 0 {
        monotonicity(start, calls.drop_last(), account);
        call_never_takes_back(start.after_all(calls.drop_last()), calls.last(), account);
    }
}

/// Cap enforcement at a settlement: where a request that the ledger admits
/// is settled on that same ledger, the account ends within the cap and no
/// other account is touched.
pub proof fn settlement_respects_cap(
    ledger: Ledger,
    account: Seq<char>,
    amount: nat,
    deposit: nat,
    other: Seq<char>,
)
    requires
        ledger.refusal(account, amount, deposit) is None,
        other != account,
    ensures
        ledger.settled(account, amount).balance_of(account) == ledger.balance_of(account)
            + amount,
        ledger.settled(account, amount).balance_of(account) <= ledger.settled(
            account,
            amount,
        ).max_share_per_account,
        ledger.settled(account, amount).balance_of(other) == ledger.balance_of(other),
{
}

/// Cap enforcement over a history: if every settlement still passes the cap
/// check of its request when it is made, then no account has received more
/// than the cap that was in force when it was last settled for, however the
/// cap was changed before or since. An account that was never settled for
/// has what it started with.
pub proof fn cap_enforcement(start: Ledger, calls: Seq<Call>, account: Seq<char>)
    requires
        start.all_pass_cap_check(calls),
    ensures
        match start.cap_at_last_settlement(calls, account) {
            Some(cap) => start.after_all(calls).balance_of(account) <= cap,
            None => start.after_all(calls).balance_of(account) == start.balance_of(account),
        },
    decreases calls.len(),
{
    if calls.len() > 0 {
        cap_enforcement(start, calls.drop_last(), account);
    }
}

/// First-recipient counting at a settlement: an accepted settlement raises
/// the count of accounts by one if the account had received nothing, and
/// leaves it otherwise; after a settlement of more than nothing the account
/// has received something.
pub proof fn first_recipient_counted(ledger: Ledger, account: Seq<char>, amount: nat)
    ensures
        ledger.settled(account, amount).total_share_account == ledger.total_share_account + (
        if ledger.balance_of(account) == 0 {
            1nat
        } else {
            0nat
        }),
        amount > 0 ==> ledger.settled(account, amount).balance_of(account) > 0,
{
}

/// First-recipient counting over a history: the first settlement for an
/// account, if it is of more than nothing, raises the count of accounts by
/// exactly one, and no later settlement for that account changes the count,
/// whatever calls are made in between.
pub proof fn recipient_counted_once(
    start: Ledger,
    account: Seq<char>,
    first: nat,
    calls: Seq<Call>,
    later: nat,
)
    requires
        start.balance_of(account) == 0,
        first > 0,
        start.settlement_failure(account, first) is None,
    ensures
        ({
            let counted = start.after((Call::Settle { account, amount: first }));
            let before_later = counted.after_all(calls);
            &&& counted.total_share_account == start.total_share_account + 1
            &&& before_later.after((Call::Settle { account, amount: later })).total_share_account
                == before_later.total_share_account
        }),
{
    let counted = start.after(Call::Settle { account, amount: first });
    monotonicity(counted, calls, account);
}

/// No double count: on a sound ledger with an empty pool that has handed out
/// nothing, funding the pool with an amount and settling that amount for one
/// account right away leaves the pool empty and exactly the amount handed
/// out. The request for it in between is admitted if the faucet is open, a
/// deposit is attached and the amount is within the cap.
pub proof fn no_double_count(ledger: Ledger, account: Seq<char>, amount: nat, deposit: nat)
    requires
        ledger.books_balance(),
        ledger.holders_counted(),
        ledger.available_balance == 0,
        ledger.current_shared_balance == 0,
        amount <= limit(),
    ensures
        ({
            let funded = ledger.after(
                (Call::Fund {
                    predecessor: ledger.ft_contract_id,
                    sender: ledger.owner_id,
                    amount,
                }),
            );
            let settled = funded.after((Call::Settle { account, amount }));
            &&& funded.available_balance == amount
            &&& funded.refusal(account, amount, deposit) is None <==> deposit >= 1
                && !ledger.is_paused && amount <= ledger.max_share_per_account
            &&& settled.available_balance == 0
            &&& settled.current_shared_balance == amount
            &&& settled.balance_of(account) == amount
        }),
{
    share_bounded_by_total(ledger, account);
    assert(holders(ledger.accounts) =~= Set::<Seq<char>>::empty()) by {
        assert forall|other: Seq<char>| !holders(ledger.accounts).contains(other) by {
            share_bounded_by_total(ledger, other);
        }
    }
}

/// A fresh ledger is sound: its books balance and its holders are counted.
pub proof fn fresh_is_sound(owner_id: Seq<char>, ft_contract_id: Seq<char>, cap: nat)
    ensures
        Ledger::fresh(owner_id, ft_contract_id, cap).books_balance(),
        Ledger::fresh(owner_id, ft_contract_id, cap).holders_counted(),
{
    let empty = Map::<Seq<char>, nat>::empty();
    assert(empty.dom() =~= Set::<Seq<char>>::empty());
    assert(holders(empty) =~= Set::<Seq<char>>::empty());
}

/// One call keeps the books balanced: what has been handed out stays the
/// sum of what the accounts have received.
pub proof fn call_keeps_books_balanced(ledger: Ledger, call: Call)
    requires
        ledger.books_balance(),
    ensures
        ledger.after(call).books_balance(),
{
    if let Call::Settle { account, amount } = call {
        lemma_total_insert(ledger.accounts, account, ledger.balance_of(account) + amount);
    }
}

/// Whatever calls are made, the books stay balanced.
pub proof fn books_stay_balanced(start: Ledger, calls: Seq<Call>)
    requires
        start.books_balance(),
    ensures
        start.after_all(calls).books_balance(),
    decreases calls.len(),
{
    if calls.len() > 0 {
        books_stay_balanced(start, calls.drop_last());
        call_keeps_books_balanced(start.after_all(calls.drop_last()), calls.last());
    }
}

/// One call keeps the holders counted, unless it settles nothing for an
/// account that has received nothing.
pub proof fn call_keeps_holders_counted(ledger: Ledger, call: Call)
    requires
        ledger.holders_counted(),
        !ledger.settles_nothing_new(call),
    ensures
        ledger.after(call).holders_counted(),
{
    if let Call::Settle { account, amount } = call {
        lemma_holders_insert(ledger.accounts, account, ledger.balance_of(account) + amount);
    }
}

/// Whatever calls are made, the holders stay counted, as long as none of
/// them settles nothing for an account that has received nothing.
pub proof fn holders_stay_counted(start: Ledger, calls: Seq<Call>)
    requires
        start.holders_counted(),
        start.none_settles_nothing_new(calls),
    ensures
        start.after_all(calls).holders_counted(),
    decreases calls.len(),
{
    if calls.len() > 0 {
        holders_stay_counted(start, calls.drop_last());
        call_keeps_holders_counted(start.after_all(calls.drop_last()), calls.last());
    }
}

/// On a ledger whose books balance, no account has received more than has
/// been handed out in all.
pub proof fn share_bounded_by_total(ledger: Ledger, account: Seq<char>)
    requires
        ledger.books_balance(),
    ensures
        ledger.balance_of(account) <= ledger.current_shared_balance,
{
    if ledger.accounts.contains_key(account) {
        lemma_total_bounds_each(ledger.accounts, account);
    }
}

} // verus!
