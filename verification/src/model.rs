use crate::totals::{holders, total};
use crate::types::FaucetError;
use vstd::prelude::*;

verus! {

/// The ledger as a mathematical value: what the contracts of the faucet speak
/// of. Amounts are natural numbers and account names are sequences of
/// characters.
#[verifier::ext_equal]
pub struct Ledger {
    /// The account that may fund the pool and set the cap.
    pub owner_id: Seq<char>,
    /// The token contract: the only source of funding notices and the target
    /// of every transfer request.
    pub ft_contract_id: Seq<char>,
    /// Everything that settlements have handed out.
    pub current_shared_balance: nat,
    /// What the pool still holds.
    pub available_balance: nat,
    /// How often a settlement met an account that had received nothing.
    pub total_share_account: nat,
    /// What each account has received; an account that is absent has
    /// received nothing.
    pub accounts: Map<Seq<char>, nat>,
    /// The most that one account may receive in all.
    pub max_share_per_account: nat,
    /// Whether new requests are turned down.
    pub is_paused: bool,
}

/// The largest amount that a counter of the ledger can hold.
pub open spec fn limit() -> nat {
    u128::MAX as nat
}

impl Ledger {
    /// The ledger right after initialization.
    pub open spec fn fresh(owner_id: Seq<char>, ft_contract_id: Seq<char>, cap: nat) -> Ledger {
        Ledger {
            owner_id,
            ft_contract_id,
            current_shared_balance: 0,
            available_balance: 0,
            total_share_account: 0,
            accounts: Map::empty(),
            max_share_per_account: cap,
            is_paused: false,
        }
    }

    /// What `account` has received so far.
    pub open spec fn balance_of(self, account: Seq<char>) -> nat {
        if self.accounts.contains_key(account) {
            self.accounts[account]
        } else {
            0
        }
    }

    /// Why a request of `caller` for `amount` with `deposit` attached is
    /// turned down, or `None` if it is admitted. The checks are made in this
    /// order and the first that fails decides.
    pub open spec fn refusal(self, caller: Seq<char>, amount: nat, deposit: nat) -> Option<
        FaucetError,
    > {
        if deposit < 1 {
            Some(FaucetError::DepositRequired)
        } else if self.is_paused {
            Some(FaucetError::Paused)
        } else if amount > self.available_balance {
            Some(FaucetError::InsufficientSupply)
        } else if self.balance_of(caller) + amount > self.max_share_per_account {
            Some(FaucetError::CapExceeded)
        } else {
            None
        }
    }

    /// Why settling `amount` for `account` fails, or `None` if it goes
    /// through: no counter may leave the 128-bit range, and the pool must
    /// hold the amount.
    pub open spec fn settlement_failure(self, account: Seq<char>, amount: nat) -> Option<
        FaucetError,
    > {
        if self.balance_of(account) == 0 && self.total_share_account + 1 > limit() {
            Some(FaucetError::Overflow)
        } else if self.balance_of(account) + amount > limit() {
            Some(FaucetError::Overflow)
        } else if self.current_shared_balance + amount > limit() {
            Some(FaucetError::Overflow)
        } else if amount > self.available_balance {
            Some(FaucetError::SupplyUnderflow)
        } else {
            None
        }
    }

    /// The ledger after `amount` was settled for `account`: the amount moves
    /// from the pool to the account, and an account that had received
    /// nothing is counted.
    pub open spec fn settled(self, account: Seq<char>, amount: nat) -> Ledger {
        Ledger {
            total_share_account: if self.balance_of(account) == 0 {
                self.total_share_account + 1
            } else {
                self.total_share_account
            },
            accounts: self.accounts.insert(account, self.balance_of(account) + amount),
            current_shared_balance: self.current_shared_balance + amount,
            available_balance: (self.available_balance - amount) as nat,
            ..self
        }
    }

    /// Why a funding notice is turned down, or `None` if it is accepted:
    /// the sender must be the owner, the notice must come from the token
    /// contract, and the pool must stay within the 128-bit range.
    pub open spec fn funding_failure(
        self,
        predecessor: Seq<char>,
        sender: Seq<char>,
        amount: nat,
    ) -> Option<FaucetError> {
        if sender != self.owner_id {
            Some(FaucetError::SenderNotOwner)
        } else if predecessor != self.ft_contract_id {
            Some(FaucetError::WrongTokenContract)
        } else if self.available_balance + amount > limit() {
            Some(FaucetError::Overflow)
        } else {
            None
        }
    }

    /// The ledger after `amount` was added to the pool.
    pub open spec fn funded(self, amount: nat) -> Ledger {
        Ledger { available_balance: self.available_balance + amount, ..self }
    }

    /// Why a change of the cap by `caller` is turned down, or `None` if it
    /// is accepted.
    pub open spec fn cap_update_failure(self, caller: Seq<char>) -> Option<FaucetError> {
        if caller != self.owner_id {
            Some(FaucetError::NotOwner)
        } else {
            None
        }
    }

    /// The ledger with the cap replaced.
    pub open spec fn with_cap(self, cap: nat) -> Ledger {
        Ledger { max_share_per_account: cap, ..self }
    }

    /// What has been handed out is the sum of what the accounts have
    /// received.
    pub open spec fn books_balance(self) -> bool {
        &&& self.accounts.dom().finite()
        &&& self.current_shared_balance == total(self.accounts)
    }

    /// The count of accounts is the number of accounts that have received
    /// something.
    pub open spec fn holders_counted(self) -> bool {
        &&& self.accounts.dom().finite()
        &&& self.total_share_account == holders(self.accounts).len()
    }

    /// The ledger after one call: what the call does where it is accepted,
    /// and the ledger as it was where it is turned down.
    pub open spec fn after(self, call: Call) -> Ledger {
        match call {
            Call::Request { .. } => self,
            Call::Settle { account, amount } => if self.settlement_failure(account, amount)
                is None {
                self.settled(account, amount)
            } else {
                self
            },
            Call::Fund { predecessor, sender, amount } => if self.funding_failure(
                predecessor,
                sender,
                amount,
            ) is None {
                self.funded(amount)
            } else {
                self
            },
            Call::SetCap { caller, cap } => if self.cap_update_failure(caller) is None {
                self.with_cap(cap)
            } else {
                self
            },
            Call::SetPaused { paused } => Ledger { is_paused: paused, ..self },
        }
    }

    /// What one call adds to the pool: the amount of an accepted funding
    /// notice, and nothing otherwise.
    pub open spec fn funding(self, call: Call) -> nat {
        match call {
            Call::Fund { predecessor, sender, amount } => if self.funding_failure(
                predecessor,
                sender,
                amount,
            ) is None {
                amount
            } else {
                0
            },
            _ => 0,
        }
    }

    /// The ledger after a sequence of calls, made one after the other.
    pub open spec fn after_all(self, calls: Seq<Call>) -> Ledger
        decreases calls.len(),
    {
        if calls.len() == 0 {
            self
        } else {
            self.after_all(calls.drop_last()).after(calls.last())
        }
    }

    /// What a sequence of calls adds to the pool in all.
    pub open spec fn funding_of_all(self, calls: Seq<Call>) -> nat
        decreases calls.len(),
    {
        if calls.len() == 0 {
            0
        } else {
            self.funding_of_all(calls.drop_last()) + self.after_all(calls.drop_last()).funding(
                calls.last(),
            )
        }
    }

    /// Whether `call`, made on this ledger, is a settlement that goes through
    /// for `account`.
    pub open spec fn settles_for(self, call: Call, account: Seq<char>) -> bool {
        call matches Call::Settle { account: settled, amount } && settled == account
            && self.settlement_failure(settled, amount) is None
    }

    /// Whether `call`, made on this ledger, passes the cap check of a
    /// request: only a settlement can fail it, by taking its account past
    /// the cap.
    pub open spec fn passes_cap_check(self, call: Call) -> bool {
        call matches Call::Settle { account, amount } ==> self.balance_of(account) + amount
            <= self.max_share_per_account
    }

    /// Whether every call of the sequence, made on the ledger that the calls
    /// before it have left, passes the cap check.
    pub open spec fn all_pass_cap_check(self, calls: Seq<Call>) -> bool
        decreases calls.len(),
    {
        calls.len() > 0 ==> {
            &&& self.all_pass_cap_check(calls.drop_last())
            &&& self.after_all(calls.drop_last()).passes_cap_check(calls.last())
        }
    }

    /// The cap that was in force when the last settlement for `account` in
    /// the sequence went through, or `None` if none did.
    pub open spec fn cap_at_last_settlement(self, calls: Seq<Call>, account: Seq<char>) -> Option<
        nat,
    >
        decreases calls.len(),
    {
        if calls.len() == 0 {
            None
        } else if self.after_all(calls.drop_last()).settles_for(calls.last(), account) {
            Some(self.after_all(calls.drop_last()).max_share_per_account)
        } else {
            self.cap_at_last_settlement(calls.drop_last(), account)
        }
    }

    /// Whether `call`, made on this ledger, settles nothing for an account
    /// that has received nothing. Such a settlement counts the account and
    /// leaves it with nothing.
    pub open spec fn settles_nothing_new(self, call: Call) -> bool {
        call matches Call::Settle { account, amount } && amount == 0 && self.balance_of(account)
            == 0
    }

    /// Whether no call of the sequence, made on the ledger that the calls
    /// before it have left, settles nothing for an account that has received
    /// nothing.
    pub open spec fn none_settles_nothing_new(self, calls: Seq<Call>) -> bool
        decreases calls.len(),
    {
        calls.len() > 0 ==> {
            &&& self.none_settles_nothing_new(calls.drop_last())
            &&& !self.after_all(calls.drop_last()).settles_nothing_new(calls.last())
        }
    }
}

/// One call into the ledger, with what the host supplies written out.
pub enum Call {
    /// A request for tokens.
    Request { caller: Seq<char>, amount: nat, deposit: nat },
    /// The settlement of an admitted request.
    Settle { account: Seq<char>, amount: nat },
    /// A funding notice.
    Fund { predecessor: Seq<char>, sender: Seq<char>, amount: nat },
    /// A change of the cap.
    SetCap { caller: Seq<char>, cap: nat },
    /// A change of the pause flag.
    SetPaused { paused: bool },
}

} // verus!
