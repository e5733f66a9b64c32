use crate::accounts::AccountBook;
use crate::laws::{call_keeps_books_balanced, fresh_is_sound};
use crate::model::{Call, Ledger};
use crate::types::{FaucetError, FAUCET_CALLBACK_GAS, FT_TRANSFER_GAS, ONE_YOCTO_NEAR};
use vstd::prelude::*;
use vstd::string::StringExecFns;

verus! {

/// The faucet's ledger.
pub struct FaucetContract {
    /// The account that may fund the pool and set the cap.
    pub owner_id: String,
    /// The token contract.
    pub ft_contract_id: String,
    /// Everything that settlements have handed out.
    pub current_shared_balance: u128,
    /// What the pool still holds.
    pub available_balance: u128,
    /// How often a settlement met an account that had received nothing.
    pub total_share_account: u128,
    /// What each account has received.
    pub accounts: AccountBook,
    /// The most that one account may receive in all.
    pub max_share_per_account: u128,
    /// Whether new requests are turned down.
    pub is_paused: bool,
}

impl View for FaucetContract {
    type V = Ledger;

    open spec fn view(&self) -> Ledger {
        Ledger {
            owner_id: self.owner_id@,
            ft_contract_id: self.ft_contract_id@,
            current_shared_balance: self.current_shared_balance as nat,
            available_balance: self.available_balance as nat,
            total_share_account: self.total_share_account as nat,
            accounts: self.accounts@,
            max_share_per_account: self.max_share_per_account as nat,
            is_paused: self.is_paused,
        }
    }
}

/// A snapshot of the ledger's counters.
#[derive(Clone, Copy, Debug, PartialEq, Eq)]
pub struct FaucetInfo {
    /// Everything that settlements have handed out.
    pub current_shared_balance: u128,
    /// What the pool still holds.
    pub available_balance: u128,
    /// How often a settlement met an account that had received nothing.
    pub total_share_account: u128,
    /// The most that one account may receive in all.
    pub max_share_per_account: u128,
    /// Whether new requests are turned down.
    pub is_paused: bool,
}

impl FaucetInfo {
    /// Whether this snapshot shows the counters of `ledger`.
    pub open spec fn shows(self, ledger: Ledger) -> bool {
        &&& self.current_shared_balance == ledger.current_shared_balance
        &&& self.available_balance == ledger.available_balance
        &&& self.total_share_account == ledger.total_share_account
        &&& self.max_share_per_account == ledger.max_share_per_account
        &&& self.is_paused == ledger.is_paused
    }

    /// The snapshot of `contract`.
    pub fn from(contract: &FaucetContract) -> (info: Self)
        ensures
            info.shows(contract@),
    {
        FaucetInfo {
            current_shared_balance: contract.current_shared_balance,
            available_balance: contract.available_balance,
            total_share_account: contract.total_share_account,
            max_share_per_account: contract.max_share_per_account,
            is_paused: contract.is_paused,
        }
    }
}

/// An admitted request, as the order that the caller is to place with the
/// token contract: one transfer, followed by one settlement that carries the
/// same amount and account.
#[derive(Debug, PartialEq, Eq)]
pub struct TransferRequest {
    /// The token contract that is asked to transfer.
    pub ft_contract_id: String,
    /// The account that receives the tokens and for which the books are
    /// settled afterwards.
    pub receiver_id: String,
    /// The amount to transfer and to settle.
    pub amount: u128,
    /// The note that goes with the transfer.
    pub memo: Option<String>,
    /// The deposit attached to the transfer.
    pub deposit: u128,
    /// The gas handed to the token contract.
    pub gas: u64,
    /// The deposit attached to the settlement.
    pub callback_deposit: u128,
    /// The gas reserved for the settlement.
    pub callback_gas: u64,
}

impl TransferRequest {
    /// The note that goes with every transfer.
    pub open spec fn memo_text() -> Seq<char> {
        "Faucet token from DVP"@
    }

    /// Whether this is the order for `amount` to `receiver` on a ledger whose
    /// token contract is `ft_contract_id`.
    pub open spec fn orders(self, ft_contract_id: Seq<char>, receiver: Seq<char>, amount: nat) -> bool {
        &&& self.ft_contract_id@ == ft_contract_id
        &&& self.receiver_id@ == receiver
        &&& self.amount == amount
        &&& self.memo matches Some(text) && text@ == Self::memo_text()
        &&& self.deposit == ONE_YOCTO_NEAR
        &&& self.gas == FT_TRANSFER_GAS
        &&& self.callback_deposit == 0
        &&& self.callback_gas == FAUCET_CALLBACK_GAS
    }
}

impl FaucetContract {
    /// A ledger with an empty pool, nothing handed out, no account recorded
    /// and requests open.
    pub fn new(owner_id: String, ft_contract_id: String, max_share_per_account: u128) -> (contract:
        Self)
        ensures
            contract@ == Ledger::fresh(owner_id@, ft_contract_id@, max_share_per_account as nat),
            contract@.books_balance(),
            contract@.holders_counted(),
    {
        proof {
            fresh_is_sound(owner_id@, ft_contract_id@, max_share_per_account as nat);
        }
        FaucetContract {
            owner_id,
            ft_contract_id,
            current_shared_balance: 0,
            available_balance: 0,
            total_share_account: 0,
            accounts: AccountBook::new(),
            max_share_per_account,
            is_paused: false,
        }
    }

    /// A snapshot of the counters.
    pub fn get_info(&self) -> (info: FaucetInfo)
        ensures
            info.shows(self@),
    {
        FaucetInfo::from(self)
    }

    /// What `account_id` has received so far.
    pub fn shared_balance_of(&self, account_id: String) -> (balance: u128)
        ensures
            balance == self@.balance_of(account_id@),
    {
        match self.accounts.get(&account_id) {
            Some(balance) => balance,
            None => 0,
        }
    }

    /// Replaces the cap at the request of `predecessor_account_id`, who must
    /// be the owner. Amounts already handed out stay as they are, also where
    /// they exceed the new cap.
    pub fn update_max_share(&mut self, predecessor_account_id: String, max_share: u128) -> (result:
        Result<(), FaucetError>)
        ensures
            result == match old(self)@.cap_update_failure(predecessor_account_id@) {
                Some(error) => Err::<(), FaucetError>(error),
                None => Ok(()),
            },
            final(self)@ == old(self)@.after(
                (Call::SetCap { caller: predecessor_account_id@, cap: max_share as nat }),
            ),
            old(self)@.books_balance() ==> final(self)@.books_balance(),
    {
        proof {
            if self@.books_balance() {
                call_keeps_books_balanced(
                    self@,
                    Call::SetCap { caller: predecessor_account_id@, cap: max_share as nat },
                );
            }
        }
        if predecessor_account_id != self.owner_id {
            return Err(FaucetError::NotOwner);
        }
        self.max_share_per_account = max_share;
        Ok(())
    }

    /// Checks a request of `predecessor_account_id` for `amount` tokens that
    /// came with `attached_deposit`. The ledger is only read: an admitted
    /// request changes it when it is settled, not before.
    pub fn faucet_token(
        &mut self,
        predecessor_account_id: String,
        amount: u128,
        attached_deposit: u128,
    ) -> (result: Result<TransferRequest, FaucetError>)
        ensures
            *final(self) == *old(self),
            match result {
                Ok(request) => old(self)@.refusal(
                    predecessor_account_id@,
                    amount as nat,
                    attached_deposit as nat,
                ) is None && request.orders(
                    old(self)@.ft_contract_id,
                    predecessor_account_id@,
                    amount as nat,
                ),
                Err(error) => old(self)@.refusal(
                    predecessor_account_id@,
                    amount as nat,
                    attached_deposit as nat,
                ) == Some(error),
            },
    {
        if attached_deposit < 1 {
            return Err(FaucetError::DepositRequired);
        }
        if self.is_paused {
            return Err(FaucetError::Paused);
        }
        if amount > self.available_balance {
            return Err(FaucetError::InsufficientSupply);
        }
        let account_balance: u128 = match self.accounts.get(&predecessor_account_id) {
            Some(balance) => balance,
            None => 0,
        };
        if amount > self.max_share_per_account || account_balance > self.max_share_per_account
            - amount {
            return Err(FaucetError::CapExceeded);
        }
        Ok(
            TransferRequest {
                ft_contract_id: self.ft_contract_id.clone(),
                receiver_id: predecessor_account_id,
                amount,
                memo: Some(String::from_str("Faucet token from DVP")),
                deposit: ONE_YOCTO_NEAR,
                gas: FT_TRANSFER_GAS,
                callback_deposit: 0,
                callback_gas: FAUCET_CALLBACK_GAS,
            },
        )
    }

    /// Settles an admitted request once the token contract has answered:
    /// `amount` moves from the pool to `account_id`, and the account is
    /// counted if it had received nothing. Either all four entries of the
    /// ledger change or, where a counter would leave its range or the pool
    /// does not hold the amount, none does.
    pub fn ft_transfer_callback(&mut self, amount: u128, account_id: String) -> (result: Result<
        (),
        FaucetError,
    >)
        ensures
            result == match old(self)@.settlement_failure(account_id@, amount as nat) {
                Some(error) => Err::<(), FaucetError>(error),
                None => Ok(()),
            },
            final(self)@ == old(self)@.after(
                (Call::Settle { account: account_id@, amount: amount as nat }),
            ),
            old(self)@.books_balance() ==> final(self)@.books_balance(),
    {
        proof {
            if self@.books_balance() {
                call_keeps_books_balanced(
                    self@,
                    Call::Settle { account: account_id@, amount: amount as nat },
                );
            }
        }
        let account_balance: u128 = match self.accounts.get(&account_id) {
            Some(balance) => balance,
            None => 0,
        };
        let share_accounts: u128 = if account_balance == 0 {
            match self.total_share_account.checked_add(1) {
                Some(count) => count,
                None => {
                    return Err(FaucetError::Overflow);
                },
            }
        } else {
            self.total_share_account
        };
        let new_balance: u128 = match account_balance.checked_add(amount) {
            Some(balance) => balance,
            None => {
                return Err(FaucetError::Overflow);
            },
        };
        let shared_balance: u128 = match self.current_shared_balance.checked_add(amount) {
            Some(balance) => balance,
            None => {
                return Err(FaucetError::Overflow);
            },
        };
        let available_balance: u128 = match self.available_balance.checked_sub(amount) {
            Some(balance) => balance,
            None => {
                return Err(FaucetError::SupplyUnderflow);
            },
        };
        self.total_share_account = share_accounts;
        self.accounts.insert(&account_id, &new_balance);
        self.current_shared_balance = shared_balance;
        self.available_balance = available_balance;
        Ok(())
    }
}

/// The receiving side of a token transfer: the token contract tells the
/// receiver who sent how much, and is told how much of it was not taken.
pub trait FungibleTokenReceiver {
    fn ft_on_transfer(
        &mut self,
        predecessor_account_id: String,
        sender_id: String,
        amount: u128,
        msg: String,
    ) -> Result<u128, FaucetError>;
}

impl FungibleTokenReceiver for FaucetContract {
    /// Takes a funding notice: `sender_id` has sent `amount` tokens, as
    /// reported by `predecessor_account_id`. Only the owner may fund the
    /// pool and only the token contract may report it. An accepted notice
    /// adds the whole amount to the pool and declines nothing.
    fn ft_on_transfer(
        &mut self,
        predecessor_account_id: String,
        sender_id: String,
        amount: u128,
        msg: String,
    ) -> (result: Result<u128, FaucetError>)
        ensures
            result == match old(self)@.funding_failure(
                predecessor_account_id@,
                sender_id@,
                amount as nat,
            ) {
                Some(error) => Err::<u128, FaucetError>(error),
                None => Ok(0u128),
            },
            final(self)@ == old(self)@.after(
                (Call::Fund {
                    predecessor: predecessor_account_id@,
                    sender: sender_id@,
                    amount: amount as nat,
                }),
            ),
            old(self)@.books_balance() ==> final(self)@.books_balance(),
    {
        proof {
            if self@.books_balance() {
                call_keeps_books_balanced(
                    self@,
                    Call::Fund {
                        predecessor: predecessor_account_id@,
                        sender: sender_id@,
                        amount: amount as nat,
                    },
                );
            }
        }
        if sender_id != self.owner_id {
            return Err(FaucetError::SenderNotOwner);
        }
        if predecessor_account_id != self.ft_contract_id {
            return Err(FaucetError::WrongTokenContract);
        }
        match self.available_balance.checked_add(amount) {
            Some(balance) => {
                self.available_balance = balance;
                Ok(0)
            },
            None => Err(FaucetError::Overflow),
        }
    }
}

} // verus!
