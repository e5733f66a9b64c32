use vstd::prelude::*;

verus! {

/// The deposit attached to an outgoing token transfer.
pub const ONE_YOCTO_NEAR: u128 = 1;

/// The gas handed to the token contract for one transfer.
pub const FT_TRANSFER_GAS: u64 = 10_000_000_000_000;

/// The gas reserved for settling the books after a transfer.
pub const FAUCET_CALLBACK_GAS: u64 = 10_000_000_000_000;

/// Names the persistent collections of the faucet.
#[derive(Clone, Copy, Debug, PartialEq, Eq)]
pub enum StorageKey {
    /// The per-account record of what each account has received.
    AccountKey,
}

impl StorageKey {
    /// The byte string under which a collection keeps its entries: the
    /// position of the variant in the enum, as one byte.
    pub open spec fn prefix(self) -> Seq<u8> {
        match self {
            StorageKey::AccountKey => seq![0u8],
        }
    }

    pub fn into_storage_key(self) -> (bytes: Vec<u8>)
        ensures
            bytes@ == self.prefix(),
    {
        let mut bytes: Vec<u8> = Vec::new();
        match self {
            StorageKey::AccountKey => bytes.push(0u8),
        }
        assert(bytes@ =~= self.prefix());
        bytes
    }
}

/// Why a call was turned down. A call that is turned down leaves the ledger
/// as it was.
#[derive(Clone, Copy, Debug, PartialEq, Eq)]
pub enum FaucetError {
    /// A request came without the minimal deposit.
    DepositRequired,
    /// A request came while the faucet was paused.
    Paused,
    /// A request asked for more than the pool holds.
    InsufficientSupply,
    /// A request would take the account past the per-account cap.
    CapExceeded,
    /// Someone other than the owner tried to change the cap.
    NotOwner,
    /// Someone other than the owner tried to fund the pool.
    SenderNotOwner,
    /// A funding notice came from a contract other than the token contract.
    WrongTokenContract,
    /// A settlement would take more out of the pool than it holds.
    SupplyUnderflow,
    /// A counter would leave the range of 128-bit unsigned integers.
    Overflow,
}

impl FaucetError {
    /// The text shown to the caller for each reason.
    pub open spec fn reason(self) -> Seq<char> {
        match self {
            FaucetError::DepositRequired => "Please deposit at least 1 yocto NEAR"@,
            FaucetError::Paused => "Faucet is paused"@,
            FaucetError::InsufficientSupply => "Not enough token to share"@,
            FaucetError::CapExceeded => "Exceeded maximum amount"@,
            FaucetError::NotOwner => "Only owner can update this field"@,
            FaucetError::SenderNotOwner => "Only owner can transfer to the faucet"@,
            FaucetError::WrongTokenContract => "Only accept token from the correct FT"@,
            FaucetError::SupplyUnderflow => "Settled amount exceeds the available balance"@,
            FaucetError::Overflow => "Balance exceeds the 128-bit range"@,
        }
    }

    pub fn message(&self) -> (text: String)
        ensures
            text@ == self.reason(),
    {
        match self {
            FaucetError::DepositRequired => String::from_str("Please deposit at least 1 yocto NEAR"),
            FaucetError::Paused => String::from_str("Faucet is paused"),
            FaucetError::InsufficientSupply => String::from_str("Not enough token to share"),
            FaucetError::CapExceeded => String::from_str("Exceeded maximum amount"),
            FaucetError::NotOwner => String::from_str("Only owner can update this field"),
            FaucetError::SenderNotOwner => String::from_str("Only owner can transfer to the faucet"),
            FaucetError::WrongTokenContract => String::from_str("Only accept token from the correct FT"),
            FaucetError::SupplyUnderflow => String::from_str("Settled amount exceeds the available balance"),
            FaucetError::Overflow => String::from_str("Balance exceeds the 128-bit range"),
        }
    }
}

} // verus!
