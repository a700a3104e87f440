use vstd::prelude::*;
use vstd::string::*;

verus! {

/// Why an operation was refused. A refused operation changes nothing.
#[derive(Clone, Copy, Debug, PartialEq, Eq, Structural)]
pub enum StakingError {
    /// A record that is created once already exists.
    AlreadyInitialized,
    /// A record that the operation works on does not exist.
    NotFound,
    /// A withdrawal asks for more than the user has staked.
    InsufficientBalance,
    /// A balance would leave the range of an unsigned 64-bit integer.
    ArithmeticOverflow,
    /// An identity presented is not the one entitled to act.
    Unauthorized,
    /// No discriminant in the probe range yields a derived authority.
    DerivationNotFound,
    /// The asset ledger refused the instruction; its code is carried as is.
    LedgerError(u64),
}

impl StakingError {
    /// The text shown to a caller for this error.
    pub open spec fn message_text(self) -> Seq<char> {
        match self {
            StakingError::AlreadyInitialized => "The account is already initialized"@,
            StakingError::NotFound => "The account does not exist"@,
            StakingError::InsufficientBalance =>
                "You do not have enough tokens in your account to make this withdraw"@,
            StakingError::ArithmeticOverflow => "The amount overflows a balance"@,
            StakingError::Unauthorized => "The authority does not match"@,
            StakingError::DerivationNotFound => "No derived authority could be found"@,
            StakingError::LedgerError(_) => "The asset ledger refused the instruction"@,
        }
    }

    /// Renders the error for a caller.
    pub fn message(&self) -> (text: String)
        ensures
            text@ == self.message_text(),
    {
        match self {
            StakingError::AlreadyInitialized => String::from_str(
                "The account is already initialized",
            ),
            StakingError::NotFound => String::from_str("The account does not exist"),
            StakingError::InsufficientBalance => String::from_str(
                "You do not have enough tokens in your account to make this withdraw",
            ),
            StakingError::ArithmeticOverflow => String::from_str("The amount overflows a balance"),
            StakingError::Unauthorized => String::from_str("The authority does not match"),
            StakingError::DerivationNotFound => String::from_str(
                "No derived authority could be found",
            ),
            StakingError::LedgerError(_) => String::from_str(
                "The asset ledger refused the instruction",
            ),
        }
    }
}

} // verus!
