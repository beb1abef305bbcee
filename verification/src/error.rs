use vstd::prelude::*;

verus! {

/// The reasons for which the engine rejects an operation. A rejected operation
/// changes nothing.
#[derive(Clone, Copy, Debug, PartialEq, Eq, Hash, Structural)]
pub enum ErrorCode {
    /// The asset's name takes more bytes than a record holds.
    NameTooLong,
    /// The asset's ticker takes more bytes than a record holds.
    TickerTooLong,
    /// The caller is not the administrator.
    Unauthorized,
    /// The deposit would lift the reserve above the vault's limit.
    DepositLimitExceeded,
}

impl ErrorCode {
    /// The text shown to a caller for this error.
    pub open spec fn message_text(self) -> Seq<char> {
        match self {
            ErrorCode::NameTooLong => "Name is too long"@,
            ErrorCode::TickerTooLong => "Ticker is too long"@,
            ErrorCode::Unauthorized => "Unauthorized"@,
            ErrorCode::DepositLimitExceeded => "Deposit would exceed limit"@,
        }
    }

    /// The text shown to a caller for this error.
    pub fn message(&self) -> (text: String)
        ensures
            text@ == self.message_text(),
    {
        match self {
            ErrorCode::NameTooLong => "Name is too long".to_owned(),
            ErrorCode::TickerTooLong => "Ticker is too long".to_owned(),
            ErrorCode::Unauthorized => "Unauthorized".to_owned(),
            ErrorCode::DepositLimitExceeded => "Deposit would exceed limit".to_owned(),
        }
    }
}

} // verus!
