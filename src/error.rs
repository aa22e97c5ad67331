use vstd::prelude::*;

verus! {

/// The engine's error codes; every one of them aborts the whole transaction.
#[derive(Clone, Copy, Debug, PartialEq, Eq, Structural)]
pub enum PinocchioCpiError {
    /// The instruction payload is shorter than its fixed layout.
    InstructionDataTooShort,
    /// The trade amount is zero or otherwise unusable.
    InvalidTradeAmount,
    /// A pool-type tag outside the supported range.
    UnsupportedPoolType,
    /// The account list is shorter than the partition needs.
    NotEnoughAccounts,
    /// A token account's storage is too short to hold a balance.
    InvalidTokenAccountData,
    /// The final reference balance does not beat the initial one by the minimum profit.
    ArbitrageFailed,
    /// Not enough tokens for the operation.
    InsufficientBalance,
    /// A pool is configured in a way the engine cannot use.
    InvalidPoolConfiguration,
    /// A cross-program invocation failed.
    CpiCallFailed,
    /// An account is not owned by the expected program.
    AccountOwnerMismatch,
    /// The bonding-curve protocol was asked to serve as the middle hop.
    PumpNotSupported,
}

/// Result type of the engine.
pub type PinocchioResult<T> = Result<T, PinocchioCpiError>;

/// Number of error variants; codes run from zero up to this bound, exclusive.
pub const ERROR_CODE_COUNT: u32 = 11;

impl PinocchioCpiError {
    /// The numeric code of an error, in declaration order.
    pub open spec fn spec_code(self) -> u32 {
        match self {
            PinocchioCpiError::InstructionDataTooShort => 0,
            PinocchioCpiError::InvalidTradeAmount => 1,
            PinocchioCpiError::UnsupportedPoolType => 2,
            PinocchioCpiError::NotEnoughAccounts => 3,
            PinocchioCpiError::InvalidTokenAccountData => 4,
            PinocchioCpiError::ArbitrageFailed => 5,
            PinocchioCpiError::InsufficientBalance => 6,
            PinocchioCpiError::InvalidPoolConfiguration => 7,
            PinocchioCpiError::CpiCallFailed => 8,
            PinocchioCpiError::AccountOwnerMismatch => 9,
            PinocchioCpiError::PumpNotSupported => 10,
        }
    }

    /// The custom program-error code this error is reported under.
    pub fn code(&self) -> (r: u32)
        ensures
            r == self.spec_code(),
            r < ERROR_CODE_COUNT,
    {
        match self {
            PinocchioCpiError::InstructionDataTooShort => 0,
            PinocchioCpiError::InvalidTradeAmount => 1,
            PinocchioCpiError::UnsupportedPoolType => 2,
            PinocchioCpiError::NotEnoughAccounts => 3,
            PinocchioCpiError::InvalidTokenAccountData => 4,
            PinocchioCpiError::ArbitrageFailed => 5,
            PinocchioCpiError::InsufficientBalance => 6,
            PinocchioCpiError::InvalidPoolConfiguration => 7,
            PinocchioCpiError::CpiCallFailed => 8,
            PinocchioCpiError::AccountOwnerMismatch => 9,
            PinocchioCpiError::PumpNotSupported => 10,
        }
    }

    /// Recovers an error from its code; `None` for a code no error carries.
    pub fn from_code(code: u32) -> (r: Option<PinocchioCpiError>)
        ensures
            match r {
                Some(e) => e.spec_code() == code,
                None => code >= ERROR_CODE_COUNT,
            },
    {
        match code {
            0 => Some(PinocchioCpiError::InstructionDataTooShort),
            1 => Some(PinocchioCpiError::InvalidTradeAmount),
            2 => Some(PinocchioCpiError::UnsupportedPoolType),
            3 => Some(PinocchioCpiError::NotEnoughAccounts),
            4 => Some(PinocchioCpiError::InvalidTokenAccountData),
            5 => Some(PinocchioCpiError::ArbitrageFailed),
            6 => Some(PinocchioCpiError::InsufficientBalance),
            7 => Some(PinocchioCpiError::InvalidPoolConfiguration),
            8 => Some(PinocchioCpiError::CpiCallFailed),
            9 => Some(PinocchioCpiError::AccountOwnerMismatch),
            10 => Some(PinocchioCpiError::PumpNotSupported),
            _ => None,
        }
    }

    /// The human-readable diagnostic of each error.
    pub open spec fn spec_message(self) -> Seq<char> {
        match self {
            PinocchioCpiError::InstructionDataTooShort =>
                "Error: Instruction data too short - minimum 11 bytes required"@,
            PinocchioCpiError::InvalidTradeAmount =>
                "Error: Invalid trade amount - amount must be greater than zero"@,
            PinocchioCpiError::UnsupportedPoolType =>
                "Error: Unsupported pool type - valid types are 0-6"@,
            PinocchioCpiError::NotEnoughAccounts =>
                "Error: Not enough accounts provided for the operation"@,
            PinocchioCpiError::InvalidTokenAccountData =>
                "Error: Invalid token account data - account may be uninitialized or corrupted"@,
            PinocchioCpiError::ArbitrageFailed =>
                "Error: Arbitrage failed - final WSOL balance not greater than initial balance"@,
            PinocchioCpiError::InsufficientBalance =>
                "Error: Insufficient token balance for the operation"@,
            PinocchioCpiError::InvalidPoolConfiguration =>
                "Error: Invalid pool configuration - check pool parameters"@,
            PinocchioCpiError::CpiCallFailed =>
                "Error: Cross-program invocation failed - check target program and accounts"@,
            PinocchioCpiError::AccountOwnerMismatch =>
                "Error: Account owner mismatch - account not owned by expected program"@,
            PinocchioCpiError::PumpNotSupported => "Error: Pump not supported in step 2"@,
        }
    }

    /// A readable message for logs and debugging.
    pub fn to_str(&self) -> (r: &'static str)
        ensures
            r@ == self.spec_message(),
    {
        match self {
            PinocchioCpiError::InstructionDataTooShort => {
                "Error: Instruction data too short - minimum 11 bytes required"
            },
            PinocchioCpiError::InvalidTradeAmount => {
                "Error: Invalid trade amount - amount must be greater than zero"
            },
            PinocchioCpiError::UnsupportedPoolType => {
                "Error: Unsupported pool type - valid types are 0-6"
            },
            PinocchioCpiError::NotEnoughAccounts => {
                "Error: Not enough accounts provided for the operation"
            },
            PinocchioCpiError::InvalidTokenAccountData => {
                "Error: Invalid token account data - account may be uninitialized or corrupted"
            },
            PinocchioCpiError::ArbitrageFailed => {
                "Error: Arbitrage failed - final WSOL balance not greater than initial balance"
            },
            PinocchioCpiError::InsufficientBalance => {
                "Error: Insufficient token balance for the operation"
            },
            PinocchioCpiError::InvalidPoolConfiguration => {
                "Error: Invalid pool configuration - check pool parameters"
            },
            PinocchioCpiError::CpiCallFailed => {
                "Error: Cross-program invocation failed - check target program and accounts"
            },
            PinocchioCpiError::AccountOwnerMismatch => {
                "Error: Account owner mismatch - account not owned by expected program"
            },
            PinocchioCpiError::PumpNotSupported => { "Error: Pump not supported in step 2" },
        }
    }
}

} // verus!
