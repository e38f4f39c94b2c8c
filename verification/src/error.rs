//! The program's own errors, with the numbers and texts under which a client
//! sees them.
use vstd::prelude::*;

verus! {

/// Number that the framework adds to the position of a program error to make
/// its error code.
pub const ERROR_CODE_OFFSET: u32 = 6000;

/// An error that the program's instructions return.
#[derive(Clone, Copy, Debug, PartialEq, Eq, Structural)]
pub enum AmiErrorCode {
    InsufficientFunds,
    ConversionError,
    InvalidAmount,
    InvalidTradeStatus,
}

impl AmiErrorCode {
    /// Position of the variant in the declaration.
    pub open spec fn position(self) -> u32 {
        match self {
            AmiErrorCode::InsufficientFunds => 0,
            AmiErrorCode::ConversionError => 1,
            AmiErrorCode::InvalidAmount => 2,
            AmiErrorCode::InvalidTradeStatus => 3,
        }
    }

    /// The error code under which a client sees the error.
    pub open spec fn error_code(self) -> u32 {
        (ERROR_CODE_OFFSET + self.position()) as u32
    }

    /// The variant's name.
    pub open spec fn spec_name(self) -> Seq<char> {
        match self {
            AmiErrorCode::InsufficientFunds => "InsufficientFunds"@,
            AmiErrorCode::ConversionError => "ConversionError"@,
            AmiErrorCode::InvalidAmount => "InvalidAmount"@,
            AmiErrorCode::InvalidTradeStatus => "InvalidTradeStatus"@,
        }
    }

    /// The message that goes with the error.
    pub open spec fn spec_message(self) -> Seq<char> {
        match self {
            AmiErrorCode::InsufficientFunds => "Insufficient funds in the pool"@,
            AmiErrorCode::ConversionError => "Conversion error"@,
            AmiErrorCode::InvalidAmount => "Invalid amount request"@,
            AmiErrorCode::InvalidTradeStatus => "can not trade on bonding curve"@,
        }
    }

    /// The variant's name, as a string.
    pub fn name(&self) -> (s: String)
        ensures
            s@ == self.spec_name(),
    {
        match self {
            AmiErrorCode::InsufficientFunds => "InsufficientFunds".to_owned(),
            AmiErrorCode::ConversionError => "ConversionError".to_owned(),
            AmiErrorCode::InvalidAmount => "InvalidAmount".to_owned(),
            AmiErrorCode::InvalidTradeStatus => "InvalidTradeStatus".to_owned(),
        }
    }

    /// The message of the error, as a client reads it.
    pub fn message(&self) -> (s: String)
        ensures
            s@ == self.spec_message(),
    {
        match self {
            AmiErrorCode::InsufficientFunds => "Insufficient funds in the pool".to_owned(),
            AmiErrorCode::ConversionError => "Conversion error".to_owned(),
            AmiErrorCode::InvalidAmount => "Invalid amount request".to_owned(),
            AmiErrorCode::InvalidTradeStatus => "can not trade on bonding curve".to_owned(),
        }
    }
}

impl From<AmiErrorCode> for u32 {
    fn from(e: AmiErrorCode) -> (code: u32) {
        match e {
            AmiErrorCode::InsufficientFunds => ERROR_CODE_OFFSET,
            AmiErrorCode::ConversionError => ERROR_CODE_OFFSET + 1,
            AmiErrorCode::InvalidAmount => ERROR_CODE_OFFSET + 2,
            AmiErrorCode::InvalidTradeStatus => ERROR_CODE_OFFSET + 3,
        }
    }
}

impl vstd::std_specs::convert::FromSpecImpl<AmiErrorCode> for u32 {
    open spec fn obeys_from_spec() -> bool {
        true
    }

    open spec fn from_spec(e: AmiErrorCode) -> u32 {
        e.error_code()
    }
}

/// The codes start at 6000 with the first declared error and run on by one
/// per variant in the order of declaration.
pub proof fn lemma_error_code_values()
    ensures
        AmiErrorCode::InsufficientFunds.error_code() == 6000,
        AmiErrorCode::ConversionError.error_code() == AmiErrorCode::InsufficientFunds.error_code() + 1,
        AmiErrorCode::InvalidAmount.error_code() == AmiErrorCode::ConversionError.error_code() + 1,
        AmiErrorCode::InvalidTradeStatus.error_code() == AmiErrorCode::InvalidAmount.error_code() + 1,
{
}

/// Each error has a code of its own, and the codes run on from the offset in
/// the order of declaration.
pub proof fn lemma_error_codes_distinct(a: AmiErrorCode, b: AmiErrorCode)
    ensures
        a != b ==> a.error_code() != b.error_code(),
        ERROR_CODE_OFFSET <= a.error_code() < ERROR_CODE_OFFSET + 4,
{
}

} // verus!
