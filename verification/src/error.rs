//! The errors of the sprite manager, and why an instruction is given up.

use crate::wire::DecodeError;
use vstd::prelude::*;
use vstd::string::StringExecFns;

verus! {

/// The errors of the sprite manager itself.
#[derive(Clone, Debug, PartialEq, Eq, Structural)]
pub enum SpriteManagerError {
    /// An address is not the one that its seeds derive.
    DerivedKeyInvalid,
    /// The registry to create exists already.
    AlreadyInitialized,
    /// A record could not be written out as bytes.
    FailedToSerialize,
    /// The data of an account could not be borrowed.
    FailedToBorrowAccountData,
    /// An account belongs to another program than expected.
    IncorrectOwner,
    /// The stored bytes are no record of the expected kind.
    DataTypeMismatch,
    /// A size computation left the range of its type.
    NumericalOverflow,
}

impl SpriteManagerError {
    /// The number under which the error is reported.
    pub open spec fn spec_code(self) -> u32 {
        match self {
            SpriteManagerError::DerivedKeyInvalid => 0,
            SpriteManagerError::AlreadyInitialized => 1,
            SpriteManagerError::FailedToSerialize => 2,
            SpriteManagerError::FailedToBorrowAccountData => 3,
            SpriteManagerError::IncorrectOwner => 4,
            SpriteManagerError::DataTypeMismatch => 5,
            SpriteManagerError::NumericalOverflow => 6,
        }
    }

    /// The error that is reported under a number, if there is one.
    pub open spec fn spec_from_u32(code: u32) -> Option<SpriteManagerError> {
        if code == 0 {
            Some(SpriteManagerError::DerivedKeyInvalid)
        } else if code == 1 {
            Some(SpriteManagerError::AlreadyInitialized)
        } else if code == 2 {
            Some(SpriteManagerError::FailedToSerialize)
        } else if code == 3 {
            Some(SpriteManagerError::FailedToBorrowAccountData)
        } else if code == 4 {
            Some(SpriteManagerError::IncorrectOwner)
        } else if code == 5 {
            Some(SpriteManagerError::DataTypeMismatch)
        } else if code == 6 {
            Some(SpriteManagerError::NumericalOverflow)
        } else {
            None
        }
    }

    /// The text that describes the error.
    pub open spec fn spec_message(self) -> Seq<char> {
        match self {
            SpriteManagerError::DerivedKeyInvalid => "Derived Key Invalid"@,
            SpriteManagerError::AlreadyInitialized => "Already initialized"@,
            SpriteManagerError::FailedToSerialize => "Failed to serialize"@,
            SpriteManagerError::FailedToBorrowAccountData => "Failed to borrow account data"@,
            SpriteManagerError::IncorrectOwner => "Incorrect account owner"@,
            SpriteManagerError::DataTypeMismatch => "Data type mismatch"@,
            SpriteManagerError::NumericalOverflow => "NumericalOverflowError"@,
        }
    }

    /// The number under which the error is reported.
    pub fn code(&self) -> (code: u32)
        ensures
            code == self.spec_code(),
    {
        match self {
            SpriteManagerError::DerivedKeyInvalid => 0,
            SpriteManagerError::AlreadyInitialized => 1,
            SpriteManagerError::FailedToSerialize => 2,
            SpriteManagerError::FailedToBorrowAccountData => 3,
            SpriteManagerError::IncorrectOwner => 4,
            SpriteManagerError::DataTypeMismatch => 5,
            SpriteManagerError::NumericalOverflow => 6,
        }
    }

    /// The error that is reported under a number, if there is one.
    pub fn from_u32(code: u32) -> (error: Option<SpriteManagerError>)
        ensures
            error == Self::spec_from_u32(code),
    {
        match code {
            0 => Some(SpriteManagerError::DerivedKeyInvalid),
            1 => Some(SpriteManagerError::AlreadyInitialized),
            2 => Some(SpriteManagerError::FailedToSerialize),
            3 => Some(SpriteManagerError::FailedToBorrowAccountData),
            4 => Some(SpriteManagerError::IncorrectOwner),
            5 => Some(SpriteManagerError::DataTypeMismatch),
            6 => Some(SpriteManagerError::NumericalOverflow),
            _ => None,
        }
    }

    /// The text that describes the error.
    pub fn to_string(&self) -> (text: String)
        ensures
            text@ == self.spec_message(),
    {
        match self {
            SpriteManagerError::DerivedKeyInvalid => String::from_str("Derived Key Invalid"),
            SpriteManagerError::AlreadyInitialized => String::from_str("Already initialized"),
            SpriteManagerError::FailedToSerialize => String::from_str("Failed to serialize"),
            SpriteManagerError::FailedToBorrowAccountData => String::from_str(
                "Failed to borrow account data",
            ),
            SpriteManagerError::IncorrectOwner => String::from_str("Incorrect account owner"),
            SpriteManagerError::DataTypeMismatch => String::from_str("Data type mismatch"),
            SpriteManagerError::NumericalOverflow => String::from_str("NumericalOverflowError"),
        }
    }

    /// The name under which the kind of error is known.
    pub fn type_of() -> (name: &'static str)
        ensures
            name@ == "Error Thingy"@,
    {
        "Error Thingy"
    }
}

/// The number of an error names that error again.
pub proof fn lemma_code_names_error(error: SpriteManagerError)
    ensures
        SpriteManagerError::spec_from_u32(error.spec_code()) == Some(error),
{
}

/// Why the source token account could not be read.
#[derive(Clone, Copy, Debug, PartialEq, Eq, Structural)]
pub enum TokenAccountError {
    /// The bytes are not those of a token account.
    InvalidAccountData,
    /// The token account was never set up.
    UninitializedAccount,
}

/// Why an instruction was not carried out.
#[derive(Clone, Debug, PartialEq, Eq, Structural)]
pub enum ProcessError {
    /// An error of the sprite manager itself.
    Custom(SpriteManagerError),
    /// The instruction names fewer accounts than it needs.
    NotEnoughAccountKeys,
    /// An account that has to sign did not.
    MissingRequiredSignature,
    /// The data of the instruction could not be read.
    BorshIoError(DecodeError),
    /// The source token account could not be read.
    TokenAccount(TokenAccountError),
    /// The source token account is not one from which custody can be taken: the whole
    /// instruction is given up.
    SourceRejected,
}

impl From<SpriteManagerError> for ProcessError {
    fn from(e: SpriteManagerError) -> (error: ProcessError) {
        ProcessError::Custom(e)
    }
}

impl vstd::std_specs::convert::FromSpecImpl<SpriteManagerError> for ProcessError {
    open spec fn obeys_from_spec() -> bool {
        true
    }

    open spec fn from_spec(e: SpriteManagerError) -> ProcessError {
        ProcessError::Custom(e)
    }
}

} // verus!
