use sprite_manager::error::{ProcessError, SpriteManagerError};

const ALL: [SpriteManagerError; 7] = [
    SpriteManagerError::DerivedKeyInvalid,
    SpriteManagerError::AlreadyInitialized,
    SpriteManagerError::FailedToSerialize,
    SpriteManagerError::FailedToBorrowAccountData,
    SpriteManagerError::IncorrectOwner,
    SpriteManagerError::DataTypeMismatch,
    SpriteManagerError::NumericalOverflow,
];

#[test]
fn errors_are_numbered_in_their_order() {
    for (number, error) in ALL.iter().enumerate() {
        assert_eq!(error.code(), number as u32);
        assert_eq!(SpriteManagerError::from_u32(number as u32), Some(error.clone()));
    }
    assert_eq!(SpriteManagerError::from_u32(7), None);
    assert_eq!(SpriteManagerError::from_u32(u32::MAX), None);
}

#[test]
fn errors_describe_themselves() {
    assert_eq!(SpriteManagerError::DerivedKeyInvalid.to_string(), "Derived Key Invalid");
    assert_eq!(SpriteManagerError::AlreadyInitialized.to_string(), "Already initialized");
    assert_eq!(SpriteManagerError::FailedToSerialize.to_string(), "Failed to serialize");
    assert_eq!(
        SpriteManagerError::FailedToBorrowAccountData.to_string(),
        "Failed to borrow account data"
    );
    assert_eq!(SpriteManagerError::IncorrectOwner.to_string(), "Incorrect account owner");
    assert_eq!(SpriteManagerError::DataTypeMismatch.to_string(), "Data type mismatch");
    assert_eq!(SpriteManagerError::NumericalOverflow.to_string(), "NumericalOverflowError");
    assert_eq!(SpriteManagerError::type_of(), "Error Thingy");
}

#[test]
fn an_error_of_the_sprite_manager_becomes_a_custom_error() {
    for error in ALL.iter() {
        let converted: ProcessError = error.clone().into();
        assert_eq!(converted, ProcessError::Custom(error.clone()));
    }
}
