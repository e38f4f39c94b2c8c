use test4::AmiErrorCode;

#[test]
fn error_codes_run_from_6000() {
    assert_eq!(u32::from(AmiErrorCode::InsufficientFunds), 6000);
    assert_eq!(u32::from(AmiErrorCode::ConversionError), 6001);
    assert_eq!(u32::from(AmiErrorCode::InvalidAmount), 6002);
    assert_eq!(u32::from(AmiErrorCode::InvalidTradeStatus), 6003);
}

#[test]
fn error_names() {
    assert_eq!(AmiErrorCode::InsufficientFunds.name(), "InsufficientFunds");
    assert_eq!(AmiErrorCode::ConversionError.name(), "ConversionError");
    assert_eq!(AmiErrorCode::InvalidAmount.name(), "InvalidAmount");
    assert_eq!(AmiErrorCode::InvalidTradeStatus.name(), "InvalidTradeStatus");
}

#[test]
fn error_messages() {
    assert_eq!(AmiErrorCode::InsufficientFunds.message(), "Insufficient funds in the pool");
    assert_eq!(AmiErrorCode::ConversionError.message(), "Conversion error");
    assert_eq!(AmiErrorCode::InvalidAmount.message(), "Invalid amount request");
    assert_eq!(AmiErrorCode::InvalidTradeStatus.message(), "can not trade on bonding curve");
}
