use udmf::UdmfError;
use udmf::error::{STATUS_INTERNAL_ERROR, STATUS_INVALID_PARAM, STATUS_OK, to_result};

#[test]
fn test_success_status_maps_to_ok() {
    assert_eq!(to_result(STATUS_OK as i32), Ok(()));
}

#[test]
fn test_internal_error_status() {
    assert_eq!(
        to_result(STATUS_INTERNAL_ERROR as i32),
        Err(UdmfError::InternalError(STATUS_INTERNAL_ERROR))
    );
}

#[test]
fn test_invalid_param_status() {
    assert_eq!(to_result(STATUS_INVALID_PARAM as i32), Err(UdmfError::InvalidParam));
}

#[test]
fn test_unrecognized_status_is_unknown() {
    assert_eq!(to_result(7), Err(UdmfError::Unknown(7)));
    assert_eq!(to_result(401), Err(UdmfError::Unknown(401)));
}

#[test]
fn test_negative_status_keeps_bit_pattern() {
    assert_eq!(to_result(-1), Err(UdmfError::Unknown(4294967295)));
}

#[test]
fn test_message_rendering() {
    assert_eq!(
        UdmfError::InternalError(20400000).message(),
        "Internal error: 20400000"
    );
    assert_eq!(UdmfError::InternalError(0).message(), "Internal error: 0");
    assert_eq!(UdmfError::InvalidParam.message(), "Invalid parameter");
    assert_eq!(UdmfError::Unknown(7).message(), "Unknown error code: 7");
    assert_eq!(
        UdmfError::Unknown(4294967295).message(),
        "Unknown error code: 4294967295"
    );
}

#[test]
fn test_decimal_string_spelling() {
    assert_eq!(udmf::error::decimal_string(0), "0");
    assert_eq!(udmf::error::decimal_string(7), "7");
    assert_eq!(udmf::error::decimal_string(10), "10");
    assert_eq!(udmf::error::decimal_string(1337), "1337");
    assert_eq!(udmf::error::decimal_string(4294967295), "4294967295");
}

#[test]
fn test_from_code_classification() {
    assert_eq!(
        UdmfError::from_code(STATUS_INTERNAL_ERROR),
        UdmfError::InternalError(STATUS_INTERNAL_ERROR)
    );
    assert_eq!(UdmfError::from_code(STATUS_INVALID_PARAM), UdmfError::InvalidParam);
    assert_eq!(UdmfError::from_code(12345), UdmfError::Unknown(12345));
}
