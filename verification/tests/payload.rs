use sms_otp::api::Handler;
use sms_otp::api::SmsInput;
use sms_otp::client::Client;
use sms_otp::decimal::u32_to_decimal;
use sms_otp::error::ErrorKind;
use sms_otp::types::MobileNumber;

fn test_client() -> Client {
    Client::new(
        "https://api.example.com/".to_string(),
        "TESTSND".to_string(),
        "template-1".to_string(),
        "SECRET-REDACTED".to_string(),
    )
}

#[test]
fn decimal_rendering_is_exact() {
    assert_eq!(u32_to_decimal(0), "0");
    assert_eq!(u32_to_decimal(7), "7");
    assert_eq!(u32_to_decimal(100000), "100000");
    assert_eq!(u32_to_decimal(123456), "123456");
    assert_eq!(u32_to_decimal(u32::MAX), "4294967295");
}

#[test]
fn payload_carries_configuration_and_otp() {
    let client = test_client();
    let handler = Handler::new(&client);
    let mobile = MobileNumber::from_str("8610993906").unwrap();
    let input = SmsInput { mobile, otp: 123456 };
    let payload = handler.build_otp_request(&input).unwrap();
    assert_eq!(payload.sender, "TESTSND");
    assert_eq!(payload.template_id, "template-1");
    assert_eq!(payload.authkey, "SECRET-REDACTED");
    assert_eq!(payload.extra_param, "{\"OTP\": \"123456\"}");
    assert_eq!(payload.mobile, "+91+918610993906");
}

#[test]
fn short_otp_is_rejected() {
    let client = test_client();
    let handler = Handler::new(&client);
    let mobile = MobileNumber::from_str("8610993906").unwrap();
    let input = SmsInput { mobile, otp: 12345 };
    let e = handler.build_otp_request(&input).unwrap_err();
    assert_eq!(e.message, "OTP must be 6 digits");
    assert_eq!(e.kind, ErrorKind::InvalidData);
}

#[test]
fn long_and_zero_otps_are_rejected() {
    let client = test_client();
    let handler = Handler::new(&client);
    for otp in [0u32, 99999, 1000000, u32::MAX] {
        let mobile = MobileNumber::from_str("8610993906").unwrap();
        let input = SmsInput { mobile, otp };
        let e = handler.build_otp_request(&input).unwrap_err();
        assert_eq!(e.kind, ErrorKind::InvalidData);
    }
}

#[test]
fn six_digit_otps_are_accepted() {
    let client = test_client();
    let handler = Handler::new(&client);
    for otp in [100000u32, 654321, 999999] {
        let mobile = MobileNumber::from_str("8610993906").unwrap();
        let input = SmsInput { mobile, otp };
        let payload = handler.build_otp_request(&input).unwrap();
        assert_eq!(payload.extra_param, format!("{{\"OTP\": \"{}\"}}", otp));
    }
}
