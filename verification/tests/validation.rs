use sms_otp::error::ErrorKind;
use sms_otp::types::MobileNumber;

#[test]
fn valid_mobile_numbers_are_accepted() {
    for raw in ["8610993906", "6000000000", "7123456789", "9999999999"] {
        let m = MobileNumber::from_str(raw).expect("valid number rejected");
        assert_eq!(m.to_string(), format!("+91{}", raw));
    }
}

#[test]
fn mobile_round_trip_keeps_prefix_and_digits() {
    let m = MobileNumber::from_str("8610993906").unwrap();
    let s = m.to_string();
    assert_eq!(s, "+918610993906");
    assert!(s.starts_with("+91"));
    assert_eq!(&s[3..], "8610993906");
}

#[test]
fn wrong_leading_digit_is_rejected() {
    let e = MobileNumber::from_str("1234567890").unwrap_err();
    assert_eq!(e.message, "Invalid mobile number");
    assert_eq!(e.kind, ErrorKind::InvalidData);
}

#[test]
fn wrong_length_is_rejected() {
    assert!(MobileNumber::from_str("").is_err());
    assert!(MobileNumber::from_str("861099390").is_err());
    assert!(MobileNumber::from_str("86109939066").is_err());
}

#[test]
fn non_digit_characters_are_rejected() {
    assert!(MobileNumber::from_str("86109939a6").is_err());
    assert!(MobileNumber::from_str("8610-93906").is_err());
    assert!(MobileNumber::from_str("861099390 ").is_err());
}
