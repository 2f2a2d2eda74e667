use emias_repr::parsable::basic::BasicRequest;
use emias_repr::parsable::doctors::DoctorsInfoParamsRequest;
use emias_repr::parsable::referrals::{ReferralsInfoParamsRequest, ReferralsInfoRequest};

#[test]
fn doctors_request_has_the_envelope_of_its_method() {
    let request = BasicRequest::<DoctorsInfoParamsRequest>::new(
        Some("123".to_string()),
        "1234567890123456".to_string(),
        "1990-01-01".to_string(),
        999,
    );
    assert_eq!(request.id, Some("123".to_string()));
    assert_eq!(request.jsonrpc, "2.0");
    assert_eq!(request.method, "getDoctorsInfo");
    assert_eq!(request.params.omsNumber, "1234567890123456");
    assert_eq!(request.params.birthDate, "1990-01-01");
    assert_eq!(request.params.referralId, 999);
}

#[test]
fn referrals_request_has_the_envelope_of_its_method() {
    let request = ReferralsInfoRequest::<ReferralsInfoParamsRequest>::new(
        None,
        "1234567890123456".to_string(),
        "1990-01-01".to_string(),
    );
    assert_eq!(request.id, None);
    assert_eq!(request.jsonrpc, "2.0");
    assert_eq!(request.method, "getReferralsInfo");
    assert_eq!(request.params.omsNumber, "1234567890123456");
    assert_eq!(request.params.birthDate, "1990-01-01");
}
