use emias_repr::navigation::{
    navigate, parse_callback, parse_referral_id, CallbackAction, Effect, NavEvent, NavState,
    DOCTORS_FAILED_TEXT, REFERRALS_FAILED_TEXT,
};
use emias_repr::parsable::doctors::{DoctorsInfoParamsResponse, LdpInfo, ResultType};
use emias_repr::parsable::referrals::{ReferralInfo, ReferralsInfoResponse, ToDoctor};

fn referral(id: u64, name: Option<&str>) -> ReferralInfo {
    ReferralInfo {
        id,
        start_time: "2024-03-01".to_string(),
        end_time: "2024-04-01".to_string(),
        lpu_id: 7,
        lpu_name: "ГП 1".to_string(),
        to_ldp: None,
        to_doctor: name.map(|n| ToDoctor {
            speciality_id: 3,
            speciality_name: n.to_string(),
            reception_type_id: 1,
        }),
    }
}

fn pairs(effect: &Effect) -> Vec<(String, String)> {
    match effect {
        Effect::ReplaceKeyboard(keyboard) => {
            keyboard.buttons.iter().map(|b| (b.text.clone(), b.callback_data.clone())).collect()
        }
        other => panic!("no keyboard: {:?}", other),
    }
}

fn pair(text: &str, data: &str) -> (String, String) {
    (text.to_string(), data.to_string())
}

fn text_of(effect: &Effect) -> String {
    match effect {
        Effect::SendText(text) => text.clone(),
        other => panic!("no text: {:?}", other),
    }
}

#[test]
fn the_three_payloads_are_recognized() {
    assert_eq!(parse_callback("get_referrals"), CallbackAction::GetReferrals);
    assert_eq!(parse_callback("back_to_main"), CallbackAction::BackToMain);
    assert_eq!(parse_callback("get_doctors/999"), CallbackAction::GetDoctors(999));
    assert_eq!(parse_callback("get_doctors/0"), CallbackAction::GetDoctors(0));
    assert_eq!(
        parse_callback("get_doctors/18446744073709551615"),
        CallbackAction::GetDoctors(u64::MAX)
    );
}

#[test]
fn only_the_name_and_the_first_argument_count() {
    assert_eq!(parse_callback("get_referrals/anything"), CallbackAction::GetReferrals);
    assert_eq!(parse_callback("back_to_main/"), CallbackAction::BackToMain);
    assert_eq!(parse_callback("get_doctors/12/34"), CallbackAction::GetDoctors(12));
    assert_eq!(parse_callback("get_doctors/+12"), CallbackAction::GetDoctors(12));
    assert_eq!(parse_callback("get_doctors/007"), CallbackAction::GetDoctors(7));
}

#[test]
fn everything_else_is_not_recognized() {
    for data in [
        "",
        "_",
        "get_shedule",
        "GET_REFERRALS",
        "get_referrals ",
        " get_referrals",
        "/get_referrals",
        "get_doctors",
        "get_doctors/",
        "get_doctors//5",
        "get_doctors/abc",
        "get_doctors/-1",
        "get_doctors/+",
        "get_doctors/1.5",
        "get_doctors/18446744073709551616",
        "get_doctors/ 5",
        "Назад",
    ] {
        assert_eq!(parse_callback(data), CallbackAction::Unrecognized, "{:?}", data);
    }
}

#[test]
fn the_key_of_a_referral_is_a_decimal_number() {
    assert_eq!(parse_referral_id("999"), Some(999));
    assert_eq!(parse_referral_id("+999"), Some(999));
    assert_eq!(parse_referral_id(""), None);
    assert_eq!(parse_referral_id("+"), None);
    assert_eq!(parse_referral_id("++1"), None);
    assert_eq!(parse_referral_id("-0"), None);
}

#[test]
fn fetched_referrals_lead_to_their_keyboard() {
    let event = NavEvent::ReferralsFetched(ReferralsInfoResponse {
        result: vec![referral(999, Some("Хирург"))],
    });
    for state in [NavState::Idle, NavState::ShowingReferrals, NavState::ShowingProviders] {
        let (next, effect) = navigate(state, &event);
        assert_eq!(next, NavState::ShowingReferrals);
        assert_eq!(
            pairs(&effect),
            vec![pair("Хирург", "get_doctors/999"), pair("Назад", "back_to_main")]
        );
    }
}

#[test]
fn a_press_on_a_referral_leads_to_what_it_offers() {
    let shown = NavState::ShowingReferrals;
    let action = parse_callback("get_doctors/999");
    assert_eq!(action, CallbackAction::GetDoctors(999));

    let offered = |result| NavEvent::DoctorsFetched(DoctorsInfoParamsResponse { result });
    let (next, effect) = navigate(shown, &offered(ResultType::EmptyObject(vec![])));
    assert_eq!(next, NavState::ShowingProviders);
    assert_eq!(
        pairs(&effect),
        vec![pair("Нет врачей по данному направлению.", "_"), pair("Назад", "get_referrals")]
    );

    let ldp = LdpInfo {
        id: 1,
        lpu_id: 7,
        name: "МРТ".to_string(),
        ldp_type: vec![],
        complex_resource: vec![],
    };
    let (next, effect) = navigate(shown, &offered(ResultType::LdpArray(vec![ldp])));
    assert_eq!(next, NavState::ShowingProviders);
    assert_eq!(pairs(&effect), vec![pair("МРТ", "get_shedule"), pair("Назад", "get_referrals")]);

    let (next, effect) = navigate(shown, &offered(ResultType::DocArray(vec![])));
    assert_eq!(next, NavState::ShowingProviders);
    assert_eq!(pairs(&effect), vec![pair("Назад", "get_referrals")]);
}

#[test]
fn the_way_back_leads_to_the_start() {
    for state in [NavState::Idle, NavState::ShowingReferrals, NavState::ShowingProviders] {
        let (next, effect) = navigate(state, &NavEvent::BackToMain);
        assert_eq!(next, NavState::Idle);
        assert_eq!(pairs(&effect), vec![pair("Записаться", "get_referrals")]);
    }
}

#[test]
fn a_failure_is_told_and_changes_nothing() {
    for state in [NavState::Idle, NavState::ShowingReferrals, NavState::ShowingProviders] {
        let (next, effect) = navigate(state, &NavEvent::ReferralsFailed);
        assert_eq!(next, state);
        assert_eq!(text_of(&effect), REFERRALS_FAILED_TEXT);
        let (next, effect) = navigate(state, &NavEvent::DoctorsFailed);
        assert_eq!(next, state);
        assert_eq!(text_of(&effect), DOCTORS_FAILED_TEXT);
    }
    assert_eq!(REFERRALS_FAILED_TEXT, "Не удалось получить список направлений");
    assert_eq!(DOCTORS_FAILED_TEXT, "Не удалось получить список врачей");
}

#[test]
fn referrals_without_a_name_count_as_a_failure() {
    let event = NavEvent::ReferralsFetched(ReferralsInfoResponse {
        result: vec![referral(1, Some("Хирург")), referral(2, None)],
    });
    let (next, effect) = navigate(NavState::Idle, &event);
    assert_eq!(next, NavState::Idle);
    assert_eq!(text_of(&effect), REFERRALS_FAILED_TEXT);
}

#[test]
fn what_is_not_recognized_does_nothing() {
    for state in [NavState::Idle, NavState::ShowingReferrals, NavState::ShowingProviders] {
        let (next, effect) = navigate(state, &NavEvent::Unrecognized);
        assert_eq!(next, state);
        assert!(matches!(effect, Effect::Nothing));
    }
}
