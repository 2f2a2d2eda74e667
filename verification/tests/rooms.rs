use emias_repr::date::Date;
use emias_repr::helper::{collect_free_rooms_data, get_doctors_with_shedule};
use emias_repr::parsable::doctors::{
    ComplexResource, DoctorInfo, DoctorsInfoParamsResponse, HasComplexResource, LdpInfo, LdpType,
    MainDoctor, ResultType, Room,
};

fn room(year: i32, month: u32, day: u32) -> Room {
    Room {
        id: 1,
        number: "101".to_string(),
        lpu_id: 7,
        lpu_short_name: "ГП 1".to_string(),
        default_address: "ул. Ленина, 1".to_string(),
        availability_date: Date::new(year, month, day).unwrap(),
    }
}

fn slot(id: u64, room: Option<Room>) -> ComplexResource {
    ComplexResource { id, name: "Кабинет".to_string(), room }
}

fn ldp(name: &str, slots: Vec<ComplexResource>) -> LdpInfo {
    LdpInfo {
        id: 10,
        lpu_id: 7,
        name: name.to_string(),
        ldp_type: vec![LdpType { code: "X".to_string(), name: "Рентген".to_string() }],
        complex_resource: slots,
    }
}

fn doctor(first: &str, second: &str, last: &str, slots: Vec<ComplexResource>) -> DoctorInfo {
    DoctorInfo {
        id: 20,
        lpu_id: 7,
        name: "врач".to_string(),
        ar_speciality_id: 3,
        ar_speciality_name: "Терапия".to_string(),
        main_doctor: MainDoctor {
            speciality_name: "Терапевт".to_string(),
            speciality_id: 3,
            first_name: first.to_string(),
            last_name: last.to_string(),
            second_name: second.to_string(),
        },
        complex_resource: slots,
    }
}

#[test]
fn no_slot_with_a_room_gives_the_fixed_line() {
    assert_eq!(collect_free_rooms_data(ldp("МРТ", vec![])), "Нет записей.\n");
    assert_eq!(
        collect_free_rooms_data(ldp("МРТ", vec![slot(1, None), slot(2, None), slot(3, None)])),
        "Нет записей.\n"
    );
    assert_eq!(
        collect_free_rooms_data(doctor("Иван", "Иванович", "Иванов", vec![slot(1, None)])),
        "Нет записей.\n"
    );
}

#[test]
fn one_slot_with_a_room_gives_one_date_line() {
    let text = collect_free_rooms_data(ldp(
        "МРТ",
        vec![slot(1, None), slot(2, Some(room(2024, 3, 15))), slot(3, None)],
    ));
    assert_eq!(text, "[15.03.2024] \n\n");
    assert!(text.contains("15.03.2024"));
    assert_eq!(text.matches('[').count(), 1);
}

#[test]
fn every_slot_with_a_room_gives_a_line_in_order() {
    let text = collect_free_rooms_data(doctor(
        "Иван",
        "Иванович",
        "Иванов",
        vec![
            slot(1, Some(room(2024, 3, 15))),
            slot(2, None),
            slot(3, Some(room(2024, 12, 1))),
            slot(4, Some(room(2025, 1, 9))),
        ],
    ));
    assert_eq!(text, "[15.03.2024] \n[01.12.2024] \n[09.01.2025] \n\n");
}

#[test]
fn an_entry_hands_out_its_slots() {
    let entry = ldp("МРТ", vec![slot(1, None), slot(2, Some(room(2024, 3, 15)))]);
    assert_eq!(entry.complex_resource().len(), 2);
    assert_eq!(entry.complex_resource()[1].id, 2);
    let entry = doctor("Иван", "Иванович", "Иванов", vec![slot(5, None)]);
    assert_eq!(entry.complex_resource().len(), 1);
    assert_eq!(entry.complex_resource()[0].id, 5);
}

#[test]
fn a_slot_has_a_room_or_not() {
    assert!(<LdpInfo as HasComplexResource>::is_room(slot(1, Some(room(2024, 3, 15)))));
    assert!(!<LdpInfo as HasComplexResource>::is_room(slot(1, None)));
    assert!(<DoctorInfo as HasComplexResource>::is_room(slot(1, Some(room(2024, 3, 15)))));
    assert!(!<DoctorInfo as HasComplexResource>::is_room(slot(1, None)));
}

#[test]
fn procedures_are_listed_with_their_free_rooms() {
    let response = DoctorsInfoParamsResponse {
        result: ResultType::LdpArray(vec![
            ldp("МРТ", vec![slot(1, Some(room(2024, 3, 15)))]),
            ldp("КТ", vec![slot(2, None)]),
        ]),
    };
    assert_eq!(
        get_doctors_with_shedule(&response),
        "- МРТ: \n[15.03.2024] \n\n- КТ: \nНет записей.\n\n"
    );
}

#[test]
fn doctors_are_listed_with_their_free_rooms() {
    let response = DoctorsInfoParamsResponse {
        result: ResultType::DocArray(vec![
            doctor("Иван", "Иванович", "Иванов", vec![]),
            doctor("Анна", "Петровна", "Сидорова", vec![slot(1, Some(room(2024, 3, 15)))]),
        ]),
    };
    assert_eq!(
        get_doctors_with_shedule(&response),
        "- Иван Иванович Иванов: \nНет записей.\n- Анна Петровна Сидорова: \n[15.03.2024] \n\n\n"
    );
}

#[test]
fn a_referral_that_offers_nothing_says_so() {
    let text = "- Нет врачей по данному направлению.\n\n";
    let response = DoctorsInfoParamsResponse { result: ResultType::EmptyObject(vec![]) };
    assert_eq!(get_doctors_with_shedule(&response), text);
    let response = DoctorsInfoParamsResponse { result: ResultType::LdpArray(vec![]) };
    assert_eq!(get_doctors_with_shedule(&response), text);
    let response = DoctorsInfoParamsResponse { result: ResultType::DocArray(vec![]) };
    assert_eq!(get_doctors_with_shedule(&response), text);
    let response = DoctorsInfoParamsResponse {
        result: ResultType::EmptyObject(vec![("code".to_string(), "none".to_string())]),
    };
    assert_eq!(get_doctors_with_shedule(&response), text);
}
