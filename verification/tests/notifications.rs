use emias_repr::scheduler::{
    failure_notification, poll_notification, referrals_notification, PollOutcome,
    POLL_INTERVAL_SECS,
};

#[test]
fn the_referrals_come_with_the_main_keyboard() {
    let notification = referrals_notification("Ваши направления: \n".to_string());
    assert_eq!(notification.text, "Ваши направления: \n");
    let keyboard = notification.keyboard.unwrap();
    assert_eq!(keyboard.buttons.len(), 1);
    assert_eq!(keyboard.buttons[0].text, "Записаться");
    assert_eq!(keyboard.buttons[0].callback_data, "get_referrals");
}

#[test]
fn a_failure_names_the_address_and_the_status() {
    let notification =
        failure_notification(Some("https://emias.info/api"), Some("404 Not Found"));
    assert_eq!(
        notification.text,
        "Не удалось получить список направлений: \n-Ошибка в запросе по ссылке: `https://emias.info/api`; \n-Код ответа: `404 Not Found`."
    );
    assert!(notification.keyboard.is_none());
}

#[test]
fn a_failure_names_only_what_is_known() {
    assert_eq!(
        failure_notification(None, None).text,
        "Не удалось получить список направлений: "
    );
    assert_eq!(
        failure_notification(Some("u"), None).text,
        "Не удалось получить список направлений: \n-Ошибка в запросе по ссылке: `u`; "
    );
    assert_eq!(
        failure_notification(None, Some("500")).text,
        "Не удалось получить список направлений: \n-Код ответа: `500`."
    );
}

#[test]
fn polling_comes_every_half_hour() {
    assert_eq!(POLL_INTERVAL_SECS, 30 * 60);
}

#[test]
fn each_user_is_told_what_came_of_their_own_poll() {
    let outcomes = vec![
        PollOutcome::Listed("Ваши направления: \n".to_string()),
        PollOutcome::Failed {
            url: Some("https://emias.info/api".to_string()),
            status: Some("500 Internal Server Error".to_string()),
        },
        PollOutcome::Failed { url: None, status: None },
        PollOutcome::Listed("Ваши направления: \n[01.03.2024 - 15.04.2024] Хирург\n".to_string()),
    ];
    let sent: Vec<(String, bool)> = outcomes
        .iter()
        .map(poll_notification)
        .map(|n| (n.text, n.keyboard.is_some()))
        .collect();
    assert_eq!(
        sent,
        vec![
            ("Ваши направления: \n".to_string(), true),
            (
                "Не удалось получить список направлений: \n-Ошибка в запросе по ссылке: `https://emias.info/api`; \n-Код ответа: `500 Internal Server Error`."
                    .to_string(),
                false
            ),
            ("Не удалось получить список направлений: ".to_string(), false),
            ("Ваши направления: \n[01.03.2024 - 15.04.2024] Хирург\n".to_string(), true),
        ]
    );
}
