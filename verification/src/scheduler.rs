//! What the bot sends on its own, at fixed intervals, to every user whose
//! record is complete.

use crate::em_commands::callback::{back_to_main, main_keyboard, ButtonView, Keyboard};
use vstd::prelude::*;

verus! {

/// The seconds between two rounds of polling.
pub const POLL_INTERVAL_SECS: u64 = 1800;

/// A message of the bot to a chat, with the keyboard under it, if any.
#[derive(Debug)]
pub struct Notification {
    pub text: String,
    pub keyboard: Option<Keyboard>,
}

/// The keyboard of a notification as a value.
pub open spec fn keyboard_view(keyboard: Option<Keyboard>) -> Option<Seq<ButtonView>> {
    match keyboard {
        Some(k) => Some(k@),
        None => None,
    }
}

/// What is said to a user whose referrals could not be had: that it failed
/// and, as far as they are known, the address that was asked and the status
/// that came back.
pub open spec fn failure_text(url: Option<Seq<char>>, status: Option<Seq<char>>) -> Seq<char> {
    "Не удалось получить список направлений: "@ + (match url {
        Some(u) => "\n-Ошибка в запросе по ссылке: `"@ + u + "`; "@,
        None => Seq::empty(),
    }) + (match status {
        Some(s) => "\n-Код ответа: `"@ + s + "`."@,
        None => Seq::empty(),
    })
}

/// The text of a string that may be missing.
pub open spec fn text_view(text: Option<&str>) -> Option<Seq<char>> {
    match text {
        Some(t) => Some(t@),
        None => None,
    }
}

/// The notification that carries the referrals of a user: the text, and
/// under it the keyboard from which everything starts.
pub fn referrals_notification(message: String) -> (notification: Notification)
    ensures
        notification.text@ == message@,
        keyboard_view(notification.keyboard) == Some(main_keyboard()),
{
    Notification { text: message, keyboard: Some(back_to_main()) }
}

/// The notification that tells a user that their referrals could not be
/// had. It has no keyboard.
pub fn failure_notification(url: Option<&str>, status: Option<&str>) -> (notification: Notification)
    ensures
        notification.text@ == failure_text(text_view(url), text_view(status)),
        notification.keyboard is None,
{
    let mut text = String::from_str("Не удалось получить список направлений: ");
    match url {
        Some(u) => {
            text.append("\n-Ошибка в запросе по ссылке: `");
            text.append(u);
            text.append("`; ");
        },
        None => {},
    }
    match status {
        Some(s) => {
            text.append("\n-Код ответа: `");
            text.append(s);
            text.append("`.");
        },
        None => {},
    }
    assert(text@ =~= failure_text(text_view(url), text_view(status)));
    Notification { text, keyboard: None }
}

/// What came of asking the service for the referrals of one user.
#[derive(Debug)]
pub enum PollOutcome {
    /// The text on the referrals of the user.
    Listed(String),
    /// The referrals could not be had; the address that was asked and the
    /// status that came back, as far as they are known.
    Failed { url: Option<String>, status: Option<String> },
}

/// The text of a string that may be missing.
pub open spec fn string_view(text: Option<String>) -> Option<Seq<char>> {
    match text {
        Some(t) => Some(t@),
        None => None,
    }
}

/// What the bot sends to a user at the end of a round of polling: the
/// referrals with the keyboard from which everything starts, or word of the
/// failure. What came of the other users has no part in it.
pub fn poll_notification(outcome: &PollOutcome) -> (notification: Notification)
    ensures
        match *outcome {
            PollOutcome::Listed(message) => {
                &&& notification.text@ == message@
                &&& keyboard_view(notification.keyboard) == Some(main_keyboard())
            },
            PollOutcome::Failed { url, status } => {
                &&& notification.text@ == failure_text(string_view(url), string_view(status))
                &&& notification.keyboard is None
            },
        },
{
    match outcome {
        PollOutcome::Listed(message) => referrals_notification(message.clone()),
        PollOutcome::Failed { url, status } => {
            let url_text: Option<&str> = match url {
                Some(u) => Some(u.as_str()),
                None => None,
            };
            let status_text: Option<&str> = match status {
                Some(s) => Some(s.as_str()),
                None => None,
            };
            failure_notification(url_text, status_text)
        },
    }
}

} // verus!
