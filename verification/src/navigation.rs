//! The navigation between the keyboards of the bot: what a callback asks
//! for, and where its answer leads.

use crate::em_commands::callback::{
    all_have_target, back_to_main, get_doctors, get_referrals, main_keyboard,
    providers_keyboard, referrals_keyboard, ButtonView, Keyboard,
};
use crate::parsable::doctors::DoctorsInfoParamsResponse;
use crate::parsable::referrals::ReferralsInfoResponse;
use crate::text::{
    all_digits, decimal_value, find_segment_end, parse_decimal, segment_end, str_eq,
};
use vstd::prelude::*;

verus! {

/// What is said where the referrals could not be had.
pub const REFERRALS_FAILED_TEXT: &'static str = "Не удалось получить список направлений";

/// What is said where the doctors of a referral could not be had.
pub const DOCTORS_FAILED_TEXT: &'static str = "Не удалось получить список врачей";

/// What the user has before them.
#[derive(Clone, Copy, Debug, PartialEq, Eq, Structural)]
pub enum NavState {
    /// Nothing but the entry point.
    Idle,
    /// The referrals, one button each.
    ShowingReferrals,
    /// The doctors or procedures of a referral, one button each.
    ShowingProviders,
}

/// What the payload of a callback asks for.
#[derive(Clone, Copy, Debug, PartialEq, Eq, Structural)]
pub enum CallbackAction {
    /// Show the referrals.
    GetReferrals,
    /// Go back to the entry point.
    BackToMain,
    /// Show the doctors or procedures of the referral.
    GetDoctors(u64),
    /// Nothing that the bot knows.
    Unrecognized,
}

/// The name of the action in a payload: what stands before the first slash.
pub open spec fn callback_name(data: Seq<char>) -> Seq<char> {
    data.subrange(0, segment_end(data, 0, '/'))
}

/// The argument of the action in a payload: what stands between the first
/// slash and the second, or behind the first where there is no second.
pub open spec fn callback_argument(data: Seq<char>) -> Option<Seq<char>> {
    let end = segment_end(data, 0, '/');
    if end >= data.len() {
        None
    } else {
        Some(data.subrange(end + 1, segment_end(data, end + 1, '/')))
    }
}

/// The digits of a number that may have a plus sign before it.
pub open spec fn unsigned_digits(s: Seq<char>) -> Seq<char> {
    if s.len() > 0 && s[0] == '+' {
        s.subrange(1, s.len() as int)
    } else {
        s
    }
}

/// The key of a referral that `s` denotes: a decimal number that fits in 64
/// bits, with or without a plus sign.
pub open spec fn referral_id_of(s: Seq<char>) -> Option<u64> {
    let digits = unsigned_digits(s);
    if digits.len() >= 1 && all_digits(digits) && decimal_value(digits) <= u64::MAX {
        Some(decimal_value(digits) as u64)
    } else {
        None
    }
}

/// What a payload asks for. A payload with another name, or one that asks
/// for doctors without the key of a referral, asks for nothing.
pub open spec fn callback_action(data: Seq<char>) -> CallbackAction {
    let name = callback_name(data);
    if name == "get_referrals"@ {
        CallbackAction::GetReferrals
    } else if name == "back_to_main"@ {
        CallbackAction::BackToMain
    } else if name == "get_doctors"@ {
        match callback_argument(data) {
            Some(argument) => match referral_id_of(argument) {
                Some(id) => CallbackAction::GetDoctors(id),
                None => CallbackAction::Unrecognized,
            },
            None => CallbackAction::Unrecognized,
        }
    } else {
        CallbackAction::Unrecognized
    }
}

/// The key of a referral that `text` denotes.
pub fn parse_referral_id(text: &str) -> (id: Option<u64>)
    ensures
        id == referral_id_of(text@),
{
    let n = text.unicode_len();
    if n > 0 && text.get_char(0) == '+' {
        parse_decimal(text.substring_char(1, n))
    } else {
        parse_decimal(text)
    }
}

/// What the payload of a callback asks for.
pub fn parse_callback(data: &str) -> (action: CallbackAction)
    ensures
        action == callback_action(data@),
{
    let n = data.unicode_len();
    let end = find_segment_end(data, 0, '/');
    let name = data.substring_char(0, end);
    if str_eq(name, "get_referrals") {
        CallbackAction::GetReferrals
    } else if str_eq(name, "back_to_main") {
        CallbackAction::BackToMain
    } else if str_eq(name, "get_doctors") {
        if end >= n {
            CallbackAction::Unrecognized
        } else {
            let argument_end = find_segment_end(data, end + 1, '/');
            match parse_referral_id(data.substring_char(end + 1, argument_end)) {
                Some(id) => CallbackAction::GetDoctors(id),
                None => CallbackAction::Unrecognized,
            }
        }
    } else {
        CallbackAction::Unrecognized
    }
}

/// What came of a callback, once what it asked for has been fetched.
#[derive(Debug)]
pub enum NavEvent {
    /// The referrals were asked for, and these came.
    ReferralsFetched(ReferralsInfoResponse),
    /// The referrals were asked for, and could not be had.
    ReferralsFailed,
    /// The doctors of a referral were asked for, and this came.
    DoctorsFetched(DoctorsInfoParamsResponse),
    /// The doctors of a referral were asked for, and could not be had.
    DoctorsFailed,
    /// The way back to the entry point was asked for.
    BackToMain,
    /// Nothing that the bot knows was asked for.
    Unrecognized,
}

/// What the bot does to the chat on an event.
#[derive(Debug)]
pub enum Effect {
    /// Put this keyboard in place of the one under the message.
    ReplaceKeyboard(Keyboard),
    /// Send a new message with this text.
    SendText(String),
    /// Do nothing.
    Nothing,
}

/// An effect, with its keyboard and its text as values.
pub ghost enum EffectView {
    ReplaceKeyboard(Seq<ButtonView>),
    SendText(Seq<char>),
    Nothing,
}

impl View for Effect {
    type V = EffectView;

    open spec fn view(&self) -> EffectView {
        match *self {
            Effect::ReplaceKeyboard(keyboard) => EffectView::ReplaceKeyboard(keyboard@),
            Effect::SendText(text) => EffectView::SendText(text@),
            Effect::Nothing => EffectView::Nothing,
        }
    }
}

/// Whether an event brings a new keyboard. Referrals of which one names
/// nothing to go to count as not had.
pub open spec fn brings_keyboard(event: NavEvent) -> bool {
    match event {
        NavEvent::ReferralsFetched(referrals) => all_have_target(referrals.result@),
        NavEvent::DoctorsFetched(_) => true,
        NavEvent::BackToMain => true,
        _ => false,
    }
}

/// Where an event leads. The keyboard that it brings decides, whatever was
/// shown before; an event that brings none leaves the state as it is.
pub open spec fn next_state(state: NavState, event: NavEvent) -> NavState {
    match event {
        NavEvent::ReferralsFetched(referrals) => if all_have_target(referrals.result@) {
            NavState::ShowingReferrals
        } else {
            state
        },
        NavEvent::DoctorsFetched(_) => NavState::ShowingProviders,
        NavEvent::BackToMain => NavState::Idle,
        _ => state,
    }
}

/// What the bot does on an event: it puts the keyboard that the event
/// brings under the message, says in a new message what could not be had,
/// and does nothing on what it does not know.
pub open spec fn effect_of(event: NavEvent) -> EffectView {
    match event {
        NavEvent::ReferralsFetched(referrals) => if all_have_target(referrals.result@) {
            EffectView::ReplaceKeyboard(referrals_keyboard(referrals.result@))
        } else {
            EffectView::SendText(REFERRALS_FAILED_TEXT@)
        },
        NavEvent::ReferralsFailed => EffectView::SendText(REFERRALS_FAILED_TEXT@),
        NavEvent::DoctorsFetched(doctors) => EffectView::ReplaceKeyboard(
            providers_keyboard(doctors.result),
        ),
        NavEvent::DoctorsFailed => EffectView::SendText(DOCTORS_FAILED_TEXT@),
        NavEvent::BackToMain => EffectView::ReplaceKeyboard(main_keyboard()),
        NavEvent::Unrecognized => EffectView::Nothing,
    }
}

/// The state after an event, and what the bot does on it.
pub fn navigate(state: NavState, event: &NavEvent) -> (step: (NavState, Effect))
    ensures
        step.0 == next_state(state, *event),
        step.1@ == effect_of(*event),
{
    match event {
        NavEvent::ReferralsFetched(referrals) => match get_referrals(referrals) {
            Ok(keyboard) => (NavState::ShowingReferrals, Effect::ReplaceKeyboard(keyboard)),
            Err(_) => (state, Effect::SendText(String::from_str(REFERRALS_FAILED_TEXT))),
        },
        NavEvent::ReferralsFailed => (
            state,
            Effect::SendText(String::from_str(REFERRALS_FAILED_TEXT)),
        ),
        NavEvent::DoctorsFetched(doctors) => (
            NavState::ShowingProviders,
            Effect::ReplaceKeyboard(get_doctors(doctors)),
        ),
        NavEvent::DoctorsFailed => (state, Effect::SendText(String::from_str(DOCTORS_FAILED_TEXT))),
        NavEvent::BackToMain => (NavState::Idle, Effect::ReplaceKeyboard(back_to_main())),
        NavEvent::Unrecognized => (state, Effect::Nothing),
    }
}

/// An event changes the state only where it brings a keyboard, and only
/// then does the bot touch the keyboard under the message.
pub proof fn lemma_state_follows_keyboard(state: NavState, event: NavEvent)
    ensures
        brings_keyboard(event) <==> effect_of(event) is ReplaceKeyboard,
        !brings_keyboard(event) ==> next_state(state, event) == state,
{
}

} // verus!
