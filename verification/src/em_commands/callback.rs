//! The keyboards that the callbacks bring up.

use crate::helper::{referral_name, referral_target, ReferralError};
use crate::parsable::doctors::{DoctorInfo, DoctorsInfoParamsResponse, LdpInfo, ResultType};
use crate::parsable::referrals::{ReferralInfo, ReferralsInfoResponse};
use crate::text::{decimal_text, push_decimal};
use vstd::prelude::*;

verus! {

/// A button of an inline keyboard: what it shows, and what the platform
/// sends back when it is pressed.
#[derive(Debug)]
pub struct InlineButton {
    pub text: String,
    pub callback_data: String,
}

/// What a button shows and sends back, as text.
pub ghost struct ButtonView {
    pub text: Seq<char>,
    pub callback_data: Seq<char>,
}

impl View for InlineButton {
    type V = ButtonView;

    open spec fn view(&self) -> ButtonView {
        ButtonView { text: self.text@, callback_data: self.callback_data@ }
    }
}

/// An inline keyboard; each button stands on a row of its own.
#[derive(Debug)]
pub struct Keyboard {
    pub buttons: Vec<InlineButton>,
}

impl View for Keyboard {
    type V = Seq<ButtonView>;

    open spec fn view(&self) -> Seq<ButtonView> {
        Seq::new(self.buttons@.len(), |i: int| self.buttons@[i]@)
    }
}

/// The button with the given text and callback data.
pub open spec fn button(text: Seq<char>, callback_data: Seq<char>) -> ButtonView {
    ButtonView { text, callback_data }
}

/// The keyboard from which everything starts: one button that asks for the
/// referrals.
pub open spec fn main_keyboard() -> Seq<ButtonView> {
    seq![button("Записаться"@, "get_referrals"@)]
}

/// The button of a referral: it shows what the referral sends the patient
/// to, and asks for the doctors of that referral.
pub open spec fn referral_button(referral: ReferralInfo) -> ButtonView {
    button(referral_target(referral)->Some_0, "get_doctors/"@ + decimal_text(referral.id as nat))
}

/// Whether every referral names a specialty or a type of procedure.
pub open spec fn all_have_target(referrals: Seq<ReferralInfo>) -> bool {
    forall|i: int| 0 <= i < referrals.len() ==> referral_target(#[trigger] referrals[i]) is Some
}

/// The keyboard of the referrals: one button for each, in their order, and a
/// button that leads back to the start.
pub open spec fn referrals_keyboard(referrals: Seq<ReferralInfo>) -> Seq<ButtonView> {
    Seq::new(referrals.len(), |i: int| referral_button(referrals[i])).push(
        button("Назад"@, "back_to_main"@),
    )
}

/// The button of a doctor: first, second and last name.
pub open spec fn doctor_button(doctor: DoctorInfo) -> ButtonView {
    button(
        doctor.main_doctor.first_name@ + " "@ + doctor.main_doctor.second_name@ + " "@
            + doctor.main_doctor.last_name@,
        "get_shedule"@,
    )
}

/// The button of a procedure: its name.
pub open spec fn ldp_button(ldp: LdpInfo) -> ButtonView {
    button(ldp.name@, "get_shedule"@)
}

/// The button that leads from the doctors back to the referrals.
pub open spec fn back_to_referrals() -> ButtonView {
    button("Назад"@, "get_referrals"@)
}

/// The keyboard of what a referral offers: one button for each doctor or
/// procedure, in their order, or one button that says that there is none;
/// then a button that leads back to the referrals.
pub open spec fn providers_keyboard(listing: ResultType) -> Seq<ButtonView> {
    match listing {
        ResultType::DocArray(doctors) => Seq::new(
            doctors@.len(),
            |i: int| doctor_button(doctors@[i]),
        ).push(back_to_referrals()),
        ResultType::LdpArray(ldps) => Seq::new(ldps@.len(), |i: int| ldp_button(ldps@[i])).push(
            back_to_referrals(),
        ),
        ResultType::EmptyObject(_) => seq![
            button("Нет врачей по данному направлению."@, "_"@),
            back_to_referrals(),
        ],
    }
}

/// A button with the given text and callback data.
pub fn make_button(text: &str, callback_data: &str) -> (made: InlineButton)
    ensures
        made@ == button(text@, callback_data@),
{
    InlineButton { text: String::from_str(text), callback_data: String::from_str(callback_data) }
}

/// The keyboard of the referrals of a user, if each of them names what it
/// sends the patient to.
pub fn get_referrals(referrals: &ReferralsInfoResponse) -> (keyboard: Result<Keyboard, ReferralError>)
    ensures
        match keyboard {
            Ok(k) => all_have_target(referrals.result@) && k@ == referrals_keyboard(
                referrals.result@,
            ),
            Err(e) => e == ReferralError::NoTarget && !all_have_target(referrals.result@),
        },
{
    let refs = &referrals.result;
    let mut refs_keys: Vec<InlineButton> = Vec::new();
    let mut i: usize = 0;
    while i < refs.len()
        invariant
            0 <= i <= refs.len(),
            refs@ == referrals.result@,
            refs_keys@.len() == i,
            forall|j: int| 0 <= j < i ==> referral_target(#[trigger] refs@[j]) is Some,
            forall|j: int| 0 <= j < i ==> (#[trigger] refs_keys@[j])@ == referral_button(refs@[j]),
        decreases refs.len() - i,
    {
        let referral = &refs[i];
        let name = match referral_name(referral) {
            Some(name) => name,
            None => {
                return Err(ReferralError::NoTarget);
            },
        };
        let mut data = String::from_str("get_doctors/");
        push_decimal(&mut data, referral.id);
        refs_keys.push(make_button(name, data.as_str()));
        i = i + 1;
    }
    refs_keys.push(make_button("Назад", "back_to_main"));
    let keyboard = Keyboard { buttons: refs_keys };
    assert(keyboard@ =~= referrals_keyboard(referrals.result@));
    Ok(keyboard)
}

/// The keyboard from which everything starts.
pub fn back_to_main() -> (keyboard: Keyboard)
    ensures
        keyboard@ == main_keyboard(),
{
    let mut buttons: Vec<InlineButton> = Vec::new();
    buttons.push(make_button("Записаться", "get_referrals"));
    let keyboard = Keyboard { buttons };
    assert(keyboard@ =~= main_keyboard());
    keyboard
}

/// The keyboard of the doctors or procedures that a referral offers.
pub fn get_doctors(doctors: &DoctorsInfoParamsResponse) -> (keyboard: Keyboard)
    ensures
        keyboard@ == providers_keyboard(doctors.result),
{
    let mut buttons: Vec<InlineButton> = Vec::new();
    match &doctors.result {
        ResultType::DocArray(list) => {
            let mut i: usize = 0;
            while i < list.len()
                invariant
                    0 <= i <= list.len(),
                    buttons@.len() == i,
                    forall|j: int| 0 <= j < i ==> (#[trigger] buttons@[j])@ == doctor_button(list@[j]),
                decreases list.len() - i,
            {
                let doctor = &list[i];
                let mut name = String::from_str(doctor.main_doctor.first_name.as_str());
                name.append(" ");
                name.append(doctor.main_doctor.second_name.as_str());
                name.append(" ");
                name.append(doctor.main_doctor.last_name.as_str());
                buttons.push(make_button(name.as_str(), "get_shedule"));
                i = i + 1;
            }
            buttons.push(make_button("Назад", "get_referrals"));
            let keyboard = Keyboard { buttons };
            assert(keyboard@ =~= providers_keyboard(doctors.result));
            keyboard
        },
        ResultType::LdpArray(list) => {
            let mut i: usize = 0;
            while i < list.len()
                invariant
                    0 <= i <= list.len(),
                    buttons@.len() == i,
                    forall|j: int| 0 <= j < i ==> (#[trigger] buttons@[j])@ == ldp_button(list@[j]),
                decreases list.len() - i,
            {
                buttons.push(make_button(list[i].name.as_str(), "get_shedule"));
                i = i + 1;
            }
            buttons.push(make_button("Назад", "get_referrals"));
            let keyboard = Keyboard { buttons };
            assert(keyboard@ =~= providers_keyboard(doctors.result));
            keyboard
        },
        ResultType::EmptyObject(_) => {
            buttons.push(make_button("Нет врачей по данному направлению.", "_"));
            buttons.push(make_button("Назад", "get_referrals"));
            let keyboard = Keyboard { buttons };
            assert(keyboard@ =~= providers_keyboard(doctors.result));
            keyboard
        },
    }
}

} // verus!
