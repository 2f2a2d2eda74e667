//! The commands of a user: what each of them asks of the store, and what
//! the bot answers.

use crate::date::{date_of, dmy_text, lemma_date_of_view, parsed_date, Date, Ymd};
use crate::store::{
    first_of_chat, lemma_first_of_chat_is_stored, with_birth_date, with_insurance, RecordStore,
    UserRecord,
};
use crate::text::{
    all_digits, decimal_value, lemma_decimal_value_bound, parse_decimal, pow10,
    push_signed_decimal, signed_decimal_text,
};
use vstd::prelude::*;

verus! {

/// The answer to `start` where the chat has a record already.
pub const ALREADY_KNOWN_TEXT: &'static str =
    "Пользователь с вашими данными найден. Обновление базы не требуется.";

/// The answer to `start` once the record of the chat has been created.
pub const CREATED_TEXT: &'static str =
    "Пользователь с вашими данными не найден. Инициализирована новая запись. Используйте команду `/help` для получения справки.";

/// The answer to `start` where the record could not be created.
pub const NOT_CREATED_TEXT: &'static str =
    "Не удалось инициализировать запись. Попробуйте позже или обратитесь к автору этого ужаса за помощью.";

/// The answer to an insurance number that is not sixteen digits.
pub const OMS_FORMAT_TEXT: &'static str =
    "Полис должен быть указан в формате 16 чисел без дополнительных символов и пробелов.";

/// The answer to a birth date that is no date.
pub const DATE_FORMAT_TEXT: &'static str =
    "Дата рождения должена быть указана в формате ДД.ММ.ГГГГ без дополнительных символов и пробелов.";

/// The answer to a command that needs the record of a chat that has none.
pub const NOT_FOUND_TEXT: &'static str =
    "Не найдена запись с вашим id в системе бота. Попробуйте заново использовать команду `/start` или обратитесь к автору этого ужаса, если это не помогло.";

/// The answer where the insurance number could not be stored.
pub const OMS_NOT_UPDATED_TEXT: &'static str =
    "Не удалось обновить ваш полис. Попробуйте позже или обратитесь к автору этого безобразия.";

/// The answer where the birth date could not be stored.
pub const DATE_NOT_UPDATED_TEXT: &'static str =
    "Не удалось обновить вашу дату рождения. Попробуйте позже или обратитесь к автору этого безобразия.";

/// What `info` shows in place of a value that the user has not given.
pub const NOT_SET_TEXT: &'static str = "не указан";

/// A command of a user.
#[derive(Debug)]
pub enum EmCommand {
    /// Show the list of commands.
    Help,
    /// Make the chat known to the bot.
    Start,
    /// Change the insurance number.
    OmsCard(String),
    /// Change the birth date.
    DateBirth(String),
    /// Show what the bot holds of the user.
    Info,
}

/// What is to be done on a command, once the record of the chat has been
/// looked up.
#[derive(Debug)]
pub enum CommandPlan {
    /// Answer with the list of commands.
    ShowHelp,
    /// Answer with the given text, and change nothing.
    Reply(String),
    /// Create the record of the chat.
    Create { chat_id: i64, user_id: i64 },
    /// Store the insurance number in the record.
    SetInsurance { record: UserRecord, number: i64 },
    /// Store the birth date in the record.
    SetBirthDate { record: UserRecord, date: Date },
}

/// A plan, with its text and its date as values.
pub ghost enum PlanView {
    ShowHelp,
    Reply(Seq<char>),
    Create { chat_id: i64, user_id: i64 },
    SetInsurance { record: UserRecord, number: i64 },
    SetBirthDate { record: UserRecord, date: Ymd },
}

impl View for CommandPlan {
    type V = PlanView;

    open spec fn view(&self) -> PlanView {
        match *self {
            CommandPlan::ShowHelp => PlanView::ShowHelp,
            CommandPlan::Reply(text) => PlanView::Reply(text@),
            CommandPlan::Create { chat_id, user_id } => PlanView::Create { chat_id, user_id },
            CommandPlan::SetInsurance { record, number } => PlanView::SetInsurance {
                record,
                number,
            },
            CommandPlan::SetBirthDate { record, date } => PlanView::SetBirthDate {
                record,
                date: date@,
            },
        }
    }
}

/// Whether `s` is an insurance number: sixteen digits and nothing else.
pub open spec fn is_insurance_number(s: Seq<char>) -> bool {
    s.len() == 16 && all_digits(s)
}

/// The insurance number that `oms` holds, if it is sixteen digits.
pub fn parse_oms_card(oms: &str) -> (number: Option<i64>)
    ensures
        number is Some <==> is_insurance_number(oms@),
        number matches Some(n) ==> n == decimal_value(oms@),
{
    if oms.unicode_len() != 16 {
        return None;
    }
    proof {
        if all_digits(oms@) {
            lemma_decimal_value_bound(oms@);
            reveal_with_fuel(pow10, 17);
        }
    }
    match parse_decimal(oms) {
        Some(n) => Some(n as i64),
        None => None,
    }
}

/// What `start` asks for: nothing where the chat has a record, else a record
/// for it.
pub open spec fn start_plan(chat_id: i64, user_id: i64, existing: Option<UserRecord>) -> PlanView {
    match existing {
        Some(_) => PlanView::Reply(ALREADY_KNOWN_TEXT@),
        None => PlanView::Create { chat_id, user_id },
    }
}

/// What `omscard` asks for. A text that is no insurance number is turned
/// down before anything else is looked at; then the chat must have a record.
pub open spec fn oms_card_plan(oms: Seq<char>, existing: Option<UserRecord>) -> PlanView {
    if !is_insurance_number(oms) {
        PlanView::Reply(OMS_FORMAT_TEXT@)
    } else {
        match existing {
            None => PlanView::Reply(NOT_FOUND_TEXT@),
            Some(record) => PlanView::SetInsurance { record, number: decimal_value(oms) as i64 },
        }
    }
}

/// What `datebirth` asks for. A text that is no date of the form day, month,
/// year is turned down before anything else is looked at; then the chat must
/// have a record.
pub open spec fn date_birth_plan(date: Seq<char>, existing: Option<UserRecord>) -> PlanView {
    match parsed_date(date, "%d.%m.%Y"@) {
        None => PlanView::Reply(DATE_FORMAT_TEXT@),
        Some(date) => match existing {
            None => PlanView::Reply(NOT_FOUND_TEXT@),
            Some(record) => PlanView::SetBirthDate { record, date },
        },
    }
}

/// The insurance number as `info` shows it.
pub open spec fn oms_card_shown(oms_card: Option<i64>) -> Seq<char> {
    match oms_card {
        Some(number) => signed_decimal_text(number as int),
        None => NOT_SET_TEXT@,
    }
}

/// The birth date as `info` shows it.
pub open spec fn date_birth_shown(date_birth: Option<Date>) -> Seq<char> {
    match date_birth {
        Some(date) => dmy_text(date@),
        None => NOT_SET_TEXT@,
    }
}

/// What `info` answers: the insurance number and the birth date of the
/// record, or that the chat has no record.
pub open spec fn info_text(existing: Option<UserRecord>) -> Seq<char> {
    match existing {
        Some(record) => "Полис ОМС: "@ + oms_card_shown(record.oms_card) + "; \nДата рождения: "@
            + date_birth_shown(record.date_birth) + "."@,
        None => NOT_FOUND_TEXT@,
    }
}

/// What a command asks for, given the record of the chat.
pub open spec fn command_plan(
    command: EmCommand,
    chat_id: i64,
    user_id: i64,
    existing: Option<UserRecord>,
) -> PlanView {
    match command {
        EmCommand::Help => PlanView::ShowHelp,
        EmCommand::Start => start_plan(chat_id, user_id, existing),
        EmCommand::OmsCard(oms) => oms_card_plan(oms@, existing),
        EmCommand::DateBirth(date) => date_birth_plan(date@, existing),
        EmCommand::Info => PlanView::Reply(info_text(existing)),
    }
}

/// What is to be done on `start`.
pub fn start(chat_id: i64, user_id: i64, existing: Option<UserRecord>) -> (plan: CommandPlan)
    ensures
        plan@ == start_plan(chat_id, user_id, existing),
{
    match existing {
        Some(_) => CommandPlan::Reply(String::from_str(ALREADY_KNOWN_TEXT)),
        None => CommandPlan::Create { chat_id, user_id },
    }
}

/// What the bot answers to `start` after the store was asked to create the
/// record.
pub fn start_outcome(created: bool) -> (text: String)
    ensures
        text@ == if created {
            CREATED_TEXT@
        } else {
            NOT_CREATED_TEXT@
        },
{
    if created {
        String::from_str(CREATED_TEXT)
    } else {
        String::from_str(NOT_CREATED_TEXT)
    }
}

/// What is to be done on `omscard`.
pub fn oms_card(oms: &str, existing: Option<UserRecord>) -> (plan: CommandPlan)
    ensures
        plan@ == oms_card_plan(oms@, existing),
{
    match parse_oms_card(oms) {
        None => CommandPlan::Reply(String::from_str(OMS_FORMAT_TEXT)),
        Some(number) => match existing {
            None => CommandPlan::Reply(String::from_str(NOT_FOUND_TEXT)),
            Some(record) => CommandPlan::SetInsurance { record, number },
        },
    }
}

/// What the bot answers to `omscard` after the store was asked to keep the
/// number.
pub fn oms_card_outcome(oms: &str, updated: bool) -> (text: String)
    ensures
        text@ == if updated {
            "Ваш новый полис ОМС "@ + oms@ + "."@
        } else {
            OMS_NOT_UPDATED_TEXT@
        },
{
    if updated {
        let mut text = String::from_str("Ваш новый полис ОМС ");
        text.append(oms);
        text.append(".");
        text
    } else {
        String::from_str(OMS_NOT_UPDATED_TEXT)
    }
}

/// What is to be done on `datebirth`.
pub fn date_birth(date: &str, existing: Option<UserRecord>) -> (plan: CommandPlan)
    ensures
        plan@ == date_birth_plan(date@, existing),
{
    match Date::parse_from_str(date, "%d.%m.%Y") {
        None => CommandPlan::Reply(String::from_str(DATE_FORMAT_TEXT)),
        Some(value) => match existing {
            None => CommandPlan::Reply(String::from_str(NOT_FOUND_TEXT)),
            Some(record) => CommandPlan::SetBirthDate { record, date: value },
        },
    }
}

/// What the bot answers to `datebirth` after the store was asked to keep
/// the date.
pub fn date_birth_outcome(date: &str, updated: bool) -> (text: String)
    ensures
        text@ == if updated {
            "Вашa новая дата рождения "@ + date@ + "."@
        } else {
            DATE_NOT_UPDATED_TEXT@
        },
{
    if updated {
        let mut text = String::from_str("Вашa новая дата рождения ");
        text.append(date);
        text.append(".");
        text
    } else {
        String::from_str(DATE_NOT_UPDATED_TEXT)
    }
}

/// What the bot answers to `info`.
pub fn info(existing: Option<UserRecord>) -> (text: String)
    ensures
        text@ == info_text(existing),
{
    match existing {
        Some(record) => {
            let mut text = String::from_str("Полис ОМС: ");
            match record.oms_card {
                Some(number) => {
                    push_signed_decimal(&mut text, number);
                },
                None => {
                    text.append(NOT_SET_TEXT);
                },
            }
            text.append("; \nДата рождения: ");
            match record.date_birth {
                Some(date) => {
                    text.append(date.format_dmy().as_str());
                },
                None => {
                    text.append(NOT_SET_TEXT);
                },
            }
            text.append(".");
            assert(text@ =~= info_text(existing));
            text
        },
        None => String::from_str(NOT_FOUND_TEXT),
    }
}

/// What is to be done on a command, given the record of the chat.
pub fn plan_command(command: &EmCommand, chat_id: i64, user_id: i64, existing: Option<UserRecord>) -> (plan:
    CommandPlan)
    ensures
        plan@ == command_plan(*command, chat_id, user_id, existing),
{
    match command {
        EmCommand::Help => CommandPlan::ShowHelp,
        EmCommand::Start => start(chat_id, user_id, existing),
        EmCommand::OmsCard(oms) => oms_card(oms.as_str(), existing),
        EmCommand::DateBirth(date) => date_birth(date.as_str(), existing),
        EmCommand::Info => CommandPlan::Reply(info(existing)),
    }
}

/// What a command leaves behind: the records, and what the bot answers;
/// no answer stands for the list of commands.
pub ghost struct Outcome {
    pub records: Seq<UserRecord>,
    pub reply: Option<Seq<char>>,
}

/// What a command of the chat `chat_id` does to a store that holds
/// `records` and would give `next_key` to a new record. The record of the
/// chat is looked up first. A record is created only on `start` of a chat
/// that has none; a value is stored only where it is well formed and the chat
/// has a record; everything else leaves the records as they are.
pub open spec fn command_outcome(
    records: Seq<UserRecord>,
    next_key: int,
    command: EmCommand,
    chat_id: i64,
    user_id: i64,
) -> Outcome {
    let existing = first_of_chat(records, chat_id);
    match command_plan(command, chat_id, user_id, existing) {
        PlanView::ShowHelp => Outcome { records, reply: None },
        PlanView::Reply(text) => Outcome { records, reply: Some(text) },
        PlanView::Create { chat_id, user_id } => if next_key < i32::MAX {
            Outcome {
                records: records.push(
                    UserRecord {
                        id: next_key as i32,
                        user_id,
                        chat_id,
                        oms_card: None,
                        date_birth: None,
                    },
                ),
                reply: Some(CREATED_TEXT@),
            }
        } else {
            Outcome { records, reply: Some(NOT_CREATED_TEXT@) }
        },
        PlanView::SetInsurance { record, number } => Outcome {
            records: with_insurance(records, record.id, number),
            reply: Some("Ваш новый полис ОМС "@ + command->OmsCard_0@ + "."@),
        },
        PlanView::SetBirthDate { record, date } => Outcome {
            records: with_birth_date(records, record.id, date_of(date)),
            reply: Some("Вашa новая дата рождения "@ + command->DateBirth_0@ + "."@),
        },
    }
}

/// The text of an answer that may be missing.
pub open spec fn reply_view(reply: Option<String>) -> Option<Seq<char>> {
    match reply {
        Some(text) => Some(text@),
        None => None,
    }
}

/// Carries out a command of the chat `chat_id` on the store and returns what
/// the bot answers; no answer stands for the list of commands.
pub fn run_command(store: &mut RecordStore, command: &EmCommand, chat_id: i64, user_id: i64) -> (reply:
    Option<String>)
    requires
        old(store).wf(),
    ensures
        final(store).wf(),
        final(store)@ == command_outcome(
            old(store)@,
            old(store).next_key(),
            *command,
            chat_id,
            user_id,
        ).records,
        reply_view(reply) == command_outcome(
            old(store)@,
            old(store).next_key(),
            *command,
            chat_id,
            user_id,
        ).reply,
{
    let existing = store.find_by_chat_id(chat_id);
    proof {
        lemma_first_of_chat_is_stored(store@, chat_id);
    }
    match command {
        EmCommand::Help => None,
        EmCommand::Info => Some(info(existing)),
        EmCommand::Start => match start(chat_id, user_id, existing) {
            CommandPlan::Create { chat_id, user_id } => {
                let created = store.create_for_chat(chat_id, user_id);
                Some(start_outcome(created.is_ok()))
            },
            CommandPlan::Reply(text) => Some(text),
            _ => None,
        },
        EmCommand::OmsCard(oms) => match oms_card(oms.as_str(), existing) {
            CommandPlan::SetInsurance { record, number } => {
                proof {
                    let i = choose|i: int| 0 <= i < store@.len() && store@[i] == record;
                    assert(crate::store::has_key_at(store@, record.id, i));
                }
                let updated = store.update_insurance(&record, number);
                Some(oms_card_outcome(oms.as_str(), updated.is_ok()))
            },
            CommandPlan::Reply(text) => Some(text),
            _ => None,
        },
        EmCommand::DateBirth(text) => match date_birth(text.as_str(), existing) {
            CommandPlan::SetBirthDate { record, date } => {
                proof {
                    let i = choose|i: int| 0 <= i < store@.len() && store@[i] == record;
                    assert(crate::store::has_key_at(store@, record.id, i));
                    lemma_date_of_view(date);
                }
                let updated = store.update_birth_date(&record, date);
                Some(date_birth_outcome(text.as_str(), updated.is_ok()))
            },
            CommandPlan::Reply(reply) => Some(reply),
            _ => None,
        },
    }
}

/// A command whose value is not well formed changes no record, whatever the
/// store holds: an insurance number that is not sixteen digits and a birth
/// date that is no date are turned down before the store is touched.
pub proof fn lemma_rejected_before_any_change(
    records: Seq<UserRecord>,
    next_key: int,
    command: EmCommand,
    chat_id: i64,
    user_id: i64,
)
    requires
        match command {
            EmCommand::OmsCard(oms) => !is_insurance_number(oms@),
            EmCommand::DateBirth(date) => parsed_date(date@, "%d.%m.%Y"@) is None,
            _ => false,
        },
    ensures
        command_outcome(records, next_key, command, chat_id, user_id).records == records,
        command_outcome(records, next_key, command, chat_id, user_id).reply == Some(
            match command {
                EmCommand::OmsCard(_) => OMS_FORMAT_TEXT@,
                _ => DATE_FORMAT_TEXT@,
            },
        ),
{
}

} // verus!
