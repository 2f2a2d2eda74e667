//! The requests to the appointment service, and the texts that report what
//! it answered.

use crate::date::{dmy_text, iso_text, parsed_date, Date};
use crate::parsable::basic::BasicRequest;
use crate::parsable::doctors::{
    ComplexResource, DoctorInfo, DoctorsInfoParamsRequest, DoctorsInfoParamsResponse,
    HasComplexResource, LdpInfo, ResultType,
};
use crate::parsable::referrals::{
    ReferralInfo, ReferralsInfoParamsRequest, ReferralsInfoRequest, ReferralsInfoResponse,
};
use crate::store::UserRecord;
use crate::text::{push_signed_decimal, signed_decimal_text};
use vstd::prelude::*;

verus! {

/// The line of one resource slot: the date on which its room is free, in
/// brackets; nothing for a slot without a room.
pub open spec fn room_line(slot: ComplexResource) -> Seq<char> {
    match slot.room {
        Some(room) => "["@ + dmy_text(room.availability_date@) + "] \n"@,
        None => Seq::empty(),
    }
}

/// The lines of the resource slots, in their order.
pub open spec fn room_lines(slots: Seq<ComplexResource>) -> Seq<char>
    decreases slots.len(),
{
    if slots.len() == 0 {
        Seq::empty()
    } else {
        room_lines(slots.drop_last()) + room_line(slots.last())
    }
}

/// What is said of the free rooms of an entry: the lines of its slots and an
/// empty line, or one fixed line where no slot has a room.
pub open spec fn free_rooms_text(slots: Seq<ComplexResource>) -> Seq<char> {
    if room_lines(slots).len() == 0 {
        "Нет записей.\n"@
    } else {
        room_lines(slots) + "\n"@
    }
}

fn free_rooms(slots: &Vec<ComplexResource>) -> (text: String)
    ensures
        text@ == free_rooms_text(slots@),
{
    let mut rooms_string = String::new();
    let mut i: usize = 0;
    while i < slots.len()
        invariant
            0 <= i <= slots.len(),
            rooms_string@ == room_lines(slots@.take(i as int)),
        decreases slots.len() - i,
    {
        proof {
            assert(slots@.take(i + 1).drop_last() =~= slots@.take(i as int));
            assert(slots@.take(i + 1).last() == slots@[i as int]);
        }
        match &slots[i].room {
            Some(room) => {
                let date = room.availability_date.format_dmy();
                rooms_string.append("[");
                rooms_string.append(date.as_str());
                rooms_string.append("] \n");
                assert(rooms_string@ =~= room_lines(slots@.take(i + 1)));
            },
            None => {
                assert(rooms_string@ =~= room_lines(slots@.take(i + 1)));
            },
        }
        i = i + 1;
    }
    proof {
        assert(slots@.take(slots.len() as int) =~= slots@);
    }
    if rooms_string.as_str().is_empty() {
        String::from_str("Нет записей.\n")
    } else {
        rooms_string.append("\n");
        rooms_string
    }
}

/// What is said of the free rooms of an entry.
pub fn collect_free_rooms_data<T: HasComplexResource>(resource: T) -> (text: String)
    ensures
        text@ == free_rooms_text(resource.slots()),
{
    free_rooms(resource.complex_resource())
}

/// What is said of one procedure: its name, then its free rooms.
pub open spec fn ldp_block(ldp: LdpInfo) -> Seq<char> {
    "- "@ + ldp.name@ + ": \n"@ + free_rooms_text(ldp.complex_resource@)
}

/// What is said of one doctor: first, second and last name, then the free
/// rooms.
pub open spec fn doctor_block(doctor: DoctorInfo) -> Seq<char> {
    "- "@ + doctor.main_doctor.first_name@ + " "@ + doctor.main_doctor.second_name@ + " "@
        + doctor.main_doctor.last_name@ + ": \n"@ + free_rooms_text(doctor.complex_resource@)
}

/// What is said of the procedures, in their order.
pub open spec fn ldp_blocks(ldps: Seq<LdpInfo>) -> Seq<char>
    decreases ldps.len(),
{
    if ldps.len() == 0 {
        Seq::empty()
    } else {
        ldp_blocks(ldps.drop_last()) + ldp_block(ldps.last())
    }
}

/// What is said of the doctors, in their order.
pub open spec fn doctor_blocks(doctors: Seq<DoctorInfo>) -> Seq<char>
    decreases doctors.len(),
{
    if doctors.len() == 0 {
        Seq::empty()
    } else {
        doctor_blocks(doctors.drop_last()) + doctor_block(doctors.last())
    }
}

/// What is said of the entries that a referral offers, before the closing
/// empty line.
pub open spec fn listing_body(listing: ResultType) -> Seq<char> {
    match listing {
        ResultType::LdpArray(ldps) => ldp_blocks(ldps@),
        ResultType::DocArray(doctors) => doctor_blocks(doctors@),
        ResultType::EmptyObject(_) => Seq::empty(),
    }
}

/// What is said of what a referral offers: its entries with their free
/// rooms, or one fixed line where it offers none; then an empty line.
pub open spec fn listing_text(listing: ResultType) -> Seq<char> {
    if listing_body(listing).len() == 0 {
        "- Нет врачей по данному направлению.\n"@ + "\n"@
    } else {
        listing_body(listing) + "\n"@
    }
}

/// The text on the doctors or procedures of a referral and their free rooms.
pub fn get_doctors_with_shedule(doctors: &DoctorsInfoParamsResponse) -> (text: String)
    ensures
        text@ == listing_text(doctors.result),
{
    let mut doctors_string = String::new();
    match &doctors.result {
        ResultType::LdpArray(result) => {
            let mut i: usize = 0;
            while i < result.len()
                invariant
                    0 <= i <= result.len(),
                    doctors_string@ == ldp_blocks(result@.take(i as int)),
                decreases result.len() - i,
            {
                proof {
                    assert(result@.take(i + 1).drop_last() =~= result@.take(i as int));
                    assert(result@.take(i + 1).last() == result@[i as int]);
                }
                let ldp = &result[i];
                doctors_string.append("- ");
                doctors_string.append(ldp.name.as_str());
                doctors_string.append(": \n");
                let free_rooms = free_rooms(&ldp.complex_resource);
                doctors_string.append(free_rooms.as_str());
                assert(doctors_string@ =~= ldp_blocks(result@.take(i + 1)));
                i = i + 1;
            }
            proof {
                assert(result@.take(result.len() as int) =~= result@);
            }
        },
        ResultType::DocArray(result) => {
            let mut i: usize = 0;
            while i < result.len()
                invariant
                    0 <= i <= result.len(),
                    doctors_string@ == doctor_blocks(result@.take(i as int)),
                decreases result.len() - i,
            {
                proof {
                    assert(result@.take(i + 1).drop_last() =~= result@.take(i as int));
                    assert(result@.take(i + 1).last() == result@[i as int]);
                }
                let doctor = &result[i];
                doctors_string.append("- ");
                doctors_string.append(doctor.main_doctor.first_name.as_str());
                doctors_string.append(" ");
                doctors_string.append(doctor.main_doctor.second_name.as_str());
                doctors_string.append(" ");
                doctors_string.append(doctor.main_doctor.last_name.as_str());
                doctors_string.append(": \n");
                let free_rooms = free_rooms(&doctor.complex_resource);
                doctors_string.append(free_rooms.as_str());
                assert(doctors_string@ =~= doctor_blocks(result@.take(i + 1)));
                i = i + 1;
            }
            proof {
                assert(result@.take(result.len() as int) =~= result@);
            }
        },
        ResultType::EmptyObject(_) => {},
    }
    if doctors_string.as_str().is_empty() {
        doctors_string.append("- Нет врачей по данному направлению.\n");
    }
    doctors_string.append("\n");
    assert(doctors_string@ =~= listing_text(doctors.result));
    doctors_string
}

/// Why the text on the referrals of a user cannot be written.
#[derive(Clone, Copy, Debug, PartialEq, Eq, Structural)]
pub enum ReferralError {
    /// The day on which a referral begins is no date.
    BadStartTime,
    /// The day on which a referral ends is no date.
    BadEndTime,
    /// A referral names neither a specialty nor a type of procedure.
    NoTarget,
    /// There are not as many answers on doctors as there are referrals.
    MissingListing,
}

/// What a referral sends the patient to: the specialty where it names one,
/// else the type of procedure.
pub open spec fn referral_target(referral: ReferralInfo) -> Option<Seq<char>> {
    match referral.to_doctor {
        Some(doctor) => Some(doctor.speciality_name@),
        None => match referral.to_ldp {
            Some(ldp) => Some(ldp.ldp_type_name@),
            None => None,
        },
    }
}

/// The line of one referral: the days on which it begins and ends, in
/// brackets, and what it sends the patient to.
pub open spec fn referral_line_text(referral: ReferralInfo) -> Result<Seq<char>, ReferralError> {
    match parsed_date(referral.start_time@, "%Y-%m-%d"@) {
        None => Err(ReferralError::BadStartTime),
        Some(start) => match parsed_date(referral.end_time@, "%Y-%m-%d"@) {
            None => Err(ReferralError::BadEndTime),
            Some(end) => match referral_target(referral) {
                None => Err(ReferralError::NoTarget),
                Some(name) => Ok(
                    "["@ + dmy_text(start) + " - "@ + dmy_text(end) + "] "@ + name + "\n"@,
                ),
            },
        },
    }
}

/// What is said of one referral: its line, followed by what the answer on
/// its doctors or procedures offers.
#[verifier::opaque]
pub open spec fn referral_block_text(
    referral: ReferralInfo,
    listing: DoctorsInfoParamsResponse,
) -> Result<Seq<char>, ReferralError> {
    match referral_line_text(referral) {
        Err(e) => Err(e),
        Ok(line) => Ok(line + listing_text(listing.result)),
    }
}

/// What is said of the referrals, in their order, each with the answer in
/// the same place of `listings`. The first referral whose line cannot be
/// written decides the error.
pub open spec fn referral_blocks(
    referrals: Seq<ReferralInfo>,
    listings: Seq<DoctorsInfoParamsResponse>,
) -> Result<Seq<char>, ReferralError>
    decreases referrals.len(),
{
    if referrals.len() == 0 {
        Ok(Seq::empty())
    } else {
        match referral_blocks(referrals.drop_last(), listings) {
            Err(e) => Err(e),
            Ok(text) => match referral_block_text(
                referrals.last(),
                listings[referrals.len() - 1],
            ) {
                Err(e) => Err(e),
                Ok(block) => Ok(text + block),
            },
        }
    }
}

/// The text on all referrals of a user, under its heading.
pub open spec fn user_referrals_text(
    referrals: Seq<ReferralInfo>,
    listings: Seq<DoctorsInfoParamsResponse>,
) -> Result<Seq<char>, ReferralError> {
    if referrals.len() != listings.len() {
        Err(ReferralError::MissingListing)
    } else {
        match referral_blocks(referrals, listings) {
            Err(e) => Err(e),
            Ok(text) => Ok("Ваши направления: \n"@ + text),
        }
    }
}

/// Whether a text that was written is the one that was asked for.
pub open spec fn written(
    result: Result<String, ReferralError>,
    wanted: Result<Seq<char>, ReferralError>,
) -> bool {
    match result {
        Ok(text) => wanted == Ok::<Seq<char>, ReferralError>(text@),
        Err(e) => wanted == Err::<Seq<char>, ReferralError>(e),
    }
}

/// What a referral sends the patient to.
pub fn referral_name(referral: &ReferralInfo) -> (name: Option<&str>)
    ensures
        match name {
            Some(n) => referral_target(*referral) == Some(n@),
            None => referral_target(*referral) is None,
        },
{
    match &referral.to_doctor {
        Some(doctor) => Some(doctor.speciality_name.as_str()),
        None => match &referral.to_ldp {
            Some(ldp) => Some(ldp.ldp_type_name.as_str()),
            None => None,
        },
    }
}

/// The line of one referral.
pub fn referral_line(referral: &ReferralInfo) -> (line: Result<String, ReferralError>)
    ensures
        written(line, referral_line_text(*referral)),
{
    let start = match Date::parse_from_str(referral.start_time.as_str(), "%Y-%m-%d") {
        Some(date) => date,
        None => {
            return Err(ReferralError::BadStartTime);
        },
    };
    let end = match Date::parse_from_str(referral.end_time.as_str(), "%Y-%m-%d") {
        Some(date) => date,
        None => {
            return Err(ReferralError::BadEndTime);
        },
    };
    let name = match referral_name(referral) {
        Some(name) => name,
        None => {
            return Err(ReferralError::NoTarget);
        },
    };
    let mut line = String::from_str("[");
    line.append(start.format_dmy().as_str());
    line.append(" - ");
    line.append(end.format_dmy().as_str());
    line.append("] ");
    line.append(name);
    line.append("\n");
    proof {
        assert(line@ =~= "["@ + dmy_text(start@) + " - "@ + dmy_text(end@) + "] "@ + name@ + "\n"@);
    }
    Ok(line)
}

/// What is said of one referral and of what it offers.
pub fn referral_block(referral: &ReferralInfo, listing: &DoctorsInfoParamsResponse) -> (block:
    Result<String, ReferralError>)
    ensures
        written(block, referral_block_text(*referral, *listing)),
{
    proof {
        reveal(referral_block_text);
    }
    match referral_line(referral) {
        Ok(line) => {
            let mut block = line;
            let doc_str = get_doctors_with_shedule(listing);
            block.append(doc_str.as_str());
            Ok(block)
        },
        Err(e) => Err(e),
    }
}

/// The text on all referrals of a user with what each of them offers;
/// `listings` holds, in the order of the referrals, the answer on the doctors
/// or procedures of each.
pub fn get_user_referrals(
    referrals: &ReferralsInfoResponse,
    listings: &Vec<DoctorsInfoParamsResponse>,
) -> (message: Result<String, ReferralError>)
    ensures
        written(message, user_referrals_text(referrals.result@, listings@)),
{
    let refs = &referrals.result;
    if refs.len() != listings.len() {
        return Err(ReferralError::MissingListing);
    }
    let mut message_string = String::from_str("Ваши направления: \n");
    let ghost heading = message_string@;
    let ghost mut body: Seq<char> = Seq::empty();
    let mut i: usize = 0;
    while i < refs.len()
        invariant
            0 <= i <= refs.len(),
            refs.len() == listings.len(),
            refs@ == referrals.result@,
            heading == "Ваши направления: \n"@,
            referral_blocks(refs@.take(i as int), listings@) == Ok::<Seq<char>, ReferralError>(
                body,
            ),
            message_string@ == heading + body,
        decreases refs.len() - i,
    {
        match referral_block(&refs[i], &listings[i]) {
            Ok(block) => {
                message_string.append(block.as_str());
                proof {
                    lemma_referral_blocks_step(refs@, listings@, i as int);
                    assert(message_string@ =~= heading + (body + block@));
                    body = body + block@;
                }
            },
            Err(e) => {
                proof {
                    lemma_referral_blocks_step(refs@, listings@, i as int);
                    lemma_referral_blocks_error(refs@, listings@, i + 1);
                }
                return Err(e);
            },
        }
        i = i + 1;
    }
    proof {
        assert(refs@.take(refs.len() as int) =~= refs@);
    }
    Ok(message_string)
}

/// What is said of the first `i + 1` referrals is what is said of the first
/// `i`, followed by what is said of the next one.
pub proof fn lemma_referral_blocks_step(
    referrals: Seq<ReferralInfo>,
    listings: Seq<DoctorsInfoParamsResponse>,
    i: int,
)
    requires
        0 <= i < referrals.len(),
    ensures
        referral_blocks(referrals.take(i + 1), listings) == match referral_blocks(
            referrals.take(i),
            listings,
        ) {
            Err(e) => Err::<Seq<char>, ReferralError>(e),
            Ok(text) => match referral_block_text(referrals[i], listings[i]) {
                Err(e) => Err::<Seq<char>, ReferralError>(e),
                Ok(block) => Ok::<Seq<char>, ReferralError>(text + block),
            },
        },
{
    assert(referrals.take(i + 1).drop_last() =~= referrals.take(i));
    assert(referrals.take(i + 1).last() == referrals[i]);
}

/// An error among the first referrals is the error of them all.
pub proof fn lemma_referral_blocks_error(
    referrals: Seq<ReferralInfo>,
    listings: Seq<DoctorsInfoParamsResponse>,
    k: int,
)
    requires
        0 <= k <= referrals.len(),
        referral_blocks(referrals.take(k), listings) is Err,
    ensures
        referral_blocks(referrals, listings) == referral_blocks(referrals.take(k), listings),
    decreases referrals.len() - k,
{
    if k == referrals.len() {
        assert(referrals.take(k) =~= referrals);
    } else {
        assert(referrals.drop_last().take(k) =~= referrals.take(k));
        lemma_referral_blocks_error(referrals.drop_last(), listings, k);
    }
}

/// Where the referrals of a patient are asked for.
pub const REFERRALS_URL: &'static str =
    "https://emias.info/api/emc/appointment-eip/v1/?getReferralsInfo";

/// Where the doctors or procedures of a referral are asked for.
pub const DOCTORS_URL: &'static str =
    "https://emias.info/api/emc/appointment-eip/v1/?getDoctorsInfo";

/// The request for the referrals of the user of `user`.
pub fn get_referrals_obj(user: &UserRecord) -> (request: ReferralsInfoRequest<
    ReferralsInfoParamsRequest,
>)
    requires
        user.eligible(),
    ensures
        request.id matches Some(id) && id@ == "123"@,
        request.jsonrpc@ == "2.0"@,
        request.method@ == "getReferralsInfo"@,
        request.params.omsNumber@ == signed_decimal_text(user.oms_card->Some_0 as int),
        request.params.birthDate@ == iso_text(user.date_birth->Some_0@),
{
    let mut oms_number = String::new();
    let mut birth_date = String::new();
    match (user.oms_card, user.date_birth) {
        (Some(oms), Some(date)) => {
            push_signed_decimal(&mut oms_number, oms);
            birth_date = date.to_iso_string();
            assert(oms_number@ =~= signed_decimal_text(oms as int));
        },
        _ => {},
    }
    ReferralsInfoRequest::<ReferralsInfoParamsRequest>::new(
        Some(String::from_str("123")),
        oms_number,
        birth_date,
    )
}

/// The request for the doctors or procedures of the referral `referral_id`
/// of the user of `user`.
pub fn get_doctors_obj(user: &UserRecord, referral_id: u64) -> (request: BasicRequest<
    DoctorsInfoParamsRequest,
>)
    requires
        user.eligible(),
    ensures
        request.id matches Some(id) && id@ == "123"@,
        request.jsonrpc@ == "2.0"@,
        request.method@ == "getDoctorsInfo"@,
        request.params.omsNumber@ == signed_decimal_text(user.oms_card->Some_0 as int),
        request.params.birthDate@ == iso_text(user.date_birth->Some_0@),
        request.params.referralId == referral_id,
{
    let mut oms_number = String::new();
    let mut birth_date = String::new();
    match (user.oms_card, user.date_birth) {
        (Some(oms), Some(date)) => {
            push_signed_decimal(&mut oms_number, oms);
            birth_date = date.to_iso_string();
            assert(oms_number@ =~= signed_decimal_text(oms as int));
        },
        _ => {},
    }
    BasicRequest::<DoctorsInfoParamsRequest>::new(
        Some(String::from_str("123")),
        oms_number,
        birth_date,
        referral_id,
    )
}

/// Slots without a room leave no line.
pub proof fn lemma_no_room_no_line(slots: Seq<ComplexResource>)
    requires
        forall|i: int| 0 <= i < slots.len() ==> (#[trigger] slots[i]).room is None,
    ensures
        room_lines(slots) == Seq::<char>::empty(),
    decreases slots.len(),
{
    if slots.len() > 0 {
        let front = slots.drop_last();
        assert forall|i: int| 0 <= i < front.len() implies (#[trigger] front[i]).room is None by {
            assert(front[i] == slots[i]);
        }
        lemma_no_room_no_line(front);
        assert(slots.last() == slots[slots.len() - 1]);
        assert(room_lines(slots) =~= Seq::<char>::empty());
    }
}

/// Where no resource slot has a room, the text on the free rooms is the one
/// fixed line that says so.
pub proof fn lemma_no_openings(slots: Seq<ComplexResource>)
    requires
        forall|i: int| 0 <= i < slots.len() ==> (#[trigger] slots[i]).room is None,
    ensures
        free_rooms_text(slots) == "Нет записей.\n"@,
{
    lemma_no_room_no_line(slots);
}

/// Where exactly one resource slot has a room, the lines of the slots are the
/// one line with the date of that room.
pub proof fn lemma_one_room_one_line(slots: Seq<ComplexResource>, k: int)
    requires
        0 <= k < slots.len(),
        slots[k].room is Some,
        forall|i: int| 0 <= i < slots.len() && i != k ==> (#[trigger] slots[i]).room is None,
    ensures
        room_lines(slots) == room_line(slots[k]),
    decreases slots.len(),
{
    let front = slots.drop_last();
    assert(slots.last() == slots[slots.len() - 1]);
    if k == slots.len() - 1 {
        assert forall|i: int| 0 <= i < front.len() implies (#[trigger] front[i]).room is None by {
            assert(front[i] == slots[i]);
        }
        lemma_no_room_no_line(front);
        assert(room_lines(slots) =~= room_line(slots[k]));
    } else {
        assert forall|i: int| 0 <= i < front.len() && i != k implies (
        #[trigger] front[i]).room is None by {
            assert(front[i] == slots[i]);
        }
        assert(front[k] == slots[k]);
        lemma_one_room_one_line(front, k);
        assert(room_lines(slots) =~= room_line(slots[k]));
    }
}

/// Where exactly one resource slot has a room, the text on the free rooms is
/// the date of that room in brackets, as day, month and year, and an empty
/// line: no other date stands in it.
pub proof fn lemma_one_opening(slots: Seq<ComplexResource>, k: int)
    requires
        0 <= k < slots.len(),
        slots[k].room is Some,
        forall|i: int| 0 <= i < slots.len() && i != k ==> (#[trigger] slots[i]).room is None,
    ensures
        free_rooms_text(slots) == "["@ + dmy_text(slots[k].room->Some_0.availability_date@)
            + "] \n"@ + "\n"@,
{
    lemma_one_room_one_line(slots, k);
    reveal_strlit("[");
    assert(room_line(slots[k]).len() > 0);
}

} // verus!
