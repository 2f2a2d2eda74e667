//! The request for the doctors or procedures of a referral, and the answer
//! to it.

use crate::date::{date_from_str, Date, Ymd};
use crate::json::{
    array_at, as_text, at_most_one, find_member, get_array, get_member, get_text, get_u32,
    get_u64, member, members_named, members_of, optional_member, text_at, u32_at, u64_at, Found,
    Json,
};
use crate::parsable::basic::BasicRequest;
use vstd::prelude::*;

verus! {

/// The parameters of the method that lists the doctors or procedures of a
/// referral.
#[allow(non_snake_case)]
#[derive(Debug)]
pub struct DoctorsInfoParamsRequest {
    pub omsNumber: String,
    pub birthDate: String,
    pub referralId: u64,
}

impl BasicRequest<DoctorsInfoParamsRequest> {
    /// The request for the doctors or procedures of the referral
    /// `referral_id` of the patient with the given insurance number and
    /// birth date.
    pub fn new(id: Option<String>, oms_number: String, birth_date: String, referral_id: u64) -> (request:
        Self)
        ensures
            request.id == id,
            request.jsonrpc@ == "2.0"@,
            request.method@ == "getDoctorsInfo"@,
            request.params.omsNumber == oms_number,
            request.params.birthDate == birth_date,
            request.params.referralId == referral_id,
    {
        Self {
            id,
            jsonrpc: String::from_str("2.0"),
            method: String::from_str("getDoctorsInfo"),
            params: DoctorsInfoParamsRequest {
                omsNumber: oms_number,
                birthDate: birth_date,
                referralId: referral_id,
            },
        }
    }
}

/// The answer to a request for the doctors or procedures of a referral.
#[derive(Debug)]
pub struct DoctorsInfoParamsResponse {
    pub result: ResultType,
}

/// What a referral offers: procedures, doctors, or nothing.
#[derive(Debug)]
pub enum ResultType {
    LdpArray(Vec<LdpInfo>),
    DocArray(Vec<DoctorInfo>),
    /// Nothing is offered. The service signals this by an object in place of
    /// a list; its entries, in the order of the document, are kept.
    EmptyObject(Vec<(String, String)>),
}

/// The value that stands for an answer without entries.
#[derive(Debug)]
pub struct Empty;

/// A procedure that a referral offers.
#[derive(Debug)]
pub struct LdpInfo {
    pub id: u64,
    pub lpu_id: u64,
    pub name: String,
    pub ldp_type: Vec<LdpType>,
    pub complex_resource: Vec<ComplexResource>,
}

/// The type of a procedure.
#[derive(Debug)]
pub struct LdpType {
    pub code: String,
    pub name: String,
}

/// A doctor that a referral offers.
#[derive(Debug)]
pub struct DoctorInfo {
    pub id: u64,
    pub lpu_id: u64,
    pub name: String,
    pub ar_speciality_id: u32,
    pub ar_speciality_name: String,
    pub main_doctor: MainDoctor,
    pub complex_resource: Vec<ComplexResource>,
}

/// The person behind a doctor's entry.
#[derive(Debug)]
pub struct MainDoctor {
    pub speciality_name: String,
    pub speciality_id: u32,
    pub first_name: String,
    pub last_name: String,
    pub second_name: String,
}

/// A resource slot: a unit that can be booked where it has a room.
#[derive(Debug)]
pub struct ComplexResource {
    pub id: u64,
    pub name: String,
    pub room: Option<Room>,
}

/// A room with the date on which it is free.
#[derive(Debug)]
pub struct Room {
    pub id: u64,
    pub number: String,
    pub lpu_id: u32,
    pub lpu_short_name: String,
    pub default_address: String,
    pub availability_date: Date,
}

/// An entry that has resource slots.
pub trait HasComplexResource {
    /// The resource slots of the entry, in order.
    spec fn slots(&self) -> Seq<ComplexResource>;

    /// The resource slots of the entry.
    fn complex_resource(&self) -> (slots: &Vec<ComplexResource>)
        ensures
            slots@ == self.slots(),
    ;

    /// Whether a resource slot has a room.
    fn is_room(c_r: ComplexResource) -> (present: bool)
        ensures
            present == c_r.room.is_some(),
    {
        c_r.room.is_some()
    }
}

impl HasComplexResource for LdpInfo {
    open spec fn slots(&self) -> Seq<ComplexResource> {
        self.complex_resource@
    }

    fn complex_resource(&self) -> (slots: &Vec<ComplexResource>) {
        &self.complex_resource
    }
}

impl HasComplexResource for DoctorInfo {
    open spec fn slots(&self) -> Seq<ComplexResource> {
        self.complex_resource@
    }

    fn complex_resource(&self) -> (slots: &Vec<ComplexResource>) {
        &self.complex_resource
    }
}

/// The date in the member `key`: a string that holds a date in the notation
/// of year, month and day.
pub open spec fn date_at(members: Seq<(String, Json)>, key: Seq<char>) -> Option<Ymd> {
    match text_at(members, key) {
        Some(text) => date_from_str(text),
        None => None,
    }
}

impl Room {
    /// Whether a document has the shape of a room: an object with the
    /// members `id`, `number`, `lpuId`, `lpuShortName`, `defaultAddress` and
    /// `availabilityDate`, each once and of its type.
    pub open spec fn is_shape(json: Json) -> bool {
        let m = members_of(json);
        &&& json is Object
        &&& u64_at(m, "id"@) is Some
        &&& text_at(m, "number"@) is Some
        &&& u32_at(m, "lpuId"@) is Some
        &&& text_at(m, "lpuShortName"@) is Some
        &&& text_at(m, "defaultAddress"@) is Some
        &&& date_at(m, "availabilityDate"@) is Some
    }

    /// Whether the room is the one that a document describes.
    pub open spec fn holds(self, json: Json) -> bool {
        let m = members_of(json);
        &&& u64_at(m, "id"@) == Some(self.id)
        &&& text_at(m, "number"@) == Some(self.number@)
        &&& u32_at(m, "lpuId"@) == Some(self.lpu_id)
        &&& text_at(m, "lpuShortName"@) == Some(self.lpu_short_name@)
        &&& text_at(m, "defaultAddress"@) == Some(self.default_address@)
        &&& date_at(m, "availabilityDate"@) == Some(self.availability_date@)
    }

    /// The room that a document describes, where it has the shape of one.
    pub fn from_json(json: &Json) -> (room: Option<Room>)
        ensures
            room is Some <==> Room::is_shape(*json),
            room matches Some(r) ==> r.holds(*json),
    {
        let m = match json {
            Json::Object(m) => m,
            _ => {
                return None;
            },
        };
        let id = match get_u64(m, "id") {
            Some(v) => v,
            None => {
                return None;
            },
        };
        let number = match get_text(m, "number") {
            Some(v) => v.clone(),
            None => {
                return None;
            },
        };
        let lpu_id = match get_u32(m, "lpuId") {
            Some(v) => v,
            None => {
                return None;
            },
        };
        let lpu_short_name = match get_text(m, "lpuShortName") {
            Some(v) => v.clone(),
            None => {
                return None;
            },
        };
        let default_address = match get_text(m, "defaultAddress") {
            Some(v) => v.clone(),
            None => {
                return None;
            },
        };
        let availability_date = match get_text(m, "availabilityDate") {
            Some(v) => match Date::parse(v.as_str()) {
                Some(date) => date,
                None => {
                    return None;
                },
            },
            None => {
                return None;
            },
        };
        Some(Room { id, number, lpu_id, lpu_short_name, default_address, availability_date })
    }
}

impl ComplexResource {
    /// Whether a document has the shape of a resource slot: an object with
    /// the members `id` and `name`, each once and of its type, and at most
    /// one member `room`, which holds null or has the shape of a room.
    pub open spec fn is_shape(json: Json) -> bool {
        let m = members_of(json);
        &&& json is Object
        &&& u64_at(m, "id"@) is Some
        &&& text_at(m, "name"@) is Some
        &&& at_most_one(m, "room"@)
        &&& optional_member(m, "room"@) matches Some(room) ==> Room::is_shape(room)
    }

    /// Whether the resource slot is the one that a document describes.
    pub open spec fn holds(self, json: Json) -> bool {
        let m = members_of(json);
        &&& u64_at(m, "id"@) == Some(self.id)
        &&& text_at(m, "name"@) == Some(self.name@)
        &&& match optional_member(m, "room"@) {
            Some(room) => self.room matches Some(r) && r.holds(room),
            None => self.room is None,
        }
    }

    /// The resource slot that a document describes, where it has the shape
    /// of one.
    pub fn from_json(json: &Json) -> (slot: Option<ComplexResource>)
        ensures
            slot is Some <==> ComplexResource::is_shape(*json),
            slot matches Some(s) ==> s.holds(*json),
    {
        let m = match json {
            Json::Object(m) => m,
            _ => {
                return None;
            },
        };
        let id = match get_u64(m, "id") {
            Some(v) => v,
            None => {
                return None;
            },
        };
        let name = match get_text(m, "name") {
            Some(v) => v.clone(),
            None => {
                return None;
            },
        };
        let room = match find_member(m, "room") {
            Found::Absent => None,
            Found::One(Json::Null) => None,
            Found::One(described) => match Room::from_json(described) {
                Some(room) => Some(room),
                None => {
                    return None;
                },
            },
            Found::Repeated => {
                return None;
            },
        };
        Some(ComplexResource { id, name, room })
    }

    /// Whether every document has the shape of a resource slot.
    pub open spec fn all_shaped(items: Seq<Json>) -> bool {
        forall|i: int| 0 <= i < items.len() ==> ComplexResource::is_shape(#[trigger] items[i])
    }

    /// Whether the resource slots are those that the documents describe, one
    /// for one.
    pub open spec fn all_hold(slots: Seq<ComplexResource>, items: Seq<Json>) -> bool {
        &&& slots.len() == items.len()
        &&& forall|i: int| 0 <= i < items.len() ==> (#[trigger] slots[i]).holds(items[i])
    }

    /// The resource slots that the documents describe, where each has the
    /// shape of one.
    pub fn from_json_array(items: &Vec<Json>) -> (slots: Option<Vec<ComplexResource>>)
        ensures
            slots is Some <==> ComplexResource::all_shaped(items@),
            slots matches Some(s) ==> ComplexResource::all_hold(s@, items@),
    {
        let mut slots: Vec<ComplexResource> = Vec::new();
        let mut i: usize = 0;
        while i < items.len()
            invariant
                0 <= i <= items.len(),
                slots@.len() == i,
                forall|j: int| 0 <= j < i ==> ComplexResource::is_shape(#[trigger] items@[j]),
                forall|j: int| 0 <= j < i ==> (#[trigger] slots@[j]).holds(items@[j]),
            decreases items.len() - i,
        {
            match ComplexResource::from_json(&items[i]) {
                Some(slot) => {
                    slots.push(slot);
                },
                None => {
                    return None;
                },
            }
            i = i + 1;
        }
        Some(slots)
    }
}

impl LdpType {
    /// Whether a document has the shape of a type of procedure: an object
    /// with the members `code` and `name`, each once and a string.
    pub open spec fn is_shape(json: Json) -> bool {
        let m = members_of(json);
        &&& json is Object
        &&& text_at(m, "code"@) is Some
        &&& text_at(m, "name"@) is Some
    }

    /// Whether the type of procedure is the one that a document describes.
    pub open spec fn holds(self, json: Json) -> bool {
        let m = members_of(json);
        &&& text_at(m, "code"@) == Some(self.code@)
        &&& text_at(m, "name"@) == Some(self.name@)
    }

    /// The type of procedure that a document describes, where it has the
    /// shape of one.
    pub fn from_json(json: &Json) -> (ldp_type: Option<LdpType>)
        ensures
            ldp_type is Some <==> LdpType::is_shape(*json),
            ldp_type matches Some(t) ==> t.holds(*json),
    {
        let m = match json {
            Json::Object(m) => m,
            _ => {
                return None;
            },
        };
        let code = match get_text(m, "code") {
            Some(v) => v.clone(),
            None => {
                return None;
            },
        };
        let name = match get_text(m, "name") {
            Some(v) => v.clone(),
            None => {
                return None;
            },
        };
        Some(LdpType { code, name })
    }

    /// Whether every document has the shape of a type of procedure.
    pub open spec fn all_shaped(items: Seq<Json>) -> bool {
        forall|i: int| 0 <= i < items.len() ==> LdpType::is_shape(#[trigger] items[i])
    }

    /// Whether the types of procedure are those that the documents describe,
    /// one for one.
    pub open spec fn all_hold(types: Seq<LdpType>, items: Seq<Json>) -> bool {
        &&& types.len() == items.len()
        &&& forall|i: int| 0 <= i < items.len() ==> (#[trigger] types[i]).holds(items[i])
    }

    /// The types of procedure that the documents describe, where each has
    /// the shape of one.
    pub fn from_json_array(items: &Vec<Json>) -> (types: Option<Vec<LdpType>>)
        ensures
            types is Some <==> LdpType::all_shaped(items@),
            types matches Some(t) ==> LdpType::all_hold(t@, items@),
    {
        let mut types: Vec<LdpType> = Vec::new();
        let mut i: usize = 0;
        while i < items.len()
            invariant
                0 <= i <= items.len(),
                types@.len() == i,
                forall|j: int| 0 <= j < i ==> LdpType::is_shape(#[trigger] items@[j]),
                forall|j: int| 0 <= j < i ==> (#[trigger] types@[j]).holds(items@[j]),
            decreases items.len() - i,
        {
            match LdpType::from_json(&items[i]) {
                Some(ldp_type) => {
                    types.push(ldp_type);
                },
                None => {
                    return None;
                },
            }
            i = i + 1;
        }
        Some(types)
    }
}

/// The resource slots in the member `key`, where it is an array of documents
/// that each have the shape of one.
pub open spec fn slots_at(members: Seq<(String, Json)>, key: Seq<char>) -> Option<Seq<Json>> {
    match array_at(members, key) {
        Some(items) => if ComplexResource::all_shaped(items) {
            Some(items)
        } else {
            None
        },
        None => None,
    }
}

/// The resource slots in the member `key`.
pub fn get_slots(members: &Vec<(String, Json)>, key: &str) -> (slots: Option<Vec<ComplexResource>>)
    ensures
        slots is Some <==> slots_at(members@, key@) is Some,
        slots matches Some(s) ==> ComplexResource::all_hold(s@, slots_at(members@, key@)->Some_0),
{
    match get_array(members, key) {
        Some(items) => ComplexResource::from_json_array(items),
        None => None,
    }
}

impl LdpInfo {
    /// Whether a document has the shape of a procedure: an object with the
    /// members `id`, `lpuId`, `name`, `ldpType` and `complexResource`, each
    /// once and of its type.
    pub open spec fn is_shape(json: Json) -> bool {
        let m = members_of(json);
        &&& json is Object
        &&& u64_at(m, "id"@) is Some
        &&& u64_at(m, "lpuId"@) is Some
        &&& text_at(m, "name"@) is Some
        &&& array_at(m, "ldpType"@) matches Some(types) && LdpType::all_shaped(types)
        &&& slots_at(m, "complexResource"@) is Some
    }

    /// Whether the procedure is the one that a document describes.
    pub open spec fn holds(self, json: Json) -> bool {
        let m = members_of(json);
        &&& u64_at(m, "id"@) == Some(self.id)
        &&& u64_at(m, "lpuId"@) == Some(self.lpu_id)
        &&& text_at(m, "name"@) == Some(self.name@)
        &&& array_at(m, "ldpType"@) matches Some(types) && LdpType::all_hold(self.ldp_type@, types)
        &&& slots_at(m, "complexResource"@) matches Some(slots) && ComplexResource::all_hold(
            self.complex_resource@,
            slots,
        )
    }

    /// The procedure that a document describes, where it has the shape of
    /// one.
    pub fn from_json(json: &Json) -> (ldp: Option<LdpInfo>)
        ensures
            ldp is Some <==> LdpInfo::is_shape(*json),
            ldp matches Some(l) ==> l.holds(*json),
    {
        let m = match json {
            Json::Object(m) => m,
            _ => {
                return None;
            },
        };
        let id = match get_u64(m, "id") {
            Some(v) => v,
            None => {
                return None;
            },
        };
        let lpu_id = match get_u64(m, "lpuId") {
            Some(v) => v,
            None => {
                return None;
            },
        };
        let name = match get_text(m, "name") {
            Some(v) => v.clone(),
            None => {
                return None;
            },
        };
        let ldp_type = match get_array(m, "ldpType") {
            Some(items) => match LdpType::from_json_array(items) {
                Some(v) => v,
                None => {
                    return None;
                },
            },
            None => {
                return None;
            },
        };
        let complex_resource = match get_slots(m, "complexResource") {
            Some(v) => v,
            None => {
                return None;
            },
        };
        Some(LdpInfo { id, lpu_id, name, ldp_type, complex_resource })
    }

    /// Whether every document has the shape of a procedure.
    pub open spec fn all_shaped(items: Seq<Json>) -> bool {
        forall|i: int| 0 <= i < items.len() ==> LdpInfo::is_shape(#[trigger] items[i])
    }

    /// Whether the procedures are those that the documents describe, one for
    /// one.
    pub open spec fn all_hold(ldps: Seq<LdpInfo>, items: Seq<Json>) -> bool {
        &&& ldps.len() == items.len()
        &&& forall|i: int| 0 <= i < items.len() ==> (#[trigger] ldps[i]).holds(items[i])
    }

    /// The procedures that the documents describe, where each has the shape
    /// of one.
    pub fn from_json_array(items: &Vec<Json>) -> (ldps: Option<Vec<LdpInfo>>)
        ensures
            ldps is Some <==> LdpInfo::all_shaped(items@),
            ldps matches Some(l) ==> LdpInfo::all_hold(l@, items@),
    {
        let mut ldps: Vec<LdpInfo> = Vec::new();
        let mut i: usize = 0;
        while i < items.len()
            invariant
                0 <= i <= items.len(),
                ldps@.len() == i,
                forall|j: int| 0 <= j < i ==> LdpInfo::is_shape(#[trigger] items@[j]),
                forall|j: int| 0 <= j < i ==> (#[trigger] ldps@[j]).holds(items@[j]),
            decreases items.len() - i,
        {
            match LdpInfo::from_json(&items[i]) {
                Some(ldp) => {
                    ldps.push(ldp);
                },
                None => {
                    return None;
                },
            }
            i = i + 1;
        }
        Some(ldps)
    }
}

impl MainDoctor {
    /// Whether a document has the shape of the person behind a doctor's
    /// entry: an object with the members `specialityName`, `specialityId`,
    /// `firstName`, `lastName` and `secondName`, each once and of its type.
    pub open spec fn is_shape(json: Json) -> bool {
        let m = members_of(json);
        &&& json is Object
        &&& text_at(m, "specialityName"@) is Some
        &&& u32_at(m, "specialityId"@) is Some
        &&& text_at(m, "firstName"@) is Some
        &&& text_at(m, "lastName"@) is Some
        &&& text_at(m, "secondName"@) is Some
    }

    /// Whether the person is the one that a document describes.
    pub open spec fn holds(self, json: Json) -> bool {
        let m = members_of(json);
        &&& text_at(m, "specialityName"@) == Some(self.speciality_name@)
        &&& u32_at(m, "specialityId"@) == Some(self.speciality_id)
        &&& text_at(m, "firstName"@) == Some(self.first_name@)
        &&& text_at(m, "lastName"@) == Some(self.last_name@)
        &&& text_at(m, "secondName"@) == Some(self.second_name@)
    }

    /// The person that a document describes, where it has the shape of one.
    pub fn from_json(json: &Json) -> (person: Option<MainDoctor>)
        ensures
            person is Some <==> MainDoctor::is_shape(*json),
            person matches Some(p) ==> p.holds(*json),
    {
        let m = match json {
            Json::Object(m) => m,
            _ => {
                return None;
            },
        };
        let speciality_name = match get_text(m, "specialityName") {
            Some(v) => v.clone(),
            None => {
                return None;
            },
        };
        let speciality_id = match get_u32(m, "specialityId") {
            Some(v) => v,
            None => {
                return None;
            },
        };
        let first_name = match get_text(m, "firstName") {
            Some(v) => v.clone(),
            None => {
                return None;
            },
        };
        let last_name = match get_text(m, "lastName") {
            Some(v) => v.clone(),
            None => {
                return None;
            },
        };
        let second_name = match get_text(m, "secondName") {
            Some(v) => v.clone(),
            None => {
                return None;
            },
        };
        Some(MainDoctor { speciality_name, speciality_id, first_name, last_name, second_name })
    }
}

impl DoctorInfo {
    /// Whether a document has the shape of a doctor: an object with the
    /// members `id`, `lpuId`, `name`, `arSpecialityId`, `arSpecialityName`,
    /// `mainDoctor` and `complexResource`, each once and of its type.
    pub open spec fn is_shape(json: Json) -> bool {
        let m = members_of(json);
        &&& json is Object
        &&& u64_at(m, "id"@) is Some
        &&& u64_at(m, "lpuId"@) is Some
        &&& text_at(m, "name"@) is Some
        &&& u32_at(m, "arSpecialityId"@) is Some
        &&& text_at(m, "arSpecialityName"@) is Some
        &&& member(m, "mainDoctor"@) matches Some(person) && MainDoctor::is_shape(person)
        &&& slots_at(m, "complexResource"@) is Some
    }

    /// Whether the doctor is the one that a document describes.
    pub open spec fn holds(self, json: Json) -> bool {
        let m = members_of(json);
        &&& u64_at(m, "id"@) == Some(self.id)
        &&& u64_at(m, "lpuId"@) == Some(self.lpu_id)
        &&& text_at(m, "name"@) == Some(self.name@)
        &&& u32_at(m, "arSpecialityId"@) == Some(self.ar_speciality_id)
        &&& text_at(m, "arSpecialityName"@) == Some(self.ar_speciality_name@)
        &&& member(m, "mainDoctor"@) matches Some(person) && self.main_doctor.holds(person)
        &&& slots_at(m, "complexResource"@) matches Some(slots) && ComplexResource::all_hold(
            self.complex_resource@,
            slots,
        )
    }

    /// The doctor that a document describes, where it has the shape of one.
    pub fn from_json(json: &Json) -> (doctor: Option<DoctorInfo>)
        ensures
            doctor is Some <==> DoctorInfo::is_shape(*json),
            doctor matches Some(d) ==> d.holds(*json),
    {
        let m = match json {
            Json::Object(m) => m,
            _ => {
                return None;
            },
        };
        let id = match get_u64(m, "id") {
            Some(v) => v,
            None => {
                return None;
            },
        };
        let lpu_id = match get_u64(m, "lpuId") {
            Some(v) => v,
            None => {
                return None;
            },
        };
        let name = match get_text(m, "name") {
            Some(v) => v.clone(),
            None => {
                return None;
            },
        };
        let ar_speciality_id = match get_u32(m, "arSpecialityId") {
            Some(v) => v,
            None => {
                return None;
            },
        };
        let ar_speciality_name = match get_text(m, "arSpecialityName") {
            Some(v) => v.clone(),
            None => {
                return None;
            },
        };
        let main_doctor = match get_member(m, "mainDoctor") {
            Some(person) => match MainDoctor::from_json(person) {
                Some(v) => v,
                None => {
                    return None;
                },
            },
            None => {
                return None;
            },
        };
        let complex_resource = match get_slots(m, "complexResource") {
            Some(v) => v,
            None => {
                return None;
            },
        };
        Some(
            DoctorInfo {
                id,
                lpu_id,
                name,
                ar_speciality_id,
                ar_speciality_name,
                main_doctor,
                complex_resource,
            },
        )
    }

    /// Whether every document has the shape of a doctor.
    pub open spec fn all_shaped(items: Seq<Json>) -> bool {
        forall|i: int| 0 <= i < items.len() ==> DoctorInfo::is_shape(#[trigger] items[i])
    }

    /// Whether the doctors are those that the documents describe, one for
    /// one.
    pub open spec fn all_hold(doctors: Seq<DoctorInfo>, items: Seq<Json>) -> bool {
        &&& doctors.len() == items.len()
        &&& forall|i: int| 0 <= i < items.len() ==> (#[trigger] doctors[i]).holds(items[i])
    }

    /// The doctors that the documents describe, where each has the shape of
    /// one.
    pub fn from_json_array(items: &Vec<Json>) -> (doctors: Option<Vec<DoctorInfo>>)
        ensures
            doctors is Some <==> DoctorInfo::all_shaped(items@),
            doctors matches Some(d) ==> DoctorInfo::all_hold(d@, items@),
    {
        let mut doctors: Vec<DoctorInfo> = Vec::new();
        let mut i: usize = 0;
        while i < items.len()
            invariant
                0 <= i <= items.len(),
                doctors@.len() == i,
                forall|j: int| 0 <= j < i ==> DoctorInfo::is_shape(#[trigger] items@[j]),
                forall|j: int| 0 <= j < i ==> (#[trigger] doctors@[j]).holds(items@[j]),
            decreases items.len() - i,
        {
            match DoctorInfo::from_json(&items[i]) {
                Some(doctor) => {
                    doctors.push(doctor);
                },
                None => {
                    return None;
                },
            }
            i = i + 1;
        }
        Some(doctors)
    }
}

/// Which of its three shapes an answer has.
#[derive(Clone, Copy, Debug, PartialEq, Eq, Structural)]
pub enum ListingKind {
    /// A list of procedures.
    Ldp,
    /// A list of doctors.
    Doctor,
    /// An object in place of a list: nothing is offered.
    Empty,
}

/// Whether a document is an array of documents that each have the shape of
/// a procedure.
pub open spec fn is_ldp_array(json: Json) -> bool {
    json is Array && LdpInfo::all_shaped(json->Array_0@)
}

/// Whether a document is an array of documents that each have the shape of
/// a doctor.
pub open spec fn is_doctor_array(json: Json) -> bool {
    json is Array && DoctorInfo::all_shaped(json->Array_0@)
}

/// Whether a document is an object whose members all hold strings.
pub open spec fn is_text_object(json: Json) -> bool {
    json is Object && forall|i: int|
        0 <= i < members_of(json).len() ==> (#[trigger] members_of(json)[i]).1 is Text
}

/// Whether the pairs are the members of an object of strings, one for one.
pub open spec fn entries_hold(entries: Seq<(String, String)>, members: Seq<(String, Json)>) -> bool {
    &&& entries.len() == members.len()
    &&& forall|i: int|
        0 <= i < members.len() ==> (#[trigger] entries[i]).0@ == members[i].0@ && as_text(
            members[i].1,
        ) == Some(entries[i].1@)
}

impl ResultType {
    /// Which shape a document is read as. The shapes are tried in a fixed
    /// order, and the first that fits decides: a list of procedures, then a
    /// list of doctors, then an object of strings. A document of no such
    /// shape is not read.
    pub open spec fn kind_of(json: Json) -> Option<ListingKind> {
        if is_ldp_array(json) {
            Some(ListingKind::Ldp)
        } else if is_doctor_array(json) {
            Some(ListingKind::Doctor)
        } else if is_text_object(json) {
            Some(ListingKind::Empty)
        } else {
            None
        }
    }

    /// Whether the listing is what a document describes, read as the shape
    /// that decides.
    pub open spec fn holds(self, json: Json) -> bool {
        match self {
            ResultType::LdpArray(ldps) => {
                &&& ResultType::kind_of(json) == Some(ListingKind::Ldp)
                &&& LdpInfo::all_hold(ldps@, json->Array_0@)
            },
            ResultType::DocArray(doctors) => {
                &&& ResultType::kind_of(json) == Some(ListingKind::Doctor)
                &&& DoctorInfo::all_hold(doctors@, json->Array_0@)
            },
            ResultType::EmptyObject(entries) => {
                &&& ResultType::kind_of(json) == Some(ListingKind::Empty)
                &&& entries_hold(entries@, members_of(json))
            },
        }
    }

    /// The listing that a document describes, where it has one of the three
    /// shapes.
    pub fn from_json(json: &Json) -> (listing: Option<ResultType>)
        ensures
            listing is Some <==> ResultType::kind_of(*json) is Some,
            listing matches Some(l) ==> l.holds(*json),
    {
        match json {
            Json::Array(items) => {
                match LdpInfo::from_json_array(items) {
                    Some(ldps) => {
                        return Some(ResultType::LdpArray(ldps));
                    },
                    None => {},
                }
                match DoctorInfo::from_json_array(items) {
                    Some(doctors) => Some(ResultType::DocArray(doctors)),
                    None => None,
                }
            },
            Json::Object(members) => {
                let mut entries: Vec<(String, String)> = Vec::new();
                let mut i: usize = 0;
                while i < members.len()
                    invariant
                        0 <= i <= members.len(),
                        entries@.len() == i,
                        *json is Object,
                        members_of(*json) == members@,
                        forall|j: int| 0 <= j < i ==> (#[trigger] members@[j]).1 is Text,
                        forall|j: int|
                            0 <= j < i ==> (#[trigger] entries@[j]).0@ == members@[j].0@
                                && as_text(members@[j].1) == Some(entries@[j].1@),
                    decreases members.len() - i,
                {
                    match &members[i].1 {
                        Json::Text(text) => {
                            entries.push((members[i].0.clone(), text.clone()));
                        },
                        _ => {
                            assert(!(members_of(*json)[i as int].1 is Text));
                            return None;
                        },
                    }
                    i = i + 1;
                }
                Some(ResultType::EmptyObject(entries))
            },
            _ => None,
        }
    }
}

impl DoctorsInfoParamsResponse {
    /// Whether a document has the shape of an answer on the doctors of a
    /// referral: an object with one member `result` that has one of the
    /// three shapes of a listing.
    pub open spec fn is_shape(json: Json) -> bool {
        &&& json is Object
        &&& member(members_of(json), "result"@) matches Some(result) && ResultType::kind_of(result)
            is Some
    }

    /// Whether the answer is the one that a document describes.
    pub open spec fn holds(self, json: Json) -> bool {
        member(members_of(json), "result"@) matches Some(result) && self.result.holds(result)
    }

    /// The answer that a document describes, where it has the shape of one.
    pub fn from_json(json: &Json) -> (response: Option<DoctorsInfoParamsResponse>)
        ensures
            response is Some <==> DoctorsInfoParamsResponse::is_shape(*json),
            response matches Some(r) ==> r.holds(*json),
    {
        let m = match json {
            Json::Object(m) => m,
            _ => {
                return None;
            },
        };
        match get_member(m, "result") {
            Some(described) => match ResultType::from_json(described) {
                Some(result) => Some(DoctorsInfoParamsResponse { result }),
                None => None,
            },
            None => None,
        }
    }
}

/// An array of documents that each have the shape of a procedure is read as
/// a list of procedures, whatever else it may be.
pub proof fn lemma_ldp_array_is_read_as_procedures(json: Json)
    requires
        is_ldp_array(json),
    ensures
        ResultType::kind_of(json) == Some(ListingKind::Ldp),
{
}

/// An array of documents that each have the shape of a doctor is read as a
/// list of doctors, unless each of them has the shape of a procedure too.
pub proof fn lemma_doctor_array_is_read_as_doctors(json: Json)
    requires
        is_doctor_array(json),
        !is_ldp_array(json),
    ensures
        ResultType::kind_of(json) == Some(ListingKind::Doctor),
{
}

/// An object is never read as a list, and an object without members is read
/// as the answer that offers nothing.
pub proof fn lemma_object_is_read_as_nothing_offered(json: Json)
    requires
        json is Object,
    ensures
        ResultType::kind_of(json) != Some(ListingKind::Ldp),
        ResultType::kind_of(json) != Some(ListingKind::Doctor),
        members_of(json).len() == 0 ==> ResultType::kind_of(json) == Some(ListingKind::Empty),
{
}

/// A document with the shape of a doctor and without a member `ldpType`
/// does not have the shape of a procedure.
pub proof fn lemma_doctor_without_types_is_no_procedure(json: Json)
    requires
        DoctorInfo::is_shape(json),
        members_named(members_of(json), "ldpType"@).len() == 0,
    ensures
        !LdpInfo::is_shape(json),
{
}

} // verus!
