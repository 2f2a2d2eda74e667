//! The request for the referrals of a patient, and the answer to it.

use crate::json::{
    array_at, at_most_one, find_member, get_array, get_text, get_u32, get_u64, members_of,
    optional_member, text_at, u32_at, u64_at, Found, Json,
};
use std::collections::HashMap;
use vstd::prelude::*;

verus! {

/// A JSON-RPC request for the referrals of a patient.
#[derive(Debug)]
pub struct ReferralsInfoRequest<T> {
    pub id: Option<String>,
    pub jsonrpc: String,
    pub method: String,
    pub params: T,
}

/// The parameters of the method that lists the referrals of a patient.
#[allow(non_snake_case)]
#[derive(Debug)]
pub struct ReferralsInfoParamsRequest {
    pub omsNumber: String,
    pub birthDate: String,
}

impl ReferralsInfoRequest<ReferralsInfoParamsRequest> {
    /// The request for the referrals of the patient with the given insurance
    /// number and birth date.
    pub fn new(id: Option<String>, oms_number: String, birth_date: String) -> (request: Self)
        ensures
            request.id == id,
            request.jsonrpc@ == "2.0"@,
            request.method@ == "getReferralsInfo"@,
            request.params.omsNumber == oms_number,
            request.params.birthDate == birth_date,
    {
        Self {
            id: id,
            jsonrpc: String::from_str("2.0"),
            method: String::from_str("getReferralsInfo"),
            params: ReferralsInfoParamsRequest { omsNumber: oms_number, birthDate: birth_date },
        }
    }
}

/// An answer together with the headers it came with.
#[derive(Debug)]
pub struct BasicResponse<T> {
    pub headers: HashMap<String, String>,
    pub data: T,
}

/// The answer to a request for referrals.
#[derive(Debug)]
pub struct ReferralsInfoResponse {
    pub result: Vec<ReferralInfo>,
}

/// A referral: an authorization that sends a patient to a doctor of some
/// specialty or to a procedure of some type, within a time window.
#[derive(Debug)]
pub struct ReferralInfo {
    pub id: u64,
    pub start_time: String,
    pub end_time: String,
    pub lpu_id: u64,
    pub lpu_name: String,
    pub to_ldp: Option<ToLdp>,
    pub to_doctor: Option<ToDoctor>,
}

/// The type of procedure that a referral sends the patient to.
#[derive(Debug)]
pub struct ToLdp {
    pub ldp_type_id: u64,
    pub ldp_type_name: String,
}

/// The specialty that a referral sends the patient to.
#[derive(Debug)]
pub struct ToDoctor {
    pub speciality_id: u32,
    pub speciality_name: String,
    pub reception_type_id: u32,
}

impl ToLdp {
    /// Whether a document has the shape of the type of procedure of a
    /// referral: an object with the members `ldpTypeId` and `ldpTypeName`,
    /// each once and of its type.
    pub open spec fn is_shape(json: Json) -> bool {
        let m = members_of(json);
        &&& json is Object
        &&& u64_at(m, "ldpTypeId"@) is Some
        &&& text_at(m, "ldpTypeName"@) is Some
    }

    /// Whether the type of procedure is the one that a document describes.
    pub open spec fn holds(self, json: Json) -> bool {
        let m = members_of(json);
        &&& u64_at(m, "ldpTypeId"@) == Some(self.ldp_type_id)
        &&& text_at(m, "ldpTypeName"@) == Some(self.ldp_type_name@)
    }

    /// The type of procedure that a document describes, where it has the
    /// shape of one.
    pub fn from_json(json: &Json) -> (to_ldp: Option<ToLdp>)
        ensures
            to_ldp is Some <==> ToLdp::is_shape(*json),
            to_ldp matches Some(t) ==> t.holds(*json),
    {
        let m = match json {
            Json::Object(m) => m,
            _ => {
                return None;
            },
        };
        let ldp_type_id = match get_u64(m, "ldpTypeId") {
            Some(v) => v,
            None => {
                return None;
            },
        };
        let ldp_type_name = match get_text(m, "ldpTypeName") {
            Some(v) => v.clone(),
            None => {
                return None;
            },
        };
        Some(ToLdp { ldp_type_id, ldp_type_name })
    }
}

impl ToDoctor {
    /// Whether a document has the shape of the specialty of a referral: an
    /// object with the members `specialityId`, `specialityName` and
    /// `receptionTypeId`, each once and of its type.
    pub open spec fn is_shape(json: Json) -> bool {
        let m = members_of(json);
        &&& json is Object
        &&& u32_at(m, "specialityId"@) is Some
        &&& text_at(m, "specialityName"@) is Some
        &&& u32_at(m, "receptionTypeId"@) is Some
    }

    /// Whether the specialty is the one that a document describes.
    pub open spec fn holds(self, json: Json) -> bool {
        let m = members_of(json);
        &&& u32_at(m, "specialityId"@) == Some(self.speciality_id)
        &&& text_at(m, "specialityName"@) == Some(self.speciality_name@)
        &&& u32_at(m, "receptionTypeId"@) == Some(self.reception_type_id)
    }

    /// The specialty that a document describes, where it has the shape of
    /// one.
    pub fn from_json(json: &Json) -> (to_doctor: Option<ToDoctor>)
        ensures
            to_doctor is Some <==> ToDoctor::is_shape(*json),
            to_doctor matches Some(t) ==> t.holds(*json),
    {
        let m = match json {
            Json::Object(m) => m,
            _ => {
                return None;
            },
        };
        let speciality_id = match get_u32(m, "specialityId") {
            Some(v) => v,
            None => {
                return None;
            },
        };
        let speciality_name = match get_text(m, "specialityName") {
            Some(v) => v.clone(),
            None => {
                return None;
            },
        };
        let reception_type_id = match get_u32(m, "receptionTypeId") {
            Some(v) => v,
            None => {
                return None;
            },
        };
        Some(ToDoctor { speciality_id, speciality_name, reception_type_id })
    }
}

impl ReferralInfo {
    /// Whether a document has the shape of a referral: an object with the
    /// members `id`, `startTime`, `endTime`, `lpuId` and `lpuName`, each
    /// once and of its type, and at most one member `toLdp` and one
    /// `toDoctor`, which hold null or have the shape of what they name.
    pub open spec fn is_shape(json: Json) -> bool {
        let m = members_of(json);
        &&& json is Object
        &&& u64_at(m, "id"@) is Some
        &&& text_at(m, "startTime"@) is Some
        &&& text_at(m, "endTime"@) is Some
        &&& u64_at(m, "lpuId"@) is Some
        &&& text_at(m, "lpuName"@) is Some
        &&& at_most_one(m, "toLdp"@)
        &&& optional_member(m, "toLdp"@) matches Some(to_ldp) ==> ToLdp::is_shape(to_ldp)
        &&& at_most_one(m, "toDoctor"@)
        &&& optional_member(m, "toDoctor"@) matches Some(to_doctor) ==> ToDoctor::is_shape(
            to_doctor,
        )
    }

    /// Whether the referral is the one that a document describes.
    pub open spec fn holds(self, json: Json) -> bool {
        let m = members_of(json);
        &&& u64_at(m, "id"@) == Some(self.id)
        &&& text_at(m, "startTime"@) == Some(self.start_time@)
        &&& text_at(m, "endTime"@) == Some(self.end_time@)
        &&& u64_at(m, "lpuId"@) == Some(self.lpu_id)
        &&& text_at(m, "lpuName"@) == Some(self.lpu_name@)
        &&& match optional_member(m, "toLdp"@) {
            Some(to_ldp) => self.to_ldp matches Some(t) && t.holds(to_ldp),
            None => self.to_ldp is None,
        }
        &&& match optional_member(m, "toDoctor"@) {
            Some(to_doctor) => self.to_doctor matches Some(t) && t.holds(to_doctor),
            None => self.to_doctor is None,
        }
    }

    /// The referral that a document describes, where it has the shape of
    /// one.
    pub fn from_json(json: &Json) -> (referral: Option<ReferralInfo>)
        ensures
            referral is Some <==> ReferralInfo::is_shape(*json),
            referral matches Some(r) ==> r.holds(*json),
    {
        let m = match json {
            Json::Object(m) => m,
            _ => {
                return None;
            },
        };
        let id = match get_u64(m, "id") {
            Some(v) => v,
            None => {
                return None;
            },
        };
        let start_time = match get_text(m, "startTime") {
            Some(v) => v.clone(),
            None => {
                return None;
            },
        };
        let end_time = match get_text(m, "endTime") {
            Some(v) => v.clone(),
            None => {
                return None;
            },
        };
        let lpu_id = match get_u64(m, "lpuId") {
            Some(v) => v,
            None => {
                return None;
            },
        };
        let lpu_name = match get_text(m, "lpuName") {
            Some(v) => v.clone(),
            None => {
                return None;
            },
        };
        let to_ldp = match find_member(m, "toLdp") {
            Found::Absent => None,
            Found::One(Json::Null) => None,
            Found::One(described) => match ToLdp::from_json(described) {
                Some(v) => Some(v),
                None => {
                    return None;
                },
            },
            Found::Repeated => {
                return None;
            },
        };
        let to_doctor = match find_member(m, "toDoctor") {
            Found::Absent => None,
            Found::One(Json::Null) => None,
            Found::One(described) => match ToDoctor::from_json(described) {
                Some(v) => Some(v),
                None => {
                    return None;
                },
            },
            Found::Repeated => {
                return None;
            },
        };
        Some(ReferralInfo { id, start_time, end_time, lpu_id, lpu_name, to_ldp, to_doctor })
    }

    /// Whether every document has the shape of a referral.
    pub open spec fn all_shaped(items: Seq<Json>) -> bool {
        forall|i: int| 0 <= i < items.len() ==> ReferralInfo::is_shape(#[trigger] items[i])
    }

    /// Whether the referrals are those that the documents describe, one for
    /// one.
    pub open spec fn all_hold(referrals: Seq<ReferralInfo>, items: Seq<Json>) -> bool {
        &&& referrals.len() == items.len()
        &&& forall|i: int| 0 <= i < items.len() ==> (#[trigger] referrals[i]).holds(items[i])
    }

    /// The referrals that the documents describe, where each has the shape
    /// of one.
    pub fn from_json_array(items: &Vec<Json>) -> (referrals: Option<Vec<ReferralInfo>>)
        ensures
            referrals is Some <==> ReferralInfo::all_shaped(items@),
            referrals matches Some(r) ==> ReferralInfo::all_hold(r@, items@),
    {
        let mut referrals: Vec<ReferralInfo> = Vec::new();
        let mut i: usize = 0;
        while i < items.len()
            invariant
                0 <= i <= items.len(),
                referrals@.len() == i,
                forall|j: int| 0 <= j < i ==> ReferralInfo::is_shape(#[trigger] items@[j]),
                forall|j: int| 0 <= j < i ==> (#[trigger] referrals@[j]).holds(items@[j]),
            decreases items.len() - i,
        {
            match ReferralInfo::from_json(&items[i]) {
                Some(referral) => {
                    referrals.push(referral);
                },
                None => {
                    return None;
                },
            }
            i = i + 1;
        }
        Some(referrals)
    }
}

impl ReferralsInfoResponse {
    /// Whether a document has the shape of an answer on the referrals of a
    /// patient: an object with one member `result` that is an array of
    /// documents that each have the shape of a referral.
    pub open spec fn is_shape(json: Json) -> bool {
        &&& json is Object
        &&& array_at(members_of(json), "result"@) matches Some(items) && ReferralInfo::all_shaped(
            items,
        )
    }

    /// Whether the answer is the one that a document describes.
    pub open spec fn holds(self, json: Json) -> bool {
        array_at(members_of(json), "result"@) matches Some(items) && ReferralInfo::all_hold(
            self.result@,
            items,
        )
    }

    /// The answer that a document describes, where it has the shape of one.
    pub fn from_json(json: &Json) -> (response: Option<ReferralsInfoResponse>)
        ensures
            response is Some <==> ReferralsInfoResponse::is_shape(*json),
            response matches Some(r) ==> r.holds(*json),
    {
        let m = match json {
            Json::Object(m) => m,
            _ => {
                return None;
            },
        };
        match get_array(m, "result") {
            Some(items) => match ReferralInfo::from_json_array(items) {
                Some(result) => Some(ReferralsInfoResponse { result }),
                None => None,
            },
            None => None,
        }
    }
}

} // verus!
