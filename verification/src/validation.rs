//! Field-level validation rules shared by the profile and registration
//! endpoints: enumerated preference and unit values, and the boundary
//! adapter that turns a field-validation outcome into a typed rejection.

use vstd::prelude::*;
use crate::errors::AppError;

verus! {

/// The accepted training preference values.
pub open spec fn is_valid_preference(s: Seq<char>) -> bool {
    s == "CARDIO"@ || s == "WEIGHT"@
}

/// The accepted weight unit values.
pub open spec fn is_valid_weight_unit(s: Seq<char>) -> bool {
    s == "KG"@ || s == "LBS"@
}

/// The accepted height unit values.
pub open spec fn is_valid_height_unit(s: Seq<char>) -> bool {
    s == "CM"@ || s == "INCH"@
}

/// Maps the outcome of boundary field validation into the error taxonomy:
/// a failure message becomes a `BadRequest` carrying that message.
pub fn validate_payload(validation: Result<(), String>) -> (r: Result<(), AppError>)
    ensures
        validation is Ok <==> r is Ok,
        validation matches Err(m) ==> (r matches Err(e)
            && e matches AppError::BadRequest(got) && got@ == m@),
{
    match validation {
        Ok(()) => Ok(()),
        Err(m) => Err(AppError::BadRequest(m)),
    }
}

/// Accepts exactly the preference values `CARDIO` and `WEIGHT`.
pub fn validate_preference(preference: &str) -> (r: Result<(), AppError>)
    ensures
        r is Ok <==> is_valid_preference(preference@),
        r matches Err(e) ==> e is BadRequest && e.msg_view()
            == "Preference must be either CARDIO or WEIGHT"@,
{
    if str_eq(preference, "CARDIO") || str_eq(preference, "WEIGHT") {
        Ok(())
    } else {
        Err(AppError::BadRequest(String::from_str(
            "Preference must be either CARDIO or WEIGHT",
        )))
    }
}

/// Accepts exactly the weight units `KG` and `LBS`.
pub fn validate_weight_unit(weight_unit: &str) -> (r: Result<(), AppError>)
    ensures
        r is Ok <==> is_valid_weight_unit(weight_unit@),
        r matches Err(e) ==> e is BadRequest && e.msg_view()
            == "Weight unit must be either KG or LBS"@,
{
    if str_eq(weight_unit, "KG") || str_eq(weight_unit, "LBS") {
        Ok(())
    } else {
        Err(AppError::BadRequest(String::from_str(
            "Weight unit must be either KG or LBS",
        )))
    }
}

/// Accepts exactly the height units `CM` and `INCH`.
pub fn validate_height_unit(height_unit: &str) -> (r: Result<(), AppError>)
    ensures
        r is Ok <==> is_valid_height_unit(height_unit@),
        r matches Err(e) ==> e is BadRequest && e.msg_view()
            == "Height unit must be either CM or INCH"@,
{
    if str_eq(height_unit, "CM") || str_eq(height_unit, "INCH") {
        Ok(())
    } else {
        Err(AppError::BadRequest(String::from_str(
            "Height unit must be either CM or INCH",
        )))
    }
}

/// Character-wise string equality on `&str`.
pub fn str_eq(a: &str, b: &str) -> (r: bool)
    ensures
        r <==> a@ == b@,
{
    let a_len = a.unicode_len();
    let b_len = b.unicode_len();
    if a_len != b_len {
        assert(a@ != b@) by {
            assert(a@.len() != b@.len());
        }
        return false;
    }
    let mut i: usize = 0;
    while i < a_len
        invariant
            i <= a_len,
            a_len == a@.len(),
            b_len == b@.len(),
            a_len == b_len,
            forall|j: int| 0 <= j < i ==> a@[j] == b@[j],
        decreases a_len - i,
    {
        if a.get_char(i) != b.get_char(i) {
            assert(a@ != b@);
            return false;
        }
        i += 1;
    }
    assert(a@ =~= b@);
    true
}

} // verus!
