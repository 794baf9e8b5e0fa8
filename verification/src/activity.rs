//! Activity handling logic: payload validation, the calories formula and
//! the preparation step shared by record creation and update. The store
//! round trips themselves stay with the caller.

use vstd::prelude::*;
use crate::errors::AppError;
use crate::validation::str_eq;

verus! {

/// The payload for creating or updating an activity record. Every field
/// is required; optionality only mirrors what the boundary may omit.
pub struct ActivityRequest {
    /// What was done; must name a known activity type.
    pub activity_type: Option<String>,
    /// When it was done, as an RFC 3339 timestamp.
    pub done_at: Option<String>,
    /// For how long, in minutes; at least 1.
    pub duration_in_minutes: Option<i32>,
}

/// The identity key of a user row, as fetched from the store.
#[derive(Debug)]
pub struct GetUserId {
    /// The user's unique identifier, rendered as text.
    pub user_id: String,
}

/// A validated activity payload, ready for the store write: all fields
/// present and checked, the timestamp parsed, the calories computed.
#[derive(Debug)]
pub struct PreparedActivity {
    /// The validated activity type.
    pub activity_type: String,
    /// The RFC 3339 timestamp text as received.
    pub done_at: String,
    /// The parsed timestamp, in milliseconds since the epoch.
    pub done_at_millis: i64,
    /// The validated duration, in minutes.
    pub duration_in_minutes: i32,
    /// The computed calories burned.
    pub calories_burned: i32,
}

/// Calories burned per minute for an activity type, when the type is
/// known.
pub open spec fn spec_calories_rate(t: Seq<char>) -> Option<int> {
    if t == "Walking"@ || t == "Yoga"@ || t == "Stretching"@ {
        Some(4int)
    } else if t == "Cycling"@ || t == "Swimming"@ || t == "Dancing"@ {
        Some(8int)
    } else if t == "Hiking"@ || t == "Running"@ || t == "HIIT"@ || t == "JumpRope"@ {
        Some(10int)
    } else {
        None
    }
}

/// What an RFC 3339 timestamp parses to, in milliseconds since the epoch:
/// `None` exactly when the text is not a valid RFC 3339 date-time. This is
/// a function of the text alone.
pub uninterp spec fn rfc3339_millis(s: Seq<char>) -> Option<i64>;

/// Relies on `chrono::DateTime::parse_from_rfc3339`: parses the timestamp
/// and converts it to an epoch offset, a function of the text alone.
#[verifier::external_body]
fn parse_rfc3339(s: &str) -> (r: Option<i64>)
    ensures
        r == rfc3339_millis(s@),
{
    chrono::DateTime::parse_from_rfc3339(s).ok().map(|d| d.timestamp_millis())
}

/// Computes the calories burned by `duration` minutes of `activity_type`:
/// four, eight or ten calories per minute depending on the type, and a
/// caller error for an unknown type. The bound on `duration` is what keeps
/// the product inside `i32`.
pub fn calculate_calories_burned(activity_type: &str, duration: i32) -> (r: Result<i32, AppError>)
    requires
        -214748364 <= duration <= 214748364,
    ensures
        match spec_calories_rate(activity_type@) {
            Some(rate) => r matches Ok(c) && c == rate * duration,
            None => r matches Err(e) && e is BadRequest && e.msg_view()
                == "Invalid activity type"@,
        },
{
    if str_eq(activity_type, "Walking") || str_eq(activity_type, "Yoga") || str_eq(
        activity_type,
        "Stretching",
    ) {
        Ok(4 * duration)
    } else if str_eq(activity_type, "Cycling") || str_eq(activity_type, "Swimming") || str_eq(
        activity_type,
        "Dancing",
    ) {
        Ok(8 * duration)
    } else if str_eq(activity_type, "Hiking") || str_eq(activity_type, "Running") || str_eq(
        activity_type,
        "HIIT",
    ) || str_eq(activity_type, "JumpRope") {
        Ok(10 * duration)
    } else {
        Err(AppError::BadRequest(String::from_str("Invalid activity type")))
    }
}

/// The message for the first check an incomplete or malformed payload
/// fails, in the order the checks run; meaningful only when some check
/// fails.
pub open spec fn activity_error_msg(req: ActivityRequest) -> Seq<char> {
    if req.activity_type is None {
        "Activity type is required"@
    } else if req.activity_type->0@.len() < 1 {
        "Activity type cannot be empty"@
    } else if req.done_at is None {
        "Done at is required"@
    } else if req.done_at->0@.len() < 1 {
        "Done at cannot be empty"@
    } else if req.duration_in_minutes is None {
        "Duration is required"@
    } else if req.duration_in_minutes->0 < 1 {
        "Duration must be at least 1 minute"@
    } else if rfc3339_millis(req.done_at->0@) is None {
        "Invalid date format"@
    } else {
        "Invalid activity type"@
    }
}

/// A structurally complete payload: every field present, the type
/// non-empty and the duration at least one minute.
pub open spec fn is_complete_request(req: ActivityRequest) -> bool {
    &&& req.activity_type matches Some(t) && t@.len() >= 1
    &&& req.done_at matches Some(d) && d@.len() >= 1
    &&& req.duration_in_minutes matches Some(m) && m >= 1
}

/// Validates and prepares an activity payload for a store write: checks
/// that every field is present and well formed, that the timestamp is a
/// valid RFC 3339 date-time, and that the activity type is known, then
/// computes the calories burned. Succeeds exactly on payloads that pass
/// all of those checks, and every failure is a caller error.
pub fn prepare_activity(req: &ActivityRequest) -> (r: Result<PreparedActivity, AppError>)
    requires
        req.duration_in_minutes matches Some(m) ==> m <= 214748364,
    ensures
        r matches Err(e) ==> e is BadRequest && e.msg_view() == activity_error_msg(*req),
        r is Ok <==> {
            &&& is_complete_request(*req)
            &&& rfc3339_millis(req.done_at->0@) is Some
            &&& spec_calories_rate(req.activity_type->0@) is Some
        },
        r matches Ok(p) ==> {
            &&& p.activity_type@ == req.activity_type->0@
            &&& p.done_at@ == req.done_at->0@
            &&& rfc3339_millis(req.done_at->0@) == Some(p.done_at_millis)
            &&& p.duration_in_minutes == req.duration_in_minutes->0
            &&& spec_calories_rate(req.activity_type->0@) matches Some(rate) && p.calories_burned
                == rate * req.duration_in_minutes->0
        },
{
    let activity_type = match &req.activity_type {
        None => {
            return Err(AppError::BadRequest(String::from_str("Activity type is required")));
        },
        Some(t) => t,
    };
    if activity_type.as_str().unicode_len() < 1 {
        return Err(AppError::BadRequest(String::from_str("Activity type cannot be empty")));
    }
    let done_at = match &req.done_at {
        None => {
            return Err(AppError::BadRequest(String::from_str("Done at is required")));
        },
        Some(d) => d,
    };
    if done_at.as_str().unicode_len() < 1 {
        return Err(AppError::BadRequest(String::from_str("Done at cannot be empty")));
    }
    let duration = match req.duration_in_minutes {
        None => {
            return Err(AppError::BadRequest(String::from_str("Duration is required")));
        },
        Some(m) => m,
    };
    if duration < 1 {
        return Err(AppError::BadRequest(String::from_str(
            "Duration must be at least 1 minute",
        )));
    }
    let done_at_millis = match parse_rfc3339(done_at.as_str()) {
        None => {
            return Err(AppError::BadRequest(String::from_str("Invalid date format")));
        },
        Some(ms) => ms,
    };
    let calories_burned = match calculate_calories_burned(activity_type.as_str(), duration) {
        Ok(c) => c,
        Err(e) => {
            return Err(e);
        },
    };
    Ok(PreparedActivity {
        activity_type: activity_type.clone(),
        done_at: done_at.clone(),
        done_at_millis,
        duration_in_minutes: duration,
        calories_burned,
    })
}

/// Maps the store's lookup of the caller's identity: an absent row is a
/// not-found failure, a present row hands back its key.
pub fn require_user(found: Option<GetUserId>) -> (r: Result<GetUserId, AppError>)
    ensures
        match r {
            Ok(u) => found matches Some(f) && u.user_id@ == f.user_id@,
            Err(e) => found is None && e is NotFound && e.msg_view() == "User not found"@,
        },
{
    match found {
        None => Err(AppError::NotFound(String::from_str("User not found"))),
        Some(u) => Ok(u),
    }
}

} // verus!
