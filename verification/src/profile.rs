//! Profile update logic: presence and value checks for the partial
//! update a caller may send. The numeric weight and height values are
//! range-checked at the boundary, where their floating-point form lives;
//! this logic sees only whether they were supplied.

use vstd::prelude::*;
use crate::errors::AppError;
use crate::url::{url_matches, validate_url};
use crate::validation::{
    is_valid_height_unit, is_valid_preference, is_valid_weight_unit, validate_height_unit,
    validate_preference, validate_weight_unit,
};

verus! {

/// A caller-supplied profile update. Every field must be supplied; the
/// options only mirror what the boundary may omit.
pub struct ProfileUpdate {
    /// Display name, 2 to 60 characters.
    pub name: Option<String>,
    /// Image URI; must be a well-formed URL.
    pub image_uri: Option<String>,
    /// Whether a weight value was supplied; its numeric range is checked
    /// at the boundary.
    pub weight_present: bool,
    /// Whether a height value was supplied; its numeric range is checked
    /// at the boundary.
    pub height_present: bool,
    /// Training preference; `CARDIO` or `WEIGHT`.
    pub preference: Option<String>,
    /// Weight unit; `KG` or `LBS`.
    pub weight_unit: Option<String>,
    /// Height unit; `CM` or `INCH`.
    pub height_unit: Option<String>,
}

/// Whether any field of the update is missing.
pub open spec fn spec_has_null_fields(u: ProfileUpdate) -> bool {
    ||| u.name is None
    ||| u.image_uri is None
    ||| !u.weight_present
    ||| !u.height_present
    ||| u.preference is None
    ||| u.weight_unit is None
    ||| u.height_unit is None
}

/// A fully valid update: every field supplied, the enumerated fields
/// carrying accepted values, the image URI a well-formed non-empty URL
/// and the name between 2 and 60 characters.
pub open spec fn is_valid_profile_update(u: ProfileUpdate) -> bool {
    &&& !spec_has_null_fields(u)
    &&& is_valid_preference(u.preference->0@)
    &&& is_valid_weight_unit(u.weight_unit->0@)
    &&& is_valid_height_unit(u.height_unit->0@)
    &&& u.image_uri->0@.len() > 0
    &&& url_matches(u.image_uri->0@)
    &&& 2 <= u.name->0@.len() <= 60
}

/// The message for the first check a bad update fails, in the order the
/// checks run; meaningful only when some check fails.
pub open spec fn profile_error_msg(u: ProfileUpdate) -> Seq<char> {
    if spec_has_null_fields(u) {
        "Fields cannot be null if provided"@
    } else if !is_valid_preference(u.preference->0@) {
        "Preference must be either CARDIO or WEIGHT"@
    } else if !is_valid_weight_unit(u.weight_unit->0@) {
        "Weight unit must be either KG or LBS"@
    } else if !is_valid_height_unit(u.height_unit->0@) {
        "Height unit must be either CM or INCH"@
    } else if u.image_uri->0@.len() == 0 {
        "Image URI cannot be empty if provided"@
    } else if !url_matches(u.image_uri->0@) {
        "Invalid URI. It should be URI"@
    } else {
        "Name must be between 2 and 60 characters"@
    }
}

/// Whether any field of the update is missing.
pub fn has_null_fields(updates: &ProfileUpdate) -> (r: bool)
    ensures
        r == spec_has_null_fields(*updates),
{
    updates.name.is_none() || updates.image_uri.is_none() || !updates.weight_present
        || !updates.height_present || updates.preference.is_none()
        || updates.weight_unit.is_none() || updates.height_unit.is_none()
}

/// Validates a profile update: rejects a missing field, an unknown
/// preference or unit, an empty or malformed image URI, and a name
/// outside 2 to 60 characters — and accepts exactly the updates that pass
/// every one of those checks. Every failure is a caller error.
pub fn validate_profile_update(updates: &ProfileUpdate) -> (r: Result<(), AppError>)
    ensures
        r is Ok <==> is_valid_profile_update(*updates),
        r matches Err(e) ==> e is BadRequest && e.msg_view() == profile_error_msg(*updates),
{
    if has_null_fields(updates) {
        return Err(AppError::BadRequest(String::from_str("Fields cannot be null if provided")));
    }
    if let Some(preference) = &updates.preference {
        validate_preference(preference.as_str())?;
    }
    if let Some(weight_unit) = &updates.weight_unit {
        validate_weight_unit(weight_unit.as_str())?;
    }
    if let Some(height_unit) = &updates.height_unit {
        validate_height_unit(height_unit.as_str())?;
    }
    if let Some(uri) = &updates.image_uri {
        if uri.as_str().unicode_len() == 0 {
            return Err(AppError::BadRequest(String::from_str(
                "Image URI cannot be empty if provided",
            )));
        }
        validate_url(uri.as_str())?;
    }
    if let Some(name) = &updates.name {
        let nlen = name.as_str().unicode_len();
        if nlen < 2 || nlen > 60 {
            return Err(AppError::BadRequest(String::from_str(
                "Name must be between 2 and 60 characters",
            )));
        }
    }
    Ok(())
}

} // verus!
