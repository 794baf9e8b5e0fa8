//! Field validation, the URL grammar, activity preparation, profile
//! updates and upload checks.

use fitbyte::activity::{calculate_calories_burned, prepare_activity, require_user, ActivityRequest, GetUserId};
use fitbyte::profile::{has_null_fields, validate_profile_update, ProfileUpdate};
use fitbyte::upload::{object_name, object_uri, validate_upload};
use fitbyte::url::validate_url;
use fitbyte::validation::{
    validate_height_unit, validate_payload, validate_preference, validate_weight_unit,
};

#[test]
fn preference_values() {
    assert!(validate_preference("CARDIO").is_ok());
    assert!(validate_preference("WEIGHT").is_ok());
    let e = validate_preference("cardio").unwrap_err();
    assert_eq!(e.status_code(), 400);
    assert_eq!(e.message().as_str(), "Preference must be either CARDIO or WEIGHT");
}

#[test]
fn weight_unit_values() {
    assert!(validate_weight_unit("KG").is_ok());
    assert!(validate_weight_unit("LBS").is_ok());
    let e = validate_weight_unit("STONE").unwrap_err();
    assert_eq!(e.message().as_str(), "Weight unit must be either KG or LBS");
}

#[test]
fn height_unit_values() {
    assert!(validate_height_unit("CM").is_ok());
    assert!(validate_height_unit("INCH").is_ok());
    let e = validate_height_unit("M").unwrap_err();
    assert_eq!(e.message().as_str(), "Height unit must be either CM or INCH");
}

#[test]
fn payload_outcome_mapping() {
    assert!(validate_payload(Ok(())).is_ok());
    let e = validate_payload(Err("Duration is required".to_string())).unwrap_err();
    assert_eq!(e.status_code(), 400);
    assert_eq!(e.message().as_str(), "Duration is required");
}

#[test]
fn url_grammar_accepts() {
    assert!(validate_url("http://example.com").is_ok());
    assert!(validate_url("https://example.com").is_ok());
    assert!(validate_url("https://sub.domain-name.org/p/q.png").is_ok());
    assert!(validate_url("http://a.bc").is_ok());
    assert!(validate_url("https://example.com/").is_ok());
}

#[test]
fn url_grammar_rejects() {
    assert!(validate_url("").is_err());
    assert!(validate_url("ftp://example.com").is_err());
    assert!(validate_url("http://example").is_err());
    assert!(validate_url("http://a.c").is_err());
    assert!(validate_url("http://.com").is_err());
    assert!(validate_url("http://ex ample.com").is_err());
    assert!(validate_url("https://example.com/a b").is_err());
    assert!(validate_url("http://example.c0m").is_err());
    assert!(validate_url("https://example.com/a\u{00a0}b").is_err());
    assert!(validate_url("https://example.com/a\u{2028}b").is_err());
    let e = validate_url("nope").unwrap_err();
    assert_eq!(e.message().as_str(), "Invalid URI. It should be URI");
}

#[test]
fn calories_formulas_exact() {
    assert_eq!(calculate_calories_burned("Walking", 30).unwrap(), 120);
    assert_eq!(calculate_calories_burned("Yoga", 1).unwrap(), 4);
    assert_eq!(calculate_calories_burned("Stretching", 10).unwrap(), 40);
    assert_eq!(calculate_calories_burned("Cycling", 30).unwrap(), 240);
    assert_eq!(calculate_calories_burned("Swimming", 5).unwrap(), 40);
    assert_eq!(calculate_calories_burned("Dancing", 2).unwrap(), 16);
    assert_eq!(calculate_calories_burned("Hiking", 30).unwrap(), 300);
    assert_eq!(calculate_calories_burned("Running", 7).unwrap(), 70);
    assert_eq!(calculate_calories_burned("HIIT", 3).unwrap(), 30);
    assert_eq!(calculate_calories_burned("JumpRope", 4).unwrap(), 40);
    let e = calculate_calories_burned("Sleeping", 30).unwrap_err();
    assert_eq!(e.status_code(), 400);
    assert_eq!(e.message().as_str(), "Invalid activity type");
}

fn full_activity() -> ActivityRequest {
    ActivityRequest {
        activity_type: Some("Running".to_string()),
        done_at: Some("2024-01-01T00:00:00Z".to_string()),
        duration_in_minutes: Some(30),
    }
}

#[test]
fn prepare_activity_success() {
    let p = prepare_activity(&full_activity()).unwrap();
    assert_eq!(p.activity_type.as_str(), "Running");
    assert_eq!(p.done_at.as_str(), "2024-01-01T00:00:00Z");
    assert_eq!(p.done_at_millis, 1_704_067_200_000);
    assert_eq!(p.duration_in_minutes, 30);
    assert_eq!(p.calories_burned, 300);
}

#[test]
fn prepare_activity_rejects_missing_fields() {
    let req = ActivityRequest { activity_type: None, ..full_activity() };
    assert_eq!(prepare_activity(&req).unwrap_err().message().as_str(), "Activity type is required");
    let req = ActivityRequest { done_at: None, ..full_activity() };
    assert_eq!(prepare_activity(&req).unwrap_err().message().as_str(), "Done at is required");
    let req = ActivityRequest { duration_in_minutes: None, ..full_activity() };
    assert_eq!(prepare_activity(&req).unwrap_err().message().as_str(), "Duration is required");
    let req = ActivityRequest { activity_type: Some(String::new()), ..full_activity() };
    assert_eq!(
        prepare_activity(&req).unwrap_err().message().as_str(),
        "Activity type cannot be empty"
    );
    let req = ActivityRequest { duration_in_minutes: Some(0), ..full_activity() };
    assert_eq!(
        prepare_activity(&req).unwrap_err().message().as_str(),
        "Duration must be at least 1 minute"
    );
}

#[test]
fn prepare_activity_rejects_bad_date() {
    let req = ActivityRequest { done_at: Some("January first".to_string()), ..full_activity() };
    let e = prepare_activity(&req).unwrap_err();
    assert_eq!(e.status_code(), 400);
    assert_eq!(e.message().as_str(), "Invalid date format");
}

#[test]
fn require_user_mapping() {
    let u = require_user(Some(GetUserId { user_id: "id-1".to_string() })).unwrap();
    assert_eq!(u.user_id.as_str(), "id-1");
    let e = require_user(None).unwrap_err();
    assert_eq!(e.status_code(), 404);
    assert_eq!(e.message().as_str(), "User not found");
}

fn full_profile() -> ProfileUpdate {
    ProfileUpdate {
        name: Some("Jordan Doe".to_string()),
        image_uri: Some("https://img.example.com/me.png".to_string()),
        weight_present: true,
        height_present: true,
        preference: Some("CARDIO".to_string()),
        weight_unit: Some("KG".to_string()),
        height_unit: Some("CM".to_string()),
    }
}

#[test]
fn profile_update_accepts_complete_valid_input() {
    assert!(!has_null_fields(&full_profile()));
    assert!(validate_profile_update(&full_profile()).is_ok());
}

#[test]
fn profile_update_rejects_missing_fields() {
    let u = ProfileUpdate { name: None, ..full_profile() };
    assert!(has_null_fields(&u));
    assert_eq!(
        validate_profile_update(&u).unwrap_err().message().as_str(),
        "Fields cannot be null if provided"
    );
    let u = ProfileUpdate { weight_present: false, ..full_profile() };
    assert!(has_null_fields(&u));
    assert!(validate_profile_update(&u).is_err());
}

#[test]
fn profile_update_rejects_bad_values() {
    let u = ProfileUpdate { preference: Some("BOTH".to_string()), ..full_profile() };
    assert_eq!(
        validate_profile_update(&u).unwrap_err().message().as_str(),
        "Preference must be either CARDIO or WEIGHT"
    );
    let u = ProfileUpdate { weight_unit: Some("KGS".to_string()), ..full_profile() };
    assert!(validate_profile_update(&u).is_err());
    let u = ProfileUpdate { height_unit: Some("FT".to_string()), ..full_profile() };
    assert!(validate_profile_update(&u).is_err());
    let u = ProfileUpdate { image_uri: Some(String::new()), ..full_profile() };
    assert_eq!(
        validate_profile_update(&u).unwrap_err().message().as_str(),
        "Image URI cannot be empty if provided"
    );
    let u = ProfileUpdate { image_uri: Some("not a url".to_string()), ..full_profile() };
    assert_eq!(
        validate_profile_update(&u).unwrap_err().message().as_str(),
        "Invalid URI. It should be URI"
    );
    let u = ProfileUpdate { name: Some("J".to_string()), ..full_profile() };
    assert_eq!(
        validate_profile_update(&u).unwrap_err().message().as_str(),
        "Name must be between 2 and 60 characters"
    );
}

const PNG_MAGIC: [u8; 8] = [0x89, 0x50, 0x4E, 0x47, 0x0D, 0x0A, 0x1A, 0x0A];

#[test]
fn upload_detects_png() {
    let data: Vec<u8> = PNG_MAGIC.to_vec();
    let (mime, ext) = validate_upload(&data).unwrap();
    assert_eq!(mime.as_str(), "image/png");
    assert_eq!(ext.as_str(), "png");
}

#[test]
fn upload_detects_jpeg() {
    let data: Vec<u8> = vec![0xFF, 0xD8, 0xFF, 0xE0, 0x00, 0x10, 0x4A, 0x46, 0x49, 0x46];
    let (mime, ext) = validate_upload(&data).unwrap();
    assert_eq!(mime.as_str(), "image/jpeg");
    assert_eq!(ext.as_str(), "jpg");
}

#[test]
fn upload_rejects_empty_oversized_and_unknown() {
    let e = validate_upload(&Vec::new()).unwrap_err();
    assert_eq!(e.message().as_str(), "File part is missing");

    let mut big: Vec<u8> = PNG_MAGIC.to_vec();
    big.resize(102_401, 0);
    let e = validate_upload(&big).unwrap_err();
    assert_eq!(e.message().as_str(), "File size exceeds 100KiB limit");

    let e = validate_upload(&b"plain text, no magic".to_vec()).unwrap_err();
    assert_eq!(e.message().as_str(), "Unable to detect file type");
}

#[test]
fn upload_rejects_disallowed_type() {
    // A GIF header sniffs fine but is not an accepted image type.
    let data: Vec<u8> = b"GIF89a\x01\x00\x01\x00".to_vec();
    let e = validate_upload(&data).unwrap_err();
    assert_eq!(e.message().as_str(), "Only JPEG, JPG, and PNG files are allowed");
}

#[test]
fn object_names_and_uris() {
    let name = object_name("0192f1a2-aaaa-bbbb-cccc-ddddeeee0001", "png");
    assert_eq!(name.as_str(), "0192f1a2-aaaa-bbbb-cccc-ddddeeee0001.png");
    let uri = object_uri("my-bucket", name.as_str());
    assert_eq!(uri.as_str(), "s3://my-bucket/0192f1a2-aaaa-bbbb-cccc-ddddeeee0001.png");
}

#[test]
fn profile_name_length_bounds() {
    let u = ProfileUpdate { name: Some("ab".to_string()), ..full_profile() };
    assert!(validate_profile_update(&u).is_ok());
    let u = ProfileUpdate { name: Some("a".repeat(60)), ..full_profile() };
    assert!(validate_profile_update(&u).is_ok());
    let u = ProfileUpdate { name: Some("a".repeat(61)), ..full_profile() };
    assert!(validate_profile_update(&u).is_err());
}

#[test]
fn upload_accepts_largest_allowed_file() {
    let mut data: Vec<u8> = PNG_MAGIC.to_vec();
    data.resize(102_400, 0);
    assert!(validate_upload(&data).is_ok());
}
