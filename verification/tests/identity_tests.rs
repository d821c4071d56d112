use savedata_resigner::app::SaveDataApp;
use savedata_resigner::errors::IdentityFault;

#[test]
fn accepts_known_good_identity() {
    assert_eq!(SaveDataApp::validate_steam_id("76561197960265728"), Ok(()));
}

#[test]
fn accepts_identity_in_middle_of_range() {
    assert_eq!(SaveDataApp::validate_steam_id("76561198000000000"), Ok(()));
}

#[test]
fn rejects_empty_identity() {
    assert_eq!(SaveDataApp::validate_steam_id(""), Err(IdentityFault::Empty));
}

#[test]
fn rejects_sixteen_digit_identity() {
    assert_eq!(
        SaveDataApp::validate_steam_id("7656119796026572"),
        Err(IdentityFault::WrongLength)
    );
}

#[test]
fn rejects_eighteen_digit_identity() {
    assert_eq!(
        SaveDataApp::validate_steam_id("765611979602657280"),
        Err(IdentityFault::WrongLength)
    );
}

#[test]
fn rejects_non_numeric_identity() {
    assert_eq!(
        SaveDataApp::validate_steam_id("7656119796026572x"),
        Err(IdentityFault::NonNumeric)
    );
}

#[test]
fn rejects_bad_prefix() {
    assert_eq!(
        SaveDataApp::validate_steam_id("86561197960265728"),
        Err(IdentityFault::BadPrefix)
    );
}

#[test]
fn rejects_all_nines_even_with_seventeen_digits() {
    // 17 digits and numeric, but the prefix check fires first.
    assert_eq!(
        SaveDataApp::validate_steam_id("99999999999999999"),
        Err(IdentityFault::BadPrefix)
    );
}

#[test]
fn rejects_too_small_identity() {
    assert_eq!(
        SaveDataApp::validate_steam_id("76561190000000000"),
        Err(IdentityFault::TooSmall)
    );
}

#[test]
fn lower_bound_is_inclusive() {
    assert_eq!(SaveDataApp::validate_steam_id("76561197960265728"), Ok(()));
    assert_eq!(
        SaveDataApp::validate_steam_id("76561197960265727"),
        Err(IdentityFault::TooSmall)
    );
}
