use vk_bootstrap::negotiation::{portability_required, portability_version};
use vk_bootstrap::version::ApiVersion;

#[test]
fn new_keeps_the_three_numbers() {
    let version = ApiVersion::new(1, 3, 126);
    assert_eq!(version.major, 1);
    assert_eq!(version.minor, 3);
    assert_eq!(version.patch, 126);
}

#[test]
fn pack_of_one_zero_zero() {
    assert_eq!(ApiVersion::new(1, 0, 0).pack(), 4194304);
}

#[test]
fn pack_places_each_number() {
    assert_eq!(ApiVersion::new(0, 0, 7).pack(), 7);
    assert_eq!(ApiVersion::new(0, 1, 0).pack(), 4096);
    assert_eq!(ApiVersion::new(1, 3, 126).pack(), (1 << 22) | (3 << 12) | 126);
    assert_eq!(ApiVersion::new(1, 3, 126).pack(), 4206718);
}

#[test]
fn pack_agrees_with_vulkanalia() {
    assert_eq!(ApiVersion::new(1, 2, 3).pack(), vulkanalia::vk::make_version(1, 2, 3));
    assert_eq!(ApiVersion::new(1, 3, 126).pack(), u32::from(vulkanalia::Version::new(1, 3, 126)));
}

#[test]
fn pack_loses_what_does_not_fit() {
    // A major number of 1024 needs bit 32.
    assert_eq!(ApiVersion::new(1024, 0, 0).pack(), 0);
    assert_eq!(ApiVersion::new(1025, 0, 5).pack(), (1 << 22) | 5);
    assert_eq!(ApiVersion::new(0, 1 << 20, 0).pack(), 0);
    assert_eq!(ApiVersion::new(0, 0, u32::MAX).pack(), u32::MAX);
}

#[test]
fn a_version_is_at_least_itself() {
    let version = ApiVersion::new(1, 3, 126);
    assert!(version.is_at_least(&ApiVersion::new(1, 3, 126)));
}

#[test]
fn order_goes_by_major_then_minor_then_patch() {
    let threshold = ApiVersion::new(1, 3, 126);
    assert!(ApiVersion::new(1, 3, 127).is_at_least(&threshold));
    assert!(!ApiVersion::new(1, 3, 125).is_at_least(&threshold));
    assert!(ApiVersion::new(1, 4, 0).is_at_least(&threshold));
    assert!(!ApiVersion::new(1, 2, 999).is_at_least(&threshold));
    assert!(ApiVersion::new(2, 0, 0).is_at_least(&threshold));
    assert!(!ApiVersion::new(0, 9, 999).is_at_least(&threshold));
}

#[test]
fn order_is_not_that_of_the_arguments_swapped() {
    let older = ApiVersion::new(1, 0, 0);
    let newer = ApiVersion::new(1, 1, 0);
    assert!(newer.is_at_least(&older));
    assert!(!older.is_at_least(&newer));
}

#[test]
fn portability_threshold_is_1_3_126() {
    assert_eq!(portability_version(), ApiVersion::new(1, 3, 126));
}

#[test]
fn portability_is_required_from_the_threshold_on() {
    assert!(portability_required(&ApiVersion::new(1, 3, 126)));
    assert!(portability_required(&ApiVersion::new(1, 3, 250)));
    assert!(portability_required(&ApiVersion::new(1, 4, 0)));
    assert!(!portability_required(&ApiVersion::new(1, 3, 125)));
    assert!(!portability_required(&ApiVersion::new(1, 0, 0)));
}
