use gachitore_api::api::subscription_check::{
    active_tier, get_user_tier, require_subscription, Instant, SubscriptionTier,
};
use gachitore_api::error::AppError;

#[test]
fn test_tier_requirements() {
    assert!(SubscriptionTier::Premium.meets_requirement(SubscriptionTier::Free));
    assert!(SubscriptionTier::Premium.meets_requirement(SubscriptionTier::Basic));
    assert!(SubscriptionTier::Premium.meets_requirement(SubscriptionTier::Premium));

    assert!(SubscriptionTier::Basic.meets_requirement(SubscriptionTier::Free));
    assert!(SubscriptionTier::Basic.meets_requirement(SubscriptionTier::Basic));
    assert!(!SubscriptionTier::Basic.meets_requirement(SubscriptionTier::Premium));

    assert!(SubscriptionTier::Free.meets_requirement(SubscriptionTier::Free));
    assert!(!SubscriptionTier::Free.meets_requirement(SubscriptionTier::Basic));
    assert!(!SubscriptionTier::Free.meets_requirement(SubscriptionTier::Premium));
}

#[test]
fn tier_names_round_trip() {
    for tier in [SubscriptionTier::Free, SubscriptionTier::Basic, SubscriptionTier::Premium] {
        assert_eq!(SubscriptionTier::from_str(tier.as_str()), tier);
    }
    assert_eq!(SubscriptionTier::Free.as_str(), "free");
    assert_eq!(SubscriptionTier::Basic.as_str(), "basic");
    assert_eq!(SubscriptionTier::Premium.as_str(), "premium");
}

#[test]
fn unknown_tier_name_is_free() {
    assert_eq!(SubscriptionTier::from_str(""), SubscriptionTier::Free);
    assert_eq!(SubscriptionTier::from_str("Premium"), SubscriptionTier::Free);
    assert_eq!(SubscriptionTier::from_str("gold"), SubscriptionTier::Free);
    assert_eq!(SubscriptionTier::from_str("basic "), SubscriptionTier::Free);
}

// 2024-01-01T00:00:00Z
const NEW_YEAR: i64 = 1_704_067_200;

fn at(seconds: i64, nanos: u32) -> Instant {
    Instant { seconds, nanos }
}

#[test]
fn paid_tier_needs_an_active_status_and_a_later_expiry() {
    let now = at(NEW_YEAR, 0);
    assert_eq!(active_tier("premium", "active", "2024-01-01T00:00:01Z", now), SubscriptionTier::Premium);
    assert_eq!(active_tier("basic", "active", "2030-06-01T12:00:00+09:00", now), SubscriptionTier::Basic);
    assert_eq!(active_tier("free", "active", "2030-06-01T12:00:00Z", now), SubscriptionTier::Free);
    assert_eq!(active_tier("gold", "active", "2030-06-01T12:00:00Z", now), SubscriptionTier::Free);
    // active, but expired
    assert_eq!(active_tier("premium", "active", "2023-12-31T23:59:59Z", now), SubscriptionTier::Free);
    // not expired, but not active
    for status in ["cancelled", "expired", "", "Active", "active "] {
        assert_eq!(active_tier("premium", status, "2030-06-01T12:00:00Z", now), SubscriptionTier::Free);
    }
    // an expiry that cannot be read keeps nothing
    for expiry in ["", "2030-06-01", "tomorrow", "2030-13-01T00:00:00Z"] {
        assert_eq!(active_tier("premium", "active", expiry, now), SubscriptionTier::Free);
    }
}

#[test]
fn expiry_must_lie_strictly_after_the_present_instant() {
    assert_eq!(
        active_tier("premium", "active", "2024-01-01T00:00:00Z", at(NEW_YEAR, 0)),
        SubscriptionTier::Free
    );
    assert_eq!(
        active_tier("premium", "active", "2024-01-01T00:00:00.5Z", at(NEW_YEAR, 499_999_999)),
        SubscriptionTier::Premium
    );
    assert_eq!(
        active_tier("premium", "active", "2024-01-01T00:00:00.5Z", at(NEW_YEAR, 500_000_000)),
        SubscriptionTier::Free
    );
    assert_eq!(
        active_tier("premium", "active", "2024-01-01T09:00:00+09:00", at(NEW_YEAR - 1, 999_999_999)),
        SubscriptionTier::Premium
    );
    assert_eq!(
        active_tier("premium", "active", "1969-12-31T23:59:59Z", at(-2, 0)),
        SubscriptionTier::Premium
    );
}

#[test]
fn missing_fields_count_against_the_subscription() {
    let now = at(NEW_YEAR, 0);
    let later = Some("2030-01-01T00:00:00Z");
    assert_eq!(get_user_tier(Some("premium"), Some("active"), later, now), SubscriptionTier::Premium);
    assert_eq!(get_user_tier(None, Some("active"), later, now), SubscriptionTier::Free);
    assert_eq!(get_user_tier(Some("premium"), None, later, now), SubscriptionTier::Free);
    assert_eq!(get_user_tier(Some("premium"), Some("active"), None, now), SubscriptionTier::Free);
    assert_eq!(get_user_tier(None, None, None, now), SubscriptionTier::Free);
}

#[test]
fn instants_are_ordered_by_seconds_then_nanoseconds() {
    assert!(at(2, 0).after(&at(1, 999_999_999)));
    assert!(at(1, 1).after(&at(1, 0)));
    assert!(!at(1, 0).after(&at(1, 0)));
    assert!(!at(1, 0).after(&at(1, 1)));
    assert!(!at(-1, 5).after(&at(0, 0)));
    assert!(at(i64::MAX, 0).after(&at(i64::MIN, u32::MAX)));
}

#[test]
fn feature_is_forbidden_below_the_required_tier() {
    assert!(require_subscription(SubscriptionTier::Premium, SubscriptionTier::Premium, "AI").is_ok());
    assert!(require_subscription(SubscriptionTier::Premium, SubscriptionTier::Basic, "AI").is_ok());
    assert!(require_subscription(SubscriptionTier::Basic, SubscriptionTier::Basic, "AI").is_ok());
    for tier in [SubscriptionTier::Free, SubscriptionTier::Basic, SubscriptionTier::Premium] {
        assert!(require_subscription(tier, SubscriptionTier::Free, "AI").is_ok());
    }
    match require_subscription(SubscriptionTier::Free, SubscriptionTier::Basic, "写真アップロード") {
        Err(AppError::Forbidden(m)) => {
            assert_eq!(m, "写真アップロード を使用するにはベーシックプラン 以上が必要です")
        }
        other => panic!("unexpected result: {:?}", other),
    }
    match require_subscription(SubscriptionTier::Basic, SubscriptionTier::Premium, "AI") {
        Err(AppError::Forbidden(m)) => assert_eq!(m, "AI を使用するにはプレミアムプラン 以上が必要です"),
        other => panic!("unexpected result: {:?}", other),
    }
    assert!(require_subscription(SubscriptionTier::Free, SubscriptionTier::Premium, "").is_err());
}
