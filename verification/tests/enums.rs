use api_clients::ramp::types::GetResourcesCardsDeferredResponseStatus as S;
use api_clients::ramp::types::GetTransactionResponseDataDisputesType as D;
use api_clients::ramp::types::{Icon, Interval, Role, TokenType, Type};

#[test]
fn role_literals_decode_to_their_variants() {
    assert!(matches!(Role::decode("BUSINESS_ADMIN"), Role::BusinessAdmin));
    assert!(matches!(Role::decode("BUSINESS_BOOKKEEPER"), Role::BusinessBookkeeper));
    assert!(matches!(Role::decode("BUSINESS_OWNER"), Role::BusinessOwner));
    assert!(matches!(Role::decode("BUSINESS_USER"), Role::BusinessUser));
}

#[test]
fn role_variants_encode_to_their_literals() {
    assert_eq!(Role::BusinessAdmin.to_string(), "BUSINESS_ADMIN");
    assert_eq!(Role::BusinessBookkeeper.to_string(), "BUSINESS_BOOKKEEPER");
    assert_eq!(Role::BusinessOwner.to_string(), "BUSINESS_OWNER");
    assert_eq!(Role::BusinessUser.to_string(), "BUSINESS_USER");
    assert_eq!(Role::Noop.to_string(), "");
    assert_eq!(Role::FallthroughString("GUEST".to_string()).to_string(), "GUEST");
}

#[test]
fn role_literals_round_trip() {
    for literal in ["BUSINESS_ADMIN", "BUSINESS_BOOKKEEPER", "BUSINESS_OWNER", "BUSINESS_USER"] {
        assert_eq!(Role::decode(literal).to_string(), literal);
    }
}

#[test]
fn role_unknown_string_is_kept_verbatim() {
    let decoded = Role::decode("BUSINESS_AUDITOR");
    match &decoded {
        Role::FallthroughString(kept) => assert_eq!(kept, "BUSINESS_AUDITOR"),
        other => panic!("decoded to {:?}", other),
    }
    assert_eq!(decoded.to_string(), "BUSINESS_AUDITOR");
}

#[test]
fn role_empty_string_is_the_absent_value() {
    let decoded = Role::decode("");
    assert!(matches!(decoded, Role::Noop));
    assert!(decoded.is_noop());
    assert_eq!(decoded.to_string(), "");
}

#[test]
fn role_decoding_is_exact_about_case_and_spaces() {
    for near in ["business_admin", "BUSINESS_ADMIN ", " BUSINESS_ADMIN", "BUSINESS_ADMI", "BUSINESS-ADMIN"] {
        match Role::decode(near) {
            Role::FallthroughString(kept) => assert_eq!(kept, near),
            other => panic!("{:?} decoded to {:?}", near, other),
        }
    }
}

#[test]
fn role_default_is_the_absent_value() {
    assert!(matches!(Role::default(), Role::Noop));
    assert!(Role::default().is_noop());
}

#[test]
fn role_is_noop_only_for_noop() {
    assert!(Role::Noop.is_noop());
    assert!(!Role::BusinessAdmin.is_noop());
    assert!(!Role::BusinessUser.is_noop());
    assert!(!Role::FallthroughString(String::new()).is_noop());
    assert!(!Role::FallthroughString("x".to_string()).is_noop());
}

#[test]
fn type_round_trips() {
    assert!(matches!(Type::decode("POLICY_VIOLATION_FROM_ADMIN"), Type::PolicyViolationFromAdmin));
    assert!(matches!(Type::decode("POLICY_VIOLATION_FROM_USER"), Type::PolicyViolationFromUser));
    assert!(matches!(Type::decode(""), Type::Noop));
    assert_eq!(Type::PolicyViolationFromAdmin.to_string(), "POLICY_VIOLATION_FROM_ADMIN");
    assert_eq!(Type::PolicyViolationFromUser.to_string(), "POLICY_VIOLATION_FROM_USER");
    assert_eq!(Type::Noop.to_string(), "");
    assert_eq!(Type::decode("POLICY_VIOLATION_FROM_BOT").to_string(), "POLICY_VIOLATION_FROM_BOT");
    assert!(matches!(Type::decode("POLICY_VIOLATION_FROM_BOT"), Type::FallthroughString(_)));
}

#[test]
fn type_default_and_is_noop() {
    assert!(Type::default().is_noop());
    assert!(!Type::PolicyViolationFromUser.is_noop());
    assert!(!Type::FallthroughString("".to_string()).is_noop());
}

#[test]
fn dispute_type_round_trips() {
    assert!(matches!(D::decode("DISPUTE_CANCELLED"), D::DisputeCancelled));
    assert!(matches!(D::decode("MERCHANT_ERROR"), D::MerchantError));
    assert!(matches!(D::decode("UNKNOWN"), D::Unknown));
    assert!(matches!(D::decode("UNRECOGNIZED_CHARGE"), D::UnrecognizedCharge));
    assert!(matches!(D::decode(""), D::Noop));
    assert_eq!(D::DisputeCancelled.to_string(), "DISPUTE_CANCELLED");
    assert_eq!(D::MerchantError.to_string(), "MERCHANT_ERROR");
    assert_eq!(D::Unknown.to_string(), "UNKNOWN");
    assert_eq!(D::UnrecognizedCharge.to_string(), "UNRECOGNIZED_CHARGE");
    assert_eq!(D::Noop.to_string(), "");
}

#[test]
fn dispute_type_named_unknown_is_not_the_catch_all() {
    assert!(matches!(D::decode("UNKNOWN"), D::Unknown));
    match D::decode("Unknown") {
        D::FallthroughString(kept) => assert_eq!(kept, "Unknown"),
        other => panic!("decoded to {:?}", other),
    }
    assert!(D::default().is_noop());
    assert!(!D::Unknown.is_noop());
}

#[test]
fn interval_round_trips() {
    assert!(matches!(Interval::decode("DAILY"), Interval::Daily));
    assert!(matches!(Interval::decode("MONTHLY"), Interval::Monthly));
    assert!(matches!(Interval::decode("TOTAL"), Interval::Total));
    assert!(matches!(Interval::decode("YEARLY"), Interval::Yearly));
    assert!(matches!(Interval::decode(""), Interval::Noop));
    assert_eq!(Interval::Daily.to_string(), "DAILY");
    assert_eq!(Interval::Monthly.to_string(), "MONTHLY");
    assert_eq!(Interval::Total.to_string(), "TOTAL");
    assert_eq!(Interval::Yearly.to_string(), "YEARLY");
    assert_eq!(Interval::Noop.to_string(), "");
    assert_eq!(Interval::decode("WEEKLY").to_string(), "WEEKLY");
    assert!(Interval::default().is_noop());
    assert!(!Interval::Total.is_noop());
}

#[test]
fn token_type_round_trips() {
    assert!(matches!(TokenType::decode("Bearer"), TokenType::Bearer));
    assert!(matches!(TokenType::decode(""), TokenType::Noop));
    assert_eq!(TokenType::Bearer.to_string(), "Bearer");
    assert_eq!(TokenType::Noop.to_string(), "");
    match TokenType::decode("bearer") {
        TokenType::FallthroughString(kept) => assert_eq!(kept, "bearer"),
        other => panic!("decoded to {:?}", other),
    }
    assert_eq!(TokenType::decode("MAC").to_string(), "MAC");
    assert!(TokenType::default().is_noop());
    assert!(!TokenType::Bearer.is_noop());
}

#[test]
fn deferred_status_round_trips() {
    assert!(matches!(S::decode("ERROR"), S::Error));
    assert!(matches!(S::decode("IN_PROGRESS"), S::InProgress));
    assert!(matches!(S::decode("STARTED"), S::Started));
    assert!(matches!(S::decode("SUCCESS"), S::Success));
    assert!(matches!(S::decode(""), S::Noop));
    assert_eq!(S::Error.to_string(), "ERROR");
    assert_eq!(S::InProgress.to_string(), "IN_PROGRESS");
    assert_eq!(S::Started.to_string(), "STARTED");
    assert_eq!(S::Success.to_string(), "SUCCESS");
    assert_eq!(S::Noop.to_string(), "");
    assert_eq!(S::decode("QUEUED").to_string(), "QUEUED");
    assert!(S::default().is_noop());
    assert!(!S::Success.is_noop());
}

#[test]
fn icon_literals_round_trip() {
    let literals = [
        "AdvertisingIcon",
        "CardIcon",
        "EducationStipendIcon",
        "LunchOrderingIcon",
        "OnboardingIcon",
        "PerDiemCardIcon",
        "SaasSubscriptionIcon",
        "SoftwareTrialIcon",
        "TravelExpensesIcon",
        "WellnessIcon",
    ];
    for literal in literals {
        let icon = Icon::decode(literal);
        assert!(!matches!(icon, Icon::FallthroughString(_)), "{} is a named icon", literal);
        assert!(!icon.is_noop());
        assert_eq!(icon.to_string(), literal);
    }
}

#[test]
fn icon_variants_match_their_literals() {
    assert!(matches!(Icon::decode("AdvertisingIcon"), Icon::AdvertisingIcon));
    assert!(matches!(Icon::decode("CardIcon"), Icon::CardIcon));
    assert!(matches!(Icon::decode("EducationStipendIcon"), Icon::EducationStipendIcon));
    assert!(matches!(Icon::decode("LunchOrderingIcon"), Icon::LunchOrderingIcon));
    assert!(matches!(Icon::decode("OnboardingIcon"), Icon::OnboardingIcon));
    assert!(matches!(Icon::decode("PerDiemCardIcon"), Icon::PerDiemCardIcon));
    assert!(matches!(Icon::decode("SaasSubscriptionIcon"), Icon::SaasSubscriptionIcon));
    assert!(matches!(Icon::decode("SoftwareTrialIcon"), Icon::SoftwareTrialIcon));
    assert!(matches!(Icon::decode("TravelExpensesIcon"), Icon::TravelExpensesIcon));
    assert!(matches!(Icon::decode("WellnessIcon"), Icon::WellnessIcon));
    assert_eq!(Icon::PerDiemCardIcon.to_string(), "PerDiemCardIcon");
    assert_eq!(Icon::Noop.to_string(), "");
}

#[test]
fn icon_unknown_and_empty() {
    match Icon::decode("RocketIcon") {
        Icon::FallthroughString(kept) => assert_eq!(kept, "RocketIcon"),
        other => panic!("decoded to {:?}", other),
    }
    assert_eq!(Icon::decode("RocketIcon").to_string(), "RocketIcon");
    assert!(matches!(Icon::decode(""), Icon::Noop));
    assert!(Icon::default().is_noop());
    assert!(!Icon::CardIcon.is_noop());
}

#[test]
fn unknown_strings_with_unicode_round_trip() {
    for s in ["Prüfer", "管理者", "a\u{0}b", "BUSINESS_ADMIN\n", "🙂"] {
        assert_eq!(Role::decode(s).to_string(), s);
        assert_eq!(Icon::decode(s).to_string(), s);
        assert_eq!(TokenType::decode(s).to_string(), s);
    }
}

#[test]
fn hand_made_catch_all_is_written_as_its_string() {
    assert_eq!(Role::FallthroughString("BUSINESS_ADMIN".to_string()).to_string(), "BUSINESS_ADMIN");
    assert_eq!(Role::FallthroughString(String::new()).to_string(), "");
    assert!(matches!(Role::decode(&Role::FallthroughString("BUSINESS_ADMIN".to_string()).to_string()), Role::BusinessAdmin));
}
