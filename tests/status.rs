use exec_policy_probe::{
    DeveloperToolStatusKind, EPDeveloperToolStatus, AUTHORIZED, DENIED, NOT_DETERMINED, RESTRICTED,
};

#[test]
fn status_named_codes() {
    assert_eq!(EPDeveloperToolStatus::from_raw(0).kind(), DeveloperToolStatusKind::NotDetermined);
    assert_eq!(EPDeveloperToolStatus::from_raw(1).kind(), DeveloperToolStatusKind::Restricted);
    assert_eq!(EPDeveloperToolStatus::from_raw(2).kind(), DeveloperToolStatusKind::Denied);
    assert_eq!(EPDeveloperToolStatus::from_raw(3).kind(), DeveloperToolStatusKind::Authorized);
    assert_eq!(
        (NOT_DETERMINED, RESTRICTED, DENIED, AUTHORIZED),
        (0, 1, 2, 3)
    );
}

#[test]
fn status_unknown_keeps_code() {
    for raw in [4isize, 7, -1, isize::MIN, isize::MAX] {
        let kind = EPDeveloperToolStatus::from_raw(raw).kind();
        assert_eq!(kind, DeveloperToolStatusKind::Unknown(raw));
        assert_eq!(kind.raw(), raw);
    }
}

#[test]
fn status_round_trip() {
    for raw in -3isize..10 {
        let status = EPDeveloperToolStatus::from_raw(raw);
        assert_eq!(status.raw(), raw);
        assert_eq!(status.kind().raw(), raw);
    }
}

#[test]
fn status_labels() {
    assert_eq!(EPDeveloperToolStatus(0).label(), "not determined");
    assert_eq!(EPDeveloperToolStatus(1).label(), "restricted");
    assert_eq!(EPDeveloperToolStatus(2).label(), "denied");
    assert_eq!(EPDeveloperToolStatus(3).label(), "authorized");
    assert_eq!(EPDeveloperToolStatus(42).label(), "unknown");
    assert_eq!(EPDeveloperToolStatus(-1).label(), "unknown");
}
