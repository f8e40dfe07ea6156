use systemd_client::{UnitActiveStateType, UnitLoadStateType, UnitSubStateType};

const LOAD_STATES: &[&str] = &["stub", "loaded", "not-found", "error", "merged", "masked"];

const ACTIVE_STATES: &[&str] =
    &["active", "reloading", "inactive", "failed", "activating", "deactivating"];

const SUB_STATES: &[&str] = &[
    "abandon",
    "activating",
    "activating-done",
    "active",
    "auto-restart",
    "dead",
    "deactivating",
    "deactivating-sigterm",
    "deactivating-sigkill",
    "elapsed",
    "exited",
    "failed",
    "final-sigterm",
    "final-sigkill",
    "mounting",
    "mounting-done",
    "mounted",
    "plugged",
    "listening",
    "reload",
    "remounting",
    "remounting-sigterm",
    "remounting-sigkill",
    "running",
    "start",
    "start-chown",
    "start-pre",
    "start-post",
    "stop",
    "stop-post",
    "stop-sigabrt",
    "stop-sigterm",
    "stop-sigkill",
    "tentative",
    "unmounting",
    "unmounting-sigterm",
    "unmounting-sigkill",
    "waiting",
];

#[test]
fn test_load_state_round_trip_known() {
    for s in LOAD_STATES {
        let parsed = UnitLoadStateType::from_string(s.to_string());
        assert!(!matches!(parsed, UnitLoadStateType::Other(_)), "{s} fell back");
        assert_eq!(*s, parsed.to_string());
    }
}

#[test]
fn test_active_state_round_trip_known() {
    for s in ACTIVE_STATES {
        let parsed = UnitActiveStateType::from_string(s.to_string());
        assert!(!matches!(parsed, UnitActiveStateType::Other(_)), "{s} fell back");
        assert_eq!(*s, parsed.to_string());
    }
}

#[test]
fn test_sub_state_round_trip_known() {
    for s in SUB_STATES {
        let parsed = UnitSubStateType::from_string(s.to_string());
        assert!(!matches!(parsed, UnitSubStateType::Other(_)), "{s} fell back");
        assert_eq!(*s, parsed.to_string());
    }
}

#[test]
fn test_unknown_states_kept_verbatim() {
    let load = UnitLoadStateType::from_string("linked-runtime".to_string());
    assert!(matches!(load, UnitLoadStateType::Other(_)));
    assert_eq!("linked-runtime", load.to_string());

    let active = UnitActiveStateType::from_string("maintenance".to_string());
    assert!(matches!(active, UnitActiveStateType::Other(_)));
    assert_eq!("maintenance", active.to_string());

    let sub = UnitSubStateType::from_string("cleaning".to_string());
    assert!(matches!(sub, UnitSubStateType::Other(_)));
    assert_eq!("cleaning", sub.to_string());
}

#[test]
fn test_parse_known_values() {
    assert_eq!(UnitLoadStateType::Loaded, UnitLoadStateType::from_string("loaded".to_string()));
    assert_eq!(UnitLoadStateType::Masked, UnitLoadStateType::from_string("masked".to_string()));
    assert_eq!(
        UnitActiveStateType::Active,
        UnitActiveStateType::from_string("active".to_string())
    );
    assert_eq!(
        UnitActiveStateType::Inactive,
        UnitActiveStateType::from_string("inactive".to_string())
    );
    assert_eq!(UnitSubStateType::Running, UnitSubStateType::from_string("running".to_string()));
    assert_eq!(UnitSubStateType::Dead, UnitSubStateType::from_string("dead".to_string()));
}

#[test]
fn test_from_string_conversion_trait() {
    let load: UnitLoadStateType = String::from("not-found").into();
    assert_eq!(UnitLoadStateType::NotFound, load);
    let sub: UnitSubStateType = String::from("stop-sigkill").into();
    assert_eq!(UnitSubStateType::StopSigkill, sub);
}

#[test]
fn test_structural_equality_of_fallback() {
    let a = UnitLoadStateType::from_string("alias".to_string());
    let b = UnitLoadStateType::from_string("alias".to_string());
    let c = UnitLoadStateType::from_string("other-alias".to_string());
    assert_eq!(a, b);
    assert_ne!(a, c);
    assert_ne!(a, UnitLoadStateType::Loaded);
}
