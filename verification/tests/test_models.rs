use systemd_client::{
    models::{bag_get_str, jobs_from_tuples, unit_props_from_bag, units_from_tuples},
    Error, Job, JobTuple, PropValue, PropertyKey, Unit, UnitActiveStateType, UnitLoadStateType,
    UnitProps, UnitSubStateType, UnitTuple,
};

fn sample_tuple(follow: &str) -> UnitTuple {
    (
        "test.service".to_string(),
        "a test service".to_string(),
        "loaded".to_string(),
        "active".to_string(),
        "running".to_string(),
        follow.to_string(),
        "/org/freedesktop/systemd1/unit/test_2eservice".to_string(),
        7,
        "start".to_string(),
        "/org/freedesktop/systemd1/job/42".to_string(),
    )
}

#[test]
fn test_unit_from_tuple_follow_unit_empty_is_absent() {
    let unit: Unit = sample_tuple("").into();
    assert!(unit.follow_unit.is_none());
}

#[test]
fn test_unit_from_tuple_follow_unit_kept() {
    let unit: Unit = sample_tuple("other.service").into();
    assert_eq!(Some("other.service".to_string()), unit.follow_unit);
}

#[test]
fn test_unit_from_tuple_fields() {
    let unit: Unit = sample_tuple("").into();
    assert_eq!("test.service", unit.name);
    assert_eq!("a test service", unit.description);
    assert_eq!(UnitLoadStateType::Loaded, unit.load_state);
    assert_eq!(UnitActiveStateType::Active, unit.active_state);
    assert_eq!(UnitSubStateType::Running, unit.sub_state);
    assert_eq!("/org/freedesktop/systemd1/unit/test_2eservice", unit.object_path);
    assert_eq!(7, unit.job_id);
    assert_eq!("start", unit.job_ty);
    assert_eq!("/org/freedesktop/systemd1/job/42", unit.job_object_path);
}

#[test]
fn test_empty_unit_list_adapts_to_empty() {
    let units = units_from_tuples(Vec::new());
    assert!(units.is_empty());
}

#[test]
fn test_empty_job_list_adapts_to_empty() {
    let jobs = jobs_from_tuples(Vec::new());
    assert!(jobs.is_empty());
}

#[test]
fn test_unit_list_order_kept() {
    let units = units_from_tuples(vec![sample_tuple(""), sample_tuple("other.service")]);
    assert_eq!(2, units.len());
    assert!(units[0].follow_unit.is_none());
    assert_eq!(Some("other.service".to_string()), units[1].follow_unit);
}

#[test]
fn test_job_from_tuple_fields() {
    let t: JobTuple = (
        42,
        "test.service".to_string(),
        "start".to_string(),
        "waiting".to_string(),
        "/org/freedesktop/systemd1/job/42".to_string(),
        "/org/freedesktop/systemd1/unit/test_2eservice".to_string(),
    );
    let job: Job = t.into();
    assert_eq!(42, job.id);
    assert_eq!("test.service", job.unit_name);
    assert_eq!("start", job.ty);
    assert_eq!("waiting", job.state);
    assert_eq!("/org/freedesktop/systemd1/job/42", job.object_path);
    assert_eq!("/org/freedesktop/systemd1/unit/test_2eservice", job.unit_object_path);
}

fn full_bag() -> Vec<(String, PropValue)> {
    vec![
        ("Id".to_string(), PropValue::Str("test.service".to_string())),
        ("Description".to_string(), PropValue::Str("a test service".to_string())),
        ("LoadState".to_string(), PropValue::Str("loaded".to_string())),
        ("ActiveState".to_string(), PropValue::Str("active".to_string())),
        ("SubState".to_string(), PropValue::Str("running".to_string())),
    ]
}

#[test]
fn test_props_from_full_bag() {
    let props = unit_props_from_bag(&full_bag()).expect("complete bag must adapt");
    assert_eq!("test.service", props.id);
    assert_eq!("a test service", props.description);
    assert_eq!(UnitLoadStateType::Loaded, props.load_state);
    assert_eq!(UnitActiveStateType::Active, props.active_state);
    assert_eq!(UnitSubStateType::Running, props.sub_state);
}

#[test]
fn test_props_missing_description_defaults_to_empty() {
    let bag: Vec<(String, PropValue)> = full_bag()
        .into_iter()
        .filter(|(k, _)| k != "Description")
        .collect();
    let props = unit_props_from_bag(&bag).expect("description is optional");
    assert_eq!("", props.description);
}

#[test]
fn test_props_missing_id_is_contract_violation() {
    let bag: Vec<(String, PropValue)> =
        full_bag().into_iter().filter(|(k, _)| k != "Id").collect();
    let err = unit_props_from_bag(&bag).expect_err("id is required");
    assert_eq!(Error::ContractViolation(PropertyKey::Id), err);
}

#[test]
fn test_props_missing_each_required_state_key() {
    for (key, expected) in [
        ("LoadState", PropertyKey::LoadState),
        ("ActiveState", PropertyKey::ActiveState),
        ("SubState", PropertyKey::SubState),
    ] {
        let bag: Vec<(String, PropValue)> =
            full_bag().into_iter().filter(|(k, _)| k != key).collect();
        let err = unit_props_from_bag(&bag).expect_err("required key");
        assert_eq!(Error::ContractViolation(expected), err);
    }
}

#[test]
fn test_props_wrong_wire_type_is_contract_violation() {
    let bag: Vec<(String, PropValue)> = full_bag()
        .into_iter()
        .map(|(k, v)| if k == "LoadState" { (k, PropValue::NonString) } else { (k, v) })
        .collect();
    let err = unit_props_from_bag(&bag).expect_err("text is required");
    assert_eq!(Error::ContractViolation(PropertyKey::LoadState), err);
}

#[test]
fn test_bag_lookup_first_entry_wins() {
    let mut bag = full_bag();
    bag.push(("Id".to_string(), PropValue::Str("shadowed.service".to_string())));
    assert_eq!(Some("test.service".to_string()), bag_get_str(&bag, "Id"));
}

#[test]
fn test_props_builder_assembles_snapshot() {
    let props: UnitProps = UnitProps::builder()
        .id("test.service".to_string())
        .description("a test service".to_string())
        .load_state("loaded".to_string())
        .active_state("activating".to_string())
        .sub_state("start-pre".to_string())
        .build();
    assert_eq!("test.service", props.id);
    assert_eq!(UnitLoadStateType::Loaded, props.load_state);
    assert_eq!(UnitActiveStateType::Activating, props.active_state);
    assert_eq!(UnitSubStateType::StartPre, props.sub_state);
}

#[test]
fn test_error_messages_name_the_kind() {
    assert_eq!(
        "required property undefined: Id",
        Error::ContractViolation(PropertyKey::Id).message()
    );
    assert_eq!("transport error: timeout", Error::Transport("timeout".to_string()).message());
    assert_eq!("decode error: bad path", Error::Decode("bad path".to_string()).message());
    assert_eq!("io error: denied", Error::Io("denied".to_string()).message());
}
