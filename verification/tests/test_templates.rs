use systemd_client::{
    InstallConfiguration, RestartPolicy, ServiceConfiguration, ServiceType,
    ServiceUnitConfiguration, UnitConfiguration,
};

#[test]
fn test_service_template() {
    let unit_builder = UnitConfiguration::builder().description("test service");
    let svc_builder = ServiceConfiguration::builder()
        .exec_start(vec!["/bin/echo", "aloha"])
        .working_directory("/path/to/directory")
        .user("guest")
        .group("guest");
    let svc_unit = ServiceUnitConfiguration::builder()
        .unit(unit_builder)
        .service(svc_builder)
        .build();
    let actual_svc_unit = svc_unit.render();
    let expected_svc_unit = "[Unit]\n\
        Description=test service\n\
        After=\n\
        Wants=\n\
        \n\
        [Service]\n\
        WorkingDirectory=/path/to/directory\n\
        User=guest\n\
        Group=guest\n\
        ExecStart=/bin/echo aloha\n\
        Restart=no\n\
        RestartSec=100ms\n\
        \n\
        [Install]\n\
        WantedBy=multi-user.target\n";
    assert_eq!(expected_svc_unit, actual_svc_unit);
}

fn build_sleep_unit_text() -> String {
    let unit_builder = UnitConfiguration::builder().description("test service");
    let svc_builder = ServiceConfiguration::builder().exec_start(vec!["/bin/sleep", "10"]);
    let svc_unit = ServiceUnitConfiguration::builder()
        .unit(unit_builder)
        .service(svc_builder)
        .build();
    svc_unit.render()
}

#[test]
fn test_default_sections_round_trip() {
    // Default restart policy, default install target: a fixed three-section
    // block, byte-for-byte stable across repeated identical builds.
    let expected = "[Unit]\n\
        Description=test service\n\
        After=\n\
        Wants=\n\
        \n\
        [Service]\n\
        ExecStart=/bin/sleep 10\n\
        Restart=no\n\
        RestartSec=100ms\n\
        \n\
        [Install]\n\
        WantedBy=multi-user.target\n";
    let first = build_sleep_unit_text();
    let second = build_sleep_unit_text();
    assert_eq!(expected, first);
    assert_eq!(first, second);
}

#[test]
fn test_render_twice_same_value() {
    let unit_builder = UnitConfiguration::builder().description("twice");
    let svc_builder = ServiceConfiguration::builder().exec_start(vec!["/bin/true"]);
    let svc_unit = ServiceUnitConfiguration::builder()
        .unit(unit_builder)
        .service(svc_builder)
        .build();
    assert_eq!(svc_unit.render(), svc_unit.render());
}

#[test]
fn test_unit_section_lists_space_joined_in_order() {
    let unit = UnitConfiguration::builder()
        .description("ordered")
        .after("network.target")
        .after("syslog.target")
        .wants("network-online.target")
        .build();
    let expected = "[Unit]\n\
        Description=ordered\n\
        After=network.target syslog.target\n\
        Wants=network-online.target\n";
    assert_eq!(expected, unit.render());
}

#[test]
fn test_service_section_environment_quoted_one_per_line() {
    let svc = ServiceConfiguration::builder()
        .ty(ServiceType::Forking)
        .exec_start(vec!["/usr/bin/daemon", "--flag", "value"])
        .restart_policy(RestartPolicy::OnFailure)
        .restart_sec("5s")
        .env("LANG", "C")
        .env("HOME", "/var/empty")
        .build();
    let expected = "[Service]\n\
        Environment=\"LANG=C\"\n\
        Environment=\"HOME=/var/empty\"\n\
        ExecStart=/usr/bin/daemon --flag value\n\
        Restart=on-failure\n\
        RestartSec=5s\n";
    assert_eq!(expected, svc.render());
}

#[test]
fn test_optional_fields_omitted_when_absent() {
    let svc = ServiceConfiguration::builder()
        .exec_start(vec!["/bin/true"])
        .build();
    let text = svc.render();
    assert!(!text.contains("WorkingDirectory"));
    assert!(!text.contains("User="));
    assert!(!text.contains("Group="));
    assert!(!text.contains("Environment"));
}

#[test]
fn test_install_target_replaces_default() {
    // A caller-supplied target stands alone; the multi-user default applies
    // only when the caller never sets one.
    let install = InstallConfiguration::builder().wanted_by("graphical.target").build();
    assert_eq!("[Install]\nWantedBy=graphical.target\n", install.render());
}

#[test]
fn test_install_targets_kept_in_order() {
    let install = InstallConfiguration::builder()
        .wanted_by("graphical.target")
        .wanted_by("network-online.target")
        .build();
    assert_eq!("[Install]\nWantedBy=graphical.target network-online.target\n", install.render());
}

#[test]
fn test_install_default_when_never_set() {
    let install = InstallConfiguration::builder().build();
    assert_eq!("[Install]\nWantedBy=multi-user.target\n", install.render());
}

#[test]
fn test_install_target_replaces_default_in_whole_unit() {
    let unit_builder = UnitConfiguration::builder().description("graphical service");
    let svc_builder = ServiceConfiguration::builder().exec_start(vec!["/bin/true"]);
    let install_builder = InstallConfiguration::builder().wanted_by("graphical.target");
    let svc_unit = ServiceUnitConfiguration::builder()
        .unit(unit_builder)
        .service(svc_builder)
        .install(install_builder)
        .build();
    let text = svc_unit.render();
    assert!(text.ends_with("[Install]\nWantedBy=graphical.target\n"));
    assert!(!text.contains("multi-user.target"));
}

#[test]
fn test_service_type_render() {
    assert_eq!("simple", ServiceType::Simple.render());
    assert_eq!("exec", ServiceType::Exec.render());
    assert_eq!("forking", ServiceType::Forking.render());
}

#[test]
fn test_restart_policy_render() {
    assert_eq!("no", RestartPolicy::No.render());
    assert_eq!("on-success", RestartPolicy::OnSuccess.render());
    assert_eq!("on-failure", RestartPolicy::OnFailure.render());
    assert_eq!("always", RestartPolicy::Always.render());
}
