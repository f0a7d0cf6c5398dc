use ssh_tool::target::ServiceTarget;

fn target(service_type: &str, version: &str) -> ServiceTarget {
    ServiceTarget::new(service_type.to_string(), version.to_string())
}

#[test]
fn new_keeps_both_parts() {
    let made = target("billing", "v12");
    assert_eq!(made.service_type, "billing");
    assert_eq!(made.version, "v12");
}

#[test]
fn pod_name_joins_with_a_hyphen() {
    assert_eq!(target("billing", "v12").pod_name(), "billing-v12");
}

#[test]
fn inner_command_is_prefix_type_hyphen_version() {
    assert_eq!(target("billing", "v12").inner_command(), "ssh-pods billing-v12");
}

#[test]
fn inner_command_is_the_plain_concatenation() {
    let cases = [
        ("api", "1.4.2"),
        ("two words", "v 1"),
        ("a-b", "c-d"),
        ("", ""),
        ("only-type", ""),
        ("", "only-version"),
        ("caf\u{e9}", "\u{3b2}2"),
    ];
    for (service_type, version) in cases {
        let expected = "ssh-pods ".to_string() + service_type + "-" + version;
        assert_eq!(target(service_type, version).inner_command(), expected);
    }
}

#[test]
fn inner_command_of_empty_parts_is_prefix_and_hyphen() {
    assert_eq!(target("", "").inner_command(), "ssh-pods -");
    assert_eq!(target("", "").pod_name(), "-");
}

#[test]
fn inner_command_names_the_pod() {
    let made = target("ledger", "2024.1");
    assert_eq!(made.inner_command(), format!("ssh-pods {}", made.pod_name()));
}

#[test]
fn inner_command_leaves_the_target_unchanged() {
    let made = target("ledger", "2024.1");
    let _ = made.inner_command();
    let _ = made.pod_name();
    assert_eq!(made, target("ledger", "2024.1"));
}
