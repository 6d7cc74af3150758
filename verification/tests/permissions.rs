use picrust::permissions::{Permission, PermissionDecision, PermissionManager, PermissionRequest};

#[test]
fn test_auto_decision() {
    let mut manager = PermissionManager::new();

    assert_eq!(manager.check_auto_decision("bash"), None);

    manager.always_allow_tool("bash");
    assert_eq!(manager.check_auto_decision("bash"), Some(true));

    manager.always_deny_tool("bash");
    assert_eq!(manager.check_auto_decision("bash"), Some(false));
}

#[test]
fn test_process_decision() {
    let mut manager = PermissionManager::new();

    manager.process_decision("bash", PermissionDecision::AlwaysAllow);
    assert_eq!(manager.check_auto_decision("bash"), Some(true));

    manager.process_decision("bash", PermissionDecision::AlwaysDeny);
    assert_eq!(manager.check_auto_decision("bash"), Some(false));
}

#[test]
fn test_clear_decisions() {
    let mut manager = PermissionManager::new();

    manager.always_allow_tool("bash");
    manager.always_deny_tool("file_edit");

    manager.clear_auto_decisions();

    assert_eq!(manager.check_auto_decision("bash"), None);
    assert_eq!(manager.check_auto_decision("file_edit"), None);
}

#[test]
fn always_deny_holds_until_revoked() {
    let mut manager = PermissionManager::new();
    manager.process_decision("bash", PermissionDecision::AlwaysDeny);
    assert_eq!(manager.check_auto_decision("bash"), Some(false));

    // One-time decisions and decisions for other tools change nothing.
    manager.process_decision("bash", PermissionDecision::Allow);
    manager.process_decision("bash", PermissionDecision::Deny);
    manager.process_decision("file_edit", PermissionDecision::AlwaysAllow);
    assert_eq!(manager.check_auto_decision("bash"), Some(false));
    assert_eq!(manager.check_auto_decision("file_edit"), Some(true));

    manager.clear_auto_decisions();
    assert_eq!(manager.check_auto_decision("bash"), None);
}

#[test]
fn one_time_decisions_are_not_kept() {
    let mut manager = PermissionManager::new();
    manager.process_decision("bash", PermissionDecision::Allow);
    assert_eq!(manager.check_auto_decision("bash"), None);
    manager.process_decision("bash", PermissionDecision::Deny);
    assert_eq!(manager.check_auto_decision("bash"), None);
    assert!(manager.get_always_allowed().is_empty());
    assert!(manager.get_always_denied().is_empty());
}

#[test]
fn a_tool_stands_in_one_set_only_and_once() {
    let mut manager = PermissionManager::new();
    manager.always_allow_tool("bash");
    manager.always_allow_tool("bash");
    manager.always_allow_tool("read");
    assert_eq!(manager.get_always_allowed(), vec!["bash", "read"]);
    manager.always_deny_tool("bash");
    assert_eq!(manager.get_always_allowed(), vec!["read"]);
    assert_eq!(manager.get_always_denied(), vec!["bash"]);
    manager.always_allow_tool("bash");
    assert_eq!(manager.get_always_denied(), Vec::<String>::new());
    assert_eq!(manager.get_always_allowed(), vec!["read", "bash"]);
}

#[test]
fn names_are_matched_exactly() {
    let mut manager = PermissionManager::default();
    manager.always_deny_tool("bash");
    assert_eq!(manager.check_auto_decision("Bash"), None);
    assert_eq!(manager.check_auto_decision("bash "), None);
    assert_eq!(manager.check_auto_decision(""), None);
}

#[test]
fn rules_and_requests() {
    let mut manager = PermissionManager::new();
    manager.add_rule(Permission::new("bash", false));
    let rule = Permission::new("read", true);
    assert_eq!(rule.tool_name, "read");
    assert!(rule.allow);
    let request = PermissionRequest::new("bash", "Execute command: ls");
    assert_eq!(request.tool_name, "bash");
    assert_eq!(request.action_description, "Execute command: ls");
    assert_eq!(request.details, None);
    let request = request.with_details("Working directory: /tmp");
    assert_eq!(request.details, Some("Working directory: /tmp".to_string()));
    assert_eq!(request.tool_name, "bash");
    assert_eq!(manager.evaluate_rules(&request), None);
    assert_eq!(manager.check_auto_decision("bash"), None);
    assert!(PermissionDecision::Allow.allows());
    assert!(PermissionDecision::AlwaysAllow.allows());
    assert!(!PermissionDecision::Deny.allows());
    assert!(!PermissionDecision::AlwaysDeny.allows());
}
