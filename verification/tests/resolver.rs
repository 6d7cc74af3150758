use picrust::hooks::HookResult;
use picrust::permissions::{resolve, settle, PermissionDecision, PermissionManager, Resolution};

fn kind(resolution: &Resolution) -> &'static str {
    match resolution {
        Resolution::Execute => "execute",
        Resolution::Refuse(_) => "refuse",
        Resolution::AskUser => "ask",
    }
}

#[test]
fn a_tool_without_permission_runs_whatever_the_hooks_say() {
    let manager = PermissionManager::new();
    let hooks = vec![HookResult::deny("never")];
    assert_eq!(kind(&resolve(false, &hooks, &manager, "todo")), "execute");
}

#[test]
fn a_deny_hook_refuses_even_an_always_allowed_tool() {
    let mut manager = PermissionManager::new();
    manager.always_allow_tool("bash");
    let hooks = vec![HookResult::allow(), HookResult::deny("rm -rf is blocked")];
    match resolve(true, &hooks, &manager, "bash") {
        Resolution::Refuse(reason) => assert_eq!(reason, "rm -rf is blocked"),
        _ => panic!("expected a refusal"),
    }
}

#[test]
fn an_allow_hook_runs_even_an_always_denied_tool() {
    let mut manager = PermissionManager::new();
    manager.always_deny_tool("bash");
    let hooks = vec![HookResult::allow(), HookResult::ask()];
    assert_eq!(kind(&resolve(true, &hooks, &manager, "bash")), "execute");
}

#[test]
fn an_ask_hook_leaves_the_call_to_the_normal_flow() {
    let mut manager = PermissionManager::new();
    let hooks = vec![HookResult::none(), HookResult::ask()];
    // Nothing is settled for the tool: the user is asked.
    assert_eq!(kind(&resolve(true, &hooks, &manager, "bash")), "ask");
    // An always-allowed tool runs without a prompt.
    manager.always_allow_tool("bash");
    assert_eq!(kind(&resolve(true, &hooks, &manager, "bash")), "execute");
    assert_eq!(kind(&resolve(true, &vec![HookResult::ask()], &manager, "bash")), "execute");
    // An always-denied tool is refused without a prompt.
    manager.always_deny_tool("bash");
    match resolve(true, &hooks, &manager, "bash") {
        Resolution::Refuse(reason) => assert_eq!(reason, "Tool bash is blocked (always deny)"),
        _ => panic!("expected a refusal"),
    }
    assert_eq!(kind(&resolve(true, &hooks, &manager, "file_edit")), "ask");
}

#[test]
fn without_opinions_the_static_rules_decide() {
    let mut manager = PermissionManager::new();
    let hooks = vec![HookResult::none()];
    assert_eq!(kind(&resolve(true, &hooks, &manager, "bash")), "ask");
    assert_eq!(kind(&resolve(true, &Vec::new(), &manager, "bash")), "ask");

    manager.always_allow_tool("bash");
    assert_eq!(kind(&resolve(true, &hooks, &manager, "bash")), "execute");

    manager.always_deny_tool("bash");
    match resolve(true, &hooks, &manager, "bash") {
        Resolution::Refuse(reason) => assert_eq!(reason, "Tool bash is blocked (always deny)"),
        _ => panic!("expected a refusal"),
    }
    assert_eq!(kind(&resolve(true, &hooks, &manager, "file_edit")), "ask");
}

#[test]
fn the_users_answer_settles_the_call() {
    let mut manager = PermissionManager::new();
    assert!(settle(&mut manager, "bash", PermissionDecision::Allow));
    assert_eq!(manager.check_auto_decision("bash"), None);
    assert!(!settle(&mut manager, "bash", PermissionDecision::Deny));
    assert_eq!(manager.check_auto_decision("bash"), None);
    assert!(settle(&mut manager, "bash", PermissionDecision::AlwaysAllow));
    assert_eq!(manager.check_auto_decision("bash"), Some(true));
    assert!(!settle(&mut manager, "bash", PermissionDecision::AlwaysDeny));
    assert_eq!(manager.check_auto_decision("bash"), Some(false));
    assert_eq!(kind(&resolve(true, &Vec::new(), &manager, "bash")), "refuse");
}
