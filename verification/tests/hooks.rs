use picrust::hooks::{combine, HookEvent, HookMatcher, HookRegistry, HookResult, PermissionVerdict};

fn kind(verdict: &PermissionVerdict) -> &'static str {
    match verdict {
        PermissionVerdict::Allow => "allow",
        PermissionVerdict::Deny(_) => "deny",
        PermissionVerdict::Ask => "ask",
        PermissionVerdict::NoOpinion => "none",
    }
}

#[test]
fn deny_wins_over_allow_in_either_order() {
    let verdict = combine(&vec![HookResult::deny("no"), HookResult::allow()]);
    assert_eq!(kind(&verdict), "deny");
    let verdict = combine(&vec![HookResult::allow(), HookResult::deny("no")]);
    assert_eq!(kind(&verdict), "deny");
    match verdict {
        PermissionVerdict::Deny(reason) => assert_eq!(reason, "no"),
        _ => panic!("expected deny"),
    }
}

#[test]
fn allow_wins_over_ask() {
    assert_eq!(kind(&combine(&vec![HookResult::allow(), HookResult::ask()])), "allow");
    assert_eq!(kind(&combine(&vec![HookResult::ask(), HookResult::allow()])), "allow");
}

#[test]
fn ask_alone_is_ask() {
    assert_eq!(kind(&combine(&vec![HookResult::ask()])), "ask");
    assert_eq!(kind(&combine(&vec![HookResult::none(), HookResult::ask(), HookResult::none()])), "ask");
}

#[test]
fn no_opinions_fall_through() {
    assert_eq!(kind(&combine(&Vec::new())), "none");
    assert_eq!(kind(&combine(&vec![HookResult::none(), HookResult::none()])), "none");
}

#[test]
fn the_first_deny_gives_the_reason() {
    let verdict = combine(&vec![
        HookResult::ask(),
        HookResult::deny("first"),
        HookResult::allow(),
        HookResult::deny("second"),
    ]);
    match verdict {
        PermissionVerdict::Deny(reason) => assert_eq!(reason, "first"),
        _ => panic!("expected deny"),
    }
}

#[test]
fn ranks_follow_the_precedence() {
    assert_eq!(PermissionVerdict::Deny("x".to_string()).rank(), 3);
    assert_eq!(PermissionVerdict::Allow.rank(), 2);
    assert_eq!(PermissionVerdict::Ask.rank(), 1);
    assert_eq!(PermissionVerdict::NoOpinion.rank(), 0);
}

#[test]
fn every_order_of_four_verdicts_denies() {
    let make = |k: usize| match k {
        0 => HookResult::deny("stop"),
        1 => HookResult::allow(),
        2 => HookResult::ask(),
        _ => HookResult::none(),
    };
    let mut orders: Vec<Vec<usize>> = Vec::new();
    for a in 0..4 {
        for b in 0..4 {
            for c in 0..4 {
                for d in 0..4 {
                    let order = vec![a, b, c, d];
                    let mut sorted = order.clone();
                    sorted.sort();
                    if sorted == vec![0, 1, 2, 3] {
                        orders.push(order);
                    }
                }
            }
        }
    }
    assert_eq!(orders.len(), 24);
    for order in orders {
        let results: Vec<HookResult> = order.iter().map(|k| make(*k)).collect();
        assert_eq!(kind(&combine(&results)), "deny");
    }
}

#[test]
fn registry_selects_by_event_and_pattern_in_order() {
    let mut hooks = HookRegistry::new();
    assert_eq!(hooks.len(), 0);
    assert_eq!(hooks.add_with_pattern(HookEvent::PreToolUse, "Bash").unwrap(), 0);
    assert_eq!(hooks.add(HookEvent::PostAssistantResponse), 1);
    assert_eq!(hooks.add_with_pattern(HookEvent::PreToolUse, "Read|Glob|Grep").unwrap(), 2);
    assert_eq!(hooks.add(HookEvent::PreToolUse), 3);
    assert_eq!(hooks.len(), 4);

    assert_eq!(hooks.matching(HookEvent::PreToolUse, Some("Bash")), vec![0, 3]);
    assert_eq!(hooks.matching(HookEvent::PreToolUse, Some("Glob")), vec![2, 3]);
    assert_eq!(hooks.matching(HookEvent::PreToolUse, Some("Write")), vec![3]);
    // The whole name must match.
    assert_eq!(hooks.matching(HookEvent::PreToolUse, Some("BashLike")), vec![3]);
    assert_eq!(hooks.matching(HookEvent::PreToolUse, None), vec![3]);
    assert_eq!(hooks.matching(HookEvent::PostAssistantResponse, None), vec![1]);
    assert_eq!(hooks.matching(HookEvent::UserPromptSubmit, None), Vec::<usize>::new());
}

#[test]
fn a_pattern_that_cannot_be_matched_registers_nothing() {
    let mut hooks = HookRegistry::new();
    let err = hooks.add_with_pattern(HookEvent::PreToolUse, "(unclosed").unwrap_err();
    assert_eq!(err, "Invalid hook pattern: (unclosed");
    assert_eq!(hooks.len(), 0);
    assert!(HookMatcher::for_pattern("[").is_none());
    assert!(HookMatcher::for_pattern("Read.*").unwrap().matches(Some("ReadFile")));
    assert!(!HookMatcher::for_pattern("Read").unwrap().matches(Some("ReadFile")));
    assert!(HookMatcher::any().matches(None));
}
