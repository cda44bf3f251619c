use opc_commands::plan::{
    build_plan, classify_plan_request, generate_plan_from_input, make_plan_title, plan_cancel_event,
    plan_execute_event, plan_get, plan_list, plan_modify_step, plan_step_count, text_contains,
    PlanCancelRequest, PlanExecuteRequest, PlanGetRequest, PlanKind, PlanListRequest, PlanModifyStepRequest,
    PlanStatus, PlanStepStatus,
};

fn is_uuid_v4(s: &str) -> bool {
    let b = s.as_bytes();
    b.len() == 36
        && b[8] == b'-'
        && b[13] == b'-'
        && b[18] == b'-'
        && b[23] == b'-'
        && b[14] == b'4'
        && matches!(b[19], b'8' | b'9' | b'a' | b'b')
}

#[test]
fn request_classification() {
    assert_eq!(classify_plan_request("please implement login"), PlanKind::Implement);
    assert_eq!(classify_plan_request("实现登录"), PlanKind::Implement);
    assert_eq!(classify_plan_request("fix the crash"), PlanKind::Fix);
    assert_eq!(classify_plan_request("修复崩溃"), PlanKind::Fix);
    assert_eq!(classify_plan_request("there is a bug"), PlanKind::Fix);
    assert_eq!(classify_plan_request("implement the fix"), PlanKind::Implement);
    assert_eq!(classify_plan_request("write a poem"), PlanKind::General);
    assert_eq!(classify_plan_request("Fix it"), PlanKind::General);
    assert_eq!(plan_step_count(PlanKind::Implement), 4);
    assert_eq!(plan_step_count(PlanKind::Fix), 3);
    assert_eq!(plan_step_count(PlanKind::General), 3);
}

#[test]
fn substring_search() {
    assert!(text_contains("abcabd", "abd"));
    assert!(text_contains("abc", ""));
    assert!(!text_contains("ab", "abc"));
    assert!(!text_contains("aXbXc", "abc"));
}

#[test]
fn titles_are_cut_after_sixty_bytes() {
    assert_eq!(make_plan_title("short"), "short");
    let sixty = "a".repeat(60);
    assert_eq!(make_plan_title(&sixty), sixty);
    let long = "b".repeat(61);
    assert_eq!(make_plan_title(&long), format!("{}...", "b".repeat(60)));
    let chinese = "实".repeat(21);
    assert_eq!(make_plan_title(&chinese), format!("{}...", "实".repeat(20)));
}

#[test]
fn fix_plan_steps() {
    let ids = vec!["s1".to_string(), "s2".to_string(), "s3".to_string()];
    let p = build_plan("conv", "fix the bug", "msg", ids, "plan-1".to_string(), 123);
    assert_eq!(p.id, "plan-1");
    assert_eq!(p.conversation_id, "conv");
    assert_eq!(p.user_message_id, "msg");
    assert_eq!(p.title, "fix the bug");
    assert_eq!(p.status, PlanStatus::Reviewing);
    assert!(p.is_active);
    assert_eq!(p.created_under_strategy.as_deref(), Some("plan"));
    assert_eq!(p.created_at, 123);
    assert_eq!(p.updated_at, 123);
    let titles: Vec<&str> = p.steps.iter().map(|s| s.title.as_str()).collect();
    assert_eq!(titles, vec!["Reproduce the issue", "Identify root cause", "Apply fix"]);
    assert_eq!(p.steps[1].description, "Trace the bug to its source");
    assert_eq!(p.steps[1].estimated_tools, Some(vec!["Read".to_string(), "Grep".to_string()]));
    assert_eq!(p.steps[0].estimated_tools, Some(vec![]));
    assert!(p.steps.iter().all(|s| s.status == PlanStepStatus::Pending && s.result.is_none()));
    assert_eq!(p.steps[2].id, "s3");
}

#[test]
fn implement_plan_steps() {
    let ids: Vec<String> = (0..4).map(|i| format!("id{i}")).collect();
    let p = build_plan("c", "implement X", "m", ids, "p".to_string(), 0);
    let titles: Vec<&str> = p.steps.iter().map(|s| s.title.as_str()).collect();
    assert_eq!(titles, vec!["Analyze requirements", "Design solution", "Implement changes", "Verify & test"]);
    assert_eq!(
        p.steps[2].estimated_tools,
        Some(vec!["Read".to_string(), "Write".to_string(), "Edit".to_string(), "Bash".to_string()])
    );
}

#[test]
fn generated_plan_has_fresh_ids() {
    let p = generate_plan_from_input("conv", "write a report", "msg");
    assert_eq!(p.steps.len(), 3);
    assert_eq!(p.steps[0].title, "Research");
    assert_eq!(p.steps[0].estimated_tools, Some(vec!["WebSearch".to_string(), "Read".to_string()]));
    assert!(is_uuid_v4(&p.id));
    for s in &p.steps {
        assert!(is_uuid_v4(&s.id));
        assert_ne!(s.id, p.id);
    }
    assert_ne!(p.steps[0].id, p.steps[1].id);
    assert_eq!(p.created_at, p.updated_at);
    assert!(p.created_at > 1_600_000_000_000);
}

#[test]
fn stored_plan_commands_find_nothing() {
    assert!(matches!(plan_get(PlanGetRequest { plan_id: "p".to_string() }), Ok(None)));
    assert!(plan_list(PlanListRequest { conversation_id: "c".to_string(), include_completed: None })
        .unwrap()
        .is_empty());
    let req = PlanModifyStepRequest {
        plan_id: "p".to_string(),
        step_id: "s".to_string(),
        title: None,
        description: None,
        approved: Some(true),
    };
    assert!(matches!(plan_modify_step(req), Ok(None)));
}

#[test]
fn completion_events() {
    let done = plan_execute_event(PlanExecuteRequest {
        conversation_id: "c".to_string(),
        plan_id: "p".to_string(),
        step_ids: None,
    });
    assert_eq!(done.conversation_id, "c");
    assert_eq!(done.plan_id, "p");
    assert_eq!(done.status, "completed");
    let cancelled = plan_cancel_event(PlanCancelRequest {
        conversation_id: "c2".to_string(),
        plan_id: "p2".to_string(),
        reason: Some("no".to_string()),
    });
    assert_eq!(cancelled.plan_id, "p2");
    assert_eq!(cancelled.status, "cancelled");
}
