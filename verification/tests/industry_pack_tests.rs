use opc_commands::industry_pack::{
    any_approval, archive_file_name, build_workflow_from_pack, build_workflow_template, check_archive_entries,
    default_approval_message, default_icon, default_timeout, default_timeout_action, default_true,
    default_version, domain_should_seed, industry_adapter_id, industry_seed_decision, plan_industry_seeding, registry_row,
    stale_template_ids, sync_action, template_needs_seed, IndustryApproval, IndustryManifest, IndustryStep,
    IndustryWorkflow, PackImportError, SeedDecision, SyncAction,
};
use opc_commands::domain_templates::{
    academic, design, engineering, gamedev, gis, paidmedia, pm, product, security, spatial, specialized, strategy,
    support, testing,
};
use opc_commands::domain_seed::{
    build_domain_template, domain_reseed_plan, domain_template_should_seed, make_agent_node, make_agent_node_with_inputs, make_end, make_trigger,
    DOMAIN_TEMPLATE_VERSION,
};
use opc_commands::workflow::{
    edge, prompt_variables, td, EdgeType, OnFailureAction, ToolDef, WorkflowEdge, WorkflowNode, WorkflowTemplate,
};

fn step(id: &str, kind: &str, tools: &[&str]) -> IndustryStep {
    IndustryStep {
        id: id.to_string(),
        title: format!("title {id}"),
        prompt: format!("prompt {id}"),
        node_type: kind.to_string(),
        approval: None,
        inputs: vec![],
        tools: tools.iter().map(|t| t.to_string()).collect(),
    }
}

fn workflow(steps: Vec<IndustryStep>) -> IndustryWorkflow {
    IndustryWorkflow {
        id: "workflow-accounting".to_string(),
        name: "会计".to_string(),
        description: "desc".to_string(),
        icon: String::new(),
        tags: vec!["opc".to_string()],
        profile_id: "opc-cfo-cfo-financial-analyst".to_string(),
        steps,
        error_handling: None,
    }
}

fn tool(name: &str) -> ToolDef {
    ToolDef { name: name.to_string(), description: Some(format!("{name} tool")), parameters: None }
}

fn find<'a>(t: &'a WorkflowTemplate, id: &str) -> Option<&'a WorkflowEdge> {
    t.edges.iter().find(|e| e.id == id)
}

fn manifest(id: &str, version: i32, enabled: bool) -> IndustryManifest {
    IndustryManifest {
        id: id.to_string(),
        name: "名称".to_string(),
        icon: "🏢".to_string(),
        description: String::new(),
        version,
        enabled,
    }
}

#[test]
fn approval_chain_edges() {
    let w = workflow(vec![
        step("a-create", "agent", &["OpcCreateInvoice"]),
        step("approval", "approval", &[]),
        step("a-notify", "agent", &[]),
    ]);
    let t = build_workflow_template(&w, 3, &vec![tool("OpcCreateInvoice")], 1000);
    let ids: Vec<&str> = t.edges.iter().map(|e| e.id.as_str()).collect();
    assert_eq!(
        ids,
        vec![
            "e-trigger-a-create",
            "e-a-create-approval",
            "e-approval-end-false",
            "e-approval-a-notify-true",
            "e-a-notify-end"
        ]
    );
    let direct = find(&t, "e-a-create-approval").unwrap();
    assert_eq!(direct.edge_type, EdgeType::Direct);
    assert_eq!(direct.source_handle, None);
    assert!(find(&t, "e-a-create-approval-true").is_none());
    let yes = find(&t, "e-approval-a-notify-true").unwrap();
    assert_eq!(yes.edge_type, EdgeType::ConditionTrue);
    assert_eq!(yes.source_handle.as_deref(), Some("true"));
    let no = find(&t, "e-approval-end-false").unwrap();
    assert_eq!(no.edge_type, EdgeType::ConditionFalse);
    assert_eq!(no.source_handle.as_deref(), Some("false"));
    assert_eq!(no.target, "end");
}

#[test]
fn last_approval_gets_both_branches_to_end() {
    let w = workflow(vec![step("draft", "agent", &[]), step("sign", "approval", &[])]);
    let t = build_workflow_template(&w, 1, &vec![], 0);
    let ids: Vec<&str> = t.edges.iter().map(|e| e.id.as_str()).collect();
    assert_eq!(ids, vec!["e-trigger-draft", "e-draft-sign", "e-sign-end-false", "e-sign-end-true"]);
    assert_eq!(find(&t, "e-sign-end-true").unwrap().edge_type, EdgeType::ConditionTrue);
}

#[test]
fn plain_chain_edges() {
    let w = workflow(vec![step("s1", "agent", &[]), step("s2", "", &[]), step("s3", "agent", &[])]);
    let t = build_workflow_template(&w, 1, &vec![], 0);
    let ids: Vec<&str> = t.edges.iter().map(|e| e.id.as_str()).collect();
    assert_eq!(ids, vec!["e-trigger-first", "e-s1-s2", "e-s2-s3", "e-s3-end"]);
    assert!(t.edges.iter().all(|e| e.edge_type == EdgeType::Direct && e.source_handle.is_none()));
}

#[test]
fn empty_workflow_links_trigger_to_end() {
    let w = workflow(vec![]);
    let t = build_workflow_template(&w, 1, &vec![], 0);
    assert_eq!(t.nodes.len(), 2);
    assert_eq!(t.edges.len(), 1);
    assert_eq!(t.edges[0].id, "e-trigger-end");
    assert_eq!(t.edges[0].source, "trigger");
    assert_eq!(t.edges[0].target, "end");
}

#[test]
fn nodes_positions_and_agent_config() {
    let w = workflow(vec![step("a-search", "agent", &["search_stock", "get_stock_quote"]), step("ok", "approval", &[])]);
    let catalog = vec![tool("get_stock_quote"), tool("unrelated"), tool("search_stock")];
    let t = build_workflow_template(&w, 5, &catalog, 77);
    assert_eq!(t.id, "workflow-accounting");
    assert_eq!(t.icon, "📄");
    assert_eq!(t.version, 5);
    assert!(t.is_preset && t.is_editable && !t.is_public);
    assert_eq!(t.created_at, 77);
    assert_eq!(t.updated_at, 77);
    assert_eq!(t.nodes.len(), 4);
    match &t.nodes[0] {
        WorkflowNode::Trigger(b) => {
            assert_eq!(b.id, "trigger");
            assert_eq!(b.title, "手动启动");
            assert_eq!((b.position.x, b.position.y), (250, 0));
        },
        other => panic!("expected trigger, got {other:?}"),
    }
    match &t.nodes[1] {
        WorkflowNode::Agent(b, cfg) => {
            assert_eq!(b.id, "a-search");
            assert_eq!(b.position.y, 150);
            assert_eq!(cfg.system_prompt, "prompt a-search");
            assert_eq!(cfg.output_var, "a-search_result");
            let names: Vec<&str> = cfg.tools.iter().map(|t| t.name.as_str()).collect();
            assert_eq!(names, vec!["get_stock_quote", "search_stock"]);
            assert_eq!(cfg.exposed_tools, vec!["get_stock_quote".to_string(), "search_stock".to_string()]);
            assert_eq!(cfg.agent_profile_id.as_deref(), Some("opc-cfo-cfo-financial-analyst"));
            assert_eq!(cfg.max_tool_rounds, Some(10));
            assert_eq!(cfg.model_role.as_deref(), Some("opc-worker"));
            assert!(cfg.hallucination_guard);
        },
        other => panic!("expected agent, got {other:?}"),
    }
    match &t.nodes[2] {
        WorkflowNode::Approval(b, cfg) => {
            assert_eq!(b.position.y, 350);
            assert_eq!(cfg.message, "请审批。24小时超时自动拒绝。");
            assert_eq!(cfg.approver, None);
            assert_eq!(cfg.timeout_secs, 86400);
            assert_eq!(cfg.timeout_action, "auto_reject");
            assert_eq!(cfg.output_var, "ok_result");
        },
        other => panic!("expected approval, got {other:?}"),
    }
    match &t.nodes[3] {
        WorkflowNode::End(b) => {
            assert_eq!(b.id, "end");
            assert_eq!(b.position.y, 550);
        },
        other => panic!("expected end, got {other:?}"),
    }
}

#[test]
fn approval_settings_are_taken_from_the_step() {
    let mut s = step("gate", "approval", &[]);
    s.approval = Some(IndustryApproval {
        message: "请确认".to_string(),
        approver: "manager".to_string(),
        timeout_secs: 60,
        timeout_action: "auto_approve".to_string(),
    });
    let t = build_workflow_template(&workflow(vec![s]), 1, &vec![], 0);
    match &t.nodes[1] {
        WorkflowNode::Approval(_, cfg) => {
            assert_eq!(cfg.message, "请确认");
            assert_eq!(cfg.approver.as_deref(), Some("manager"));
            assert_eq!(cfg.timeout_secs, 60);
            assert_eq!(cfg.timeout_action, "auto_approve");
        },
        other => panic!("expected approval, got {other:?}"),
    }
}

#[test]
fn every_edge_joins_existing_nodes() {
    let w = workflow(vec![
        step("a", "approval", &[]),
        step("b", "approval", &[]),
        step("c", "agent", &[]),
        step("d", "approval", &[]),
    ]);
    let t = build_workflow_from_pack(&w, 1, &vec![]);
    let node_ids: Vec<String> = t
        .nodes
        .iter()
        .map(|n| match n {
            WorkflowNode::Trigger(b) | WorkflowNode::End(b) => b.id.clone(),
            WorkflowNode::Agent(b, _) | WorkflowNode::Approval(b, _) => b.id.clone(),
        })
        .collect();
    for e in &t.edges {
        assert!(node_ids.contains(&e.source), "{}", e.id);
        assert!(node_ids.contains(&e.target), "{}", e.id);
    }
    for sid in ["a", "b", "d"] {
        assert!(t.edges.iter().any(|e| e.source == sid && e.edge_type == EdgeType::ConditionTrue));
        assert!(t
            .edges
            .iter()
            .any(|e| e.source == sid && e.target == "end" && e.edge_type == EdgeType::ConditionFalse));
    }
    assert!(t.created_at == t.updated_at);
}

#[test]
fn any_approval_detects_approval_steps() {
    assert!(!any_approval(&workflow(vec![step("a", "agent", &[])])));
    assert!(any_approval(&workflow(vec![step("a", "agent", &[]), step("b", "approval", &[])])));
}

#[test]
fn manifest_defaults() {
    assert_eq!(default_icon(), "🏢");
    assert_eq!(default_version(), 1);
    assert!(default_true());
    assert_eq!(default_approval_message(), "请审批。24小时超时自动拒绝。");
    assert_eq!(default_timeout(), 86400);
    assert_eq!(default_timeout_action(), "auto_reject");
}

#[test]
fn seed_decisions() {
    let m = manifest("finance_invest", 2, true);
    assert_eq!(industry_seed_decision(None, &m), SeedDecision::Seed);
    assert_eq!(industry_seed_decision(Some((2, 1)), &m), SeedDecision::AlreadySeeded);
    assert_eq!(industry_seed_decision(Some((3, 1)), &m), SeedDecision::AlreadySeeded);
    assert_eq!(industry_seed_decision(Some((1, 1)), &m), SeedDecision::Seed);
    assert_eq!(industry_seed_decision(Some((2, 0)), &m), SeedDecision::Seed);
    let off = manifest("disabled_test", 1, false);
    assert_eq!(industry_seed_decision(None, &off), SeedDecision::Disabled);
    assert_eq!(industry_seed_decision(Some((0, 1)), &off), SeedDecision::Disabled);
    assert!(!domain_should_seed(&off));
    assert!(domain_should_seed(&m));
}

#[test]
fn template_version_check() {
    assert!(template_needs_seed(None, 1));
    assert!(template_needs_seed(Some(1), 2));
    assert!(!template_needs_seed(Some(2), 2));
    assert!(!template_needs_seed(Some(3), 2));
}

#[test]
fn stale_templates_are_those_not_kept() {
    let found = vec!["wf-a".to_string(), "wf-b".to_string(), "wf-c".to_string()];
    let keep = vec!["wf-c".to_string(), "wf-a".to_string()];
    assert_eq!(stale_template_ids(&found, &keep), vec!["wf-b".to_string()]);
    assert!(stale_template_ids(&found, &found).is_empty());
}

#[test]
fn registry_row_of_manifest() {
    let r = registry_row(&manifest("accounting", 4, false), 99);
    assert_eq!(r.id, "accounting");
    assert_eq!(r.version, 4);
    assert_eq!(r.enabled, 0);
    assert_eq!(r.pack_path, "config/opc/industries/accounting");
    assert_eq!(r.installed_at, 99);
    assert_eq!(r.updated_at, 99);
    assert_eq!(registry_row(&manifest("x", 1, true), 0).enabled, 1);
}

#[test]
fn pack_names() {
    assert_eq!(archive_file_name("finance_invest"), "finance_invest.opcip");
    assert_eq!(industry_adapter_id("software_dev"), "software-dev");
    assert_eq!(industry_adapter_id("a_b_c"), "a-b-c");
}

#[test]
fn archive_with_one_pack_is_accepted() {
    let entries = vec![
        ("finance_invest/".to_string(), true),
        ("finance_invest/manifest.yaml".to_string(), false),
        ("finance_invest/workflows/a.yaml".to_string(), false),
    ];
    assert_eq!(check_archive_entries(&entries).unwrap(), "finance_invest");
}

#[test]
fn archive_without_manifest_is_refused() {
    let entries = vec![("pack/workflows/a.yaml".to_string(), false)];
    assert!(matches!(check_archive_entries(&entries), Err(PackImportError::MissingManifest)));
    assert!(matches!(check_archive_entries(&vec![]), Err(PackImportError::MissingManifest)));
    assert_eq!(
        PackImportError::missing_manifest_message(),
        "归档内未找到 manifest.yaml，不是有效的 .opcip 行业包"
    );
}

#[test]
fn archive_with_two_packs_is_refused() {
    let entries = vec![
        ("a/manifest.yaml".to_string(), false),
        ("b/manifest.yaml".to_string(), false),
        ("a/x.yaml".to_string(), false),
    ];
    match check_archive_entries(&entries) {
        Err(PackImportError::NotSinglePack(tops)) => assert_eq!(tops, vec!["a".to_string(), "b".to_string()]),
        other => panic!("unexpected {other:?}"),
    }
}

#[test]
fn config_sync_actions() {
    assert_eq!(sync_action(true, true, false, false), SyncAction::CopyTree);
    assert_eq!(sync_action(true, true, true, true), SyncAction::MergeChildren);
    assert_eq!(sync_action(false, true, true, true), SyncAction::CopyMissing);
    assert_eq!(sync_action(false, true, false, true), SyncAction::CopyTree);
    assert_eq!(sync_action(true, false, false, true), SyncAction::Keep);
    assert_eq!(sync_action(false, false, false, false), SyncAction::CopyFile);
}

#[test]
fn domain_template_assembly() {
    let nodes = vec![
        make_trigger(100, 150),
        make_agent_node_with_inputs(
            "a-spec",
            "定义规约",
            "prompt",
            vec![td("FileRead"), td("Grep")],
            Some("opc-cto-cto-ai-engineer"),
            "a-spec_result",
            vec![("requirements".to_string(), "{requirements}".to_string())],
            250,
            150,
        ),
        make_agent_node("a-doc", "文档", "p2", vec![], None, "a-doc_result", 400, 150),
        make_end(550, 150),
    ];
    let edges = vec![edge("e1", "trigger", "a-spec"), edge("e2", "a-spec", "a-doc"), edge("e3", "a-doc", "end")];
    let t = build_domain_template(
        "wf-eng-api-design",
        "API设计",
        "设计API",
        "🔌",
        vec!["opc".to_string(), "engineering".to_string()],
        "opc-cto-cto-ai-engineer",
        nodes,
        edges,
    );
    assert_eq!(t.version, DOMAIN_TEMPLATE_VERSION);
    assert_eq!(t.version, 2);
    assert_eq!(t.error_config, Some(OnFailureAction::RetryThenAbort));
    assert!(t.is_preset && t.is_editable && !t.is_public);
    assert_eq!(t.created_at, t.updated_at);
    assert_eq!(t.edges.len(), 3);
    match &t.nodes[1] {
        WorkflowNode::Agent(b, cfg) => {
            assert_eq!((b.position.x, b.position.y), (250, 150));
            assert_eq!(b.description, "");
            assert_eq!(cfg.exposed_tools, vec!["FileRead".to_string(), "Grep".to_string()]);
            assert_eq!(cfg.agent_profile_id.as_deref(), Some("opc-cto-cto-ai-engineer"));
            assert!(!cfg.hallucination_guard);
            assert_eq!(cfg.input_mapping, vec![("requirements".to_string(), "{requirements}".to_string())]);
        },
        other => panic!("unexpected {other:?}"),
    }
    match &t.nodes[2] {
        WorkflowNode::Agent(_, cfg) => {
            assert!(cfg.tools.is_empty() && cfg.input_mapping.is_empty());
            assert_eq!(cfg.agent_profile_id, None);
            assert_eq!(cfg.max_tool_rounds, Some(10));
        },
        other => panic!("unexpected {other:?}"),
    }
    match &t.nodes[3] {
        WorkflowNode::End(b) => assert_eq!(b.title, "完成"),
        other => panic!("unexpected {other:?}"),
    }
}


#[test]
fn engineering_domain_templates_hold_the_catalogue() {
    let ts = engineering::engineering_domain_templates(5);
    assert_eq!(ts.len(), 13);
    assert_eq!(ts[0].id, "wf-eng-api-design");
    assert_eq!(ts[0].name, "API设计");
    assert_eq!(ts[0].icon, "🔌");
    assert_eq!(ts[0].tags, vec!["opc".to_string(), "engineering".to_string()]);
    assert_eq!(ts[0].version, 2);
    assert_eq!(ts[0].created_at, 5);
    match &ts[0].nodes[1] {
        WorkflowNode::Agent(b, cfg) => {
            assert_eq!(b.id, "a-spec");
            assert_eq!((b.position.x, b.position.y), (250, 150));
            assert_eq!(cfg.exposed_tools, vec!["FileRead".to_string(), "Grep".to_string()]);
            assert_eq!(cfg.input_mapping, vec![("requirements".to_string(), "{requirements}".to_string())]);
            assert!(cfg.system_prompt.starts_with("你作为API设计师，定义REST/GraphQL API规约：\n"));
        },
        other => panic!("unexpected {other:?}"),
    }
    assert_eq!(ts[0].edges[0].source, "trigger");
    let refactor = ts.iter().find(|t| t.id == "wf-eng-refactor").unwrap();
    assert_eq!(refactor.nodes.len(), 44);
    assert_eq!(refactor.edges.len(), 43);
}

#[test]
fn every_domain_template_is_a_joined_chain() {
    let all = vec![
        academic::academic_domain_templates(0),
        design::design_domain_templates(0),
        gamedev::gamedev_domain_templates(0),
        gis::gis_domain_templates(0),
        paidmedia::paidmedia_domain_templates(0),
        pm::pm_domain_templates(0),
        product::product_domain_templates(0),
        security::security_domain_templates(0),
        spatial::spatial_domain_templates(0),
        specialized::specialized_domain_templates(0),
        strategy::strategy_domain_templates(0),
        support::support_domain_templates(0),
        testing::testing_domain_templates(0),
    ];
    let counts: Vec<usize> = all.iter().map(|ts| ts.len()).collect();
    assert_eq!(counts, vec![2, 4, 3, 4, 2, 3, 3, 4, 2, 10, 2, 3, 3]);
    for ts in &all {
        for t in ts {
            assert!(t.id.starts_with("wf-"));
            assert_eq!(t.error_config, Some(OnFailureAction::RetryThenAbort));
            assert!(t.variables.is_empty());
            for e in &t.edges {
                assert_eq!(e.edge_type, EdgeType::Direct);
                assert_eq!(e.source_handle, None);
                assert!(t.nodes.iter().any(|n| match n {
                    WorkflowNode::Trigger(b) | WorkflowNode::End(b) => b.id == e.source,
                    WorkflowNode::Agent(b, _) | WorkflowNode::Approval(b, _) => b.id == e.source,
                }));
            }
        }
    }
}

#[test]
fn domain_templates_reseed_only_when_older() {
    assert!(domain_template_should_seed(None));
    assert!(domain_template_should_seed(Some(1)));
    assert!(!domain_template_should_seed(Some(2)));
    assert!(!domain_template_should_seed(Some(3)));
}

#[test]
fn conditional_edges_leave_approval_steps() {
    let w = workflow(vec![
        step("s1", "agent", &[]),
        step("gate", "approval", &[]),
        step("s2", "agent", &[]),
        step("s3", "agent", &[]),
        step("gate2", "approval", &[]),
    ]);
    let t = build_workflow_template(&w, 1, &vec![], 0);
    for e in &t.edges {
        if e.edge_type != EdgeType::Direct {
            assert!(e.source == "gate" || e.source == "gate2", "{}", e.id);
        }
    }
    assert!(t.edges.iter().any(|e| e.id == "e-s2-s3" && e.edge_type == EdgeType::Direct));
    assert!(t.edges.iter().any(|e| e.id == "e-trigger-s1" && e.edge_type == EdgeType::Direct));
}

#[test]
fn declared_error_handling_becomes_error_config() {
    let mut w = workflow(vec![step("a-analyze", "agent", &[])]);
    let plain = build_workflow_template(&w, 1, &vec![], 5);
    assert_eq!(plain.error_config, None);
    w.error_handling = Some(OnFailureAction::RetryThenAbort);
    let t = build_workflow_template(&w, 1, &vec![], 5);
    assert_eq!(t.error_config, Some(OnFailureAction::RetryThenAbort));
}

#[test]
fn prompt_references_become_template_variables() {
    let mut a = step("a-quote", "agent", &["get_stock_quote"]);
    a.prompt = "查询 {keyword} 的行情，周期 {period}".to_string();
    let mut b = step("a-report", "agent", &[]);
    b.prompt = "汇总 {{keyword}}；输出 JSON {\"score\": 1}，忽略 { x } 与 {bad-name} 与 {}".to_string();
    let mut c = step("a-more", "agent", &[]);
    c.prompt = "{market_2}{period}".to_string();
    let w = workflow(vec![a, b, c]);
    let t = build_workflow_template(&w, 1, &vec![tool("get_stock_quote")], 5);
    assert_eq!(t.variables, vec!["keyword".to_string(), "period".to_string(), "market_2".to_string()]);
    assert!(t.variables.contains(&"keyword".to_string()));
}

#[test]
fn prompts_without_references_have_no_variables() {
    let w = workflow(vec![step("a-one", "agent", &[]), step("a-two", "agent", &[])]);
    let t = build_workflow_template(&w, 1, &vec![], 5);
    assert!(t.variables.is_empty());
}

#[test]
fn prompt_variables_scans_each_prompt() {
    let prompts = vec!["{a}{b}".to_string(), "x {a} {c".to_string(), "{c}".to_string()];
    assert_eq!(
        prompt_variables(&prompts),
        vec!["a".to_string(), "b".to_string(), "c".to_string()]
    );
    assert!(prompt_variables(&vec![]).is_empty());
}

#[test]
fn second_seed_pass_writes_nothing() {
    let ms = vec![manifest("accounting", 2, true), manifest("education", 1, true), manifest("legacy", 3, false)];
    let before = vec![None, Some((1, 1)), Some((3, 1))];
    let first = plan_industry_seeding(&before, &ms);
    assert_eq!(first, vec![SeedDecision::Seed, SeedDecision::AlreadySeeded, SeedDecision::AlreadySeeded]);
    let after: Vec<Option<(i32, i32)>> = ms
        .iter()
        .map(|m| {
            let r = registry_row(m, 9);
            Some((r.version, r.enabled))
        })
        .collect();
    let second = plan_industry_seeding(&after, &ms);
    assert_eq!(second, vec![SeedDecision::AlreadySeeded, SeedDecision::AlreadySeeded, SeedDecision::Disabled]);
    assert!(!second.contains(&SeedDecision::Seed));
}

#[test]
fn domain_reseed_plan_counts_and_settles() {
    let existing = vec![None, Some(1), Some(2), Some(5), None];
    let (flags, count) = domain_reseed_plan(&existing);
    assert_eq!(flags, vec![true, true, false, false, true]);
    assert_eq!(count, 3);
    let after: Vec<Option<i32>> = existing
        .iter()
        .zip(&flags)
        .map(|(e, f)| if *f { Some(DOMAIN_TEMPLATE_VERSION) } else { *e })
        .collect();
    assert_eq!(after, vec![Some(2), Some(2), Some(2), Some(5), Some(2)]);
    let (again, none) = domain_reseed_plan(&after);
    assert!(again.iter().all(|f| !f));
    assert_eq!(none, 0);
    assert_eq!(domain_reseed_plan(&vec![]).1, 0);
}
