use opc_commands::domain_workflows::{extract_domain_from_id, opc_list_domain_workflows, DomainWorkflowDef};
use opc_commands::opc_setup::{
    bulk_profile_id, demand_template_action, embedded_experts, expert_description, expert_display_name,
    expert_domain, expert_id, expert_role_map, industry_roles, opc_business_roles, opc_roles,
    role_profile_description, role_profile_id, role_profile_name, tool_prompt, TemplateSeedAction,
    DEMAND_TEMPLATE_ID, DEMAND_TEMPLATE_VERSION,
};
use opc_commands::demand_template::{demand_discovery_template, DemandNodeKind};
use opc_commands::opc_setup::demand_variables_to_keep;
use opc_commands::opc_setup::{profile_tools, tools_for_expert};
use opc_commands::platform::{discord_send_webhook, telegram_send_token, PlatformSendConfig, PlatformSendError};
use opc_commands::plugin::{is_remote_plugin_source, plugin_hooks};
use opc_commands::pty::{session_not_found, PtySessionInfo, PtySessionStatus};
use opc_commands::quickbar::{quickbar_url, QuickbarUrl, FALLBACK_URL_STR, QUICKBAR_LABEL};
use opc_commands::reco_cron::{
    default_reco_config, is_reco_job, last_picks_count, reco_cron_description, status_label, toggled_status,
    validate_reco_cron_request, CronJobRecord, CronJobStatus, Period, RecoCronConfig, RecoCronError,
    RecoCronJobResponse, no_picks_report, report_stocks, RecoPick,
};
use opc_commands::reminder::{
    acknowledge_result, cleanup_count, validate_reminder_input, CreateReminderInput, RecurrenceFrequency,
    ReminderInputError,
};
use opc_commands::retrieval::{find_hit_by_ref, stats_filter, validate_feedback, FeedbackStatsQuery, HitRef};
use opc_commands::text::{decimal_string, join_strings};

fn def(id: &str, tags: &[&str]) -> DomainWorkflowDef {
    DomainWorkflowDef {
        id: id.to_string(),
        name: format!("name {id}"),
        description: String::new(),
        icon: "🔧".to_string(),
        tags: tags.iter().map(|t| t.to_string()).collect(),
        step_count: 3,
    }
}

fn reminder(title: &str, at: &str, freq: Option<&str>, interval: Option<u32>) -> CreateReminderInput {
    CreateReminderInput {
        title: title.to_string(),
        description: Some("  note  ".to_string()),
        scheduled_at: at.to_string(),
        recurrence_frequency: freq.map(|f| f.to_string()),
        recurrence_interval: interval,
    }
}

#[test]
fn domain_of_workflow_id() {
    assert_eq!(extract_domain_from_id("wf-eng-code-review"), "eng");
    assert_eq!(extract_domain_from_id("wf-finance"), "finance");
    assert_eq!(extract_domain_from_id("wf-"), "");
    assert_eq!(extract_domain_from_id("workflow-accounting"), "unknown");
    assert_eq!(extract_domain_from_id(""), "unknown");
}

#[test]
fn domain_listing_filters() {
    let all = vec![def("wf-eng-review", &["code"]), def("wf-design-logo", &["brand"]), def("wf-eng-ci", &["ops"])];
    let every = opc_list_domain_workflows(&all, None, None);
    assert_eq!(every.len(), 3);
    assert_eq!(every[1].domain, "design");
    assert_eq!(every[1].step_count, 3);
    let eng = opc_list_domain_workflows(&all, Some("eng"), None);
    let ids: Vec<&str> = eng.iter().map(|s| s.id.as_str()).collect();
    assert_eq!(ids, vec!["wf-eng-review", "wf-eng-ci"]);
    let ops = opc_list_domain_workflows(&all, Some("eng"), Some("ops"));
    assert_eq!(ops.len(), 1);
    assert_eq!(ops[0].id, "wf-eng-ci");
    assert!(opc_list_domain_workflows(&all, Some("none"), None).is_empty());
}

#[test]
fn reminder_valid_input() {
    let v = validate_reminder_input(&reminder("  Pay rent ", "2024-05-01T08:00:00+08:00", Some("weekly"), Some(2)))
        .unwrap();
    assert_eq!(v.title, "Pay rent");
    assert_eq!(v.description, "note");
    assert_eq!(v.scheduled_at, (1714521600, 0));
    let r = v.recurrence.unwrap();
    assert_eq!(r.frequency, RecurrenceFrequency::Weekly);
    assert_eq!(r.interval, 2);
    let once = validate_reminder_input(&reminder("x", "2024-05-01T00:00:00Z", Some("yearly"), Some(0))).unwrap();
    assert!(once.recurrence.is_none());
    let no_interval = validate_reminder_input(&reminder("x", "2024-05-01T00:00:00Z", Some("daily"), None)).unwrap();
    assert!(no_interval.recurrence.is_none());
}

#[test]
fn reminder_errors() {
    assert!(matches!(
        validate_reminder_input(&reminder("   ", "2024-05-01T00:00:00Z", None, None)),
        Err(ReminderInputError::TitleEmpty)
    ));
    let long = "a".repeat(201);
    assert!(matches!(
        validate_reminder_input(&reminder(&long, "2024-05-01T00:00:00Z", None, None)),
        Err(ReminderInputError::TitleTooLong)
    ));
    let limit = "a".repeat(200);
    assert!(validate_reminder_input(&reminder(&limit, "2024-05-01T00:00:00Z", None, None)).is_ok());
    match validate_reminder_input(&reminder("t", "tomorrow", None, None)) {
        Err(e @ ReminderInputError::BadDate(_)) => assert!(e.message().starts_with("日期格式错误: ")),
        other => panic!("unexpected {other:?}"),
    }
    let bad = validate_reminder_input(&reminder("t", "2024-05-01T00:00:00Z", Some("hourly"), Some(1)));
    assert!(matches!(bad, Err(ReminderInputError::BadFrequency)));
    assert_eq!(ReminderInputError::TitleEmpty.message(), "提醒标题不能为空");
    assert_eq!(ReminderInputError::TitleTooLong.message(), "提醒标题不能超过 200 个字符");
    assert_eq!(ReminderInputError::BadFrequency.message(), "recurrence_frequency 须为 daily/weekly/monthly");
}

#[test]
fn reminder_small_answers() {
    let a = acknowledge_result("n-1".to_string());
    assert!(a.acknowledged);
    assert_eq!(a.notification_id, "n-1");
    assert_eq!(cleanup_count(5, 2), 3);
    assert_eq!(cleanup_count(0, 0), 0);
}

#[test]
fn reminder_time_is_read_as_utc_with_fraction() {
    let v = validate_reminder_input(&reminder("t", "1970-01-01T00:00:01.5Z", None, None)).unwrap();
    assert_eq!(v.scheduled_at, (1, 500_000_000));
    assert!(matches!(
        validate_reminder_input(&reminder("t", "2024-13-01T00:00:00Z", None, None)),
        Err(ReminderInputError::BadDate(_))
    ));
}

#[test]
fn reco_cron_validation() {
    assert_eq!(validate_reco_cron_request(&vec![], 5), Err(RecoCronError::NoPeriods));
    assert_eq!(validate_reco_cron_request(&vec![], 0), Err(RecoCronError::NoPeriods));
    assert_eq!(validate_reco_cron_request(&vec![Period::Short], 0), Err(RecoCronError::ZeroTopN));
    assert_eq!(validate_reco_cron_request(&vec![Period::Short, Period::Mid], 3), Ok(()));
    assert_eq!(RecoCronError::NoPeriods.message(), "periods 不能为空");
    assert_eq!(RecoCronError::ZeroTopN.message(), "top_n 必须大于 0");
}

#[test]
fn reco_cron_texts() {
    assert_eq!(reco_cron_description(70, 5), "荐股定时推送 (置信度≥70%, 前5只)");
    assert_eq!(reco_cron_description(0, 12), "荐股定时推送 (置信度≥0%, 前12只)");
    assert!(is_reco_job(Some("stock-recommendation")));
    assert!(!is_reco_job(Some("stock-analysis")));
    assert!(!is_reco_job(None));
    assert_eq!(toggled_status(true), CronJobStatus::Active);
    assert_eq!(toggled_status(false), CronJobStatus::Paused);
    assert_eq!(status_label("Paused"), "paused");
    assert_eq!(status_label("Active"), "active");
    let d = default_reco_config();
    assert_eq!(d.periods, vec![Period::Short]);
    assert_eq!(d.min_confidence, 60);
    assert_eq!(d.top_n, 5);
}

#[test]
fn picks_count_reads_pushed_field() {
    assert_eq!(last_picks_count(Some("{\"pushed\":4,\"failed\":0}")), Some(4));
    assert_eq!(last_picks_count(Some("{\"pushed\":-1}")), None);
    assert_eq!(last_picks_count(Some("not json")), None);
    assert_eq!(last_picks_count(Some("{\"sent\":2}")), None);
    assert_eq!(last_picks_count(None), None);
}

#[test]
fn cron_job_response() {
    let job = CronJobRecord {
        id: "j1".to_string(),
        name: "daily picks".to_string(),
        description: "d".to_string(),
        schedule: "0 9 * * *".to_string(),
        status_name: "Active".to_string(),
        recurring: true,
        run_count: 3,
        last_run_at: Some(10),
        next_run_at: None,
        last_output: Some("{\"pushed\":2}".to_string()),
    };
    let parsed = RecoCronConfig { periods: vec![Period::Mid, Period::Long], min_confidence: 70, top_n: 8 };
    let r = RecoCronJobResponse::from_job(&job, Some(parsed));
    assert_eq!(r.id, "j1");
    assert_eq!(r.schedule, "0 9 * * *");
    assert_eq!(r.status, "active");
    assert!(r.recurring);
    assert_eq!(r.run_count, 3);
    assert_eq!(r.last_run_at, Some(10));
    assert_eq!(r.next_run_at, None);
    assert_eq!(r.config.periods, vec![Period::Mid, Period::Long]);
    assert_eq!(r.config.top_n, 8);
    assert_eq!(r.last_picks_count, Some(2));
    let fallback = RecoCronJobResponse::from_job(&job, None);
    assert_eq!(fallback.config.periods, vec![Period::Short]);
    assert_eq!(fallback.config.min_confidence, 60);
    assert_eq!(fallback.config.top_n, 5);
}

#[test]
fn feedback_values() {
    assert!(validate_feedback(None).is_ok());
    assert!(validate_feedback(Some("positive")).is_ok());
    assert!(validate_feedback(Some("negative")).is_ok());
    assert!(validate_feedback(Some("irrelevant")).is_ok());
    assert_eq!(
        validate_feedback(Some("great")).unwrap_err(),
        "Invalid feedback value: great (expected positive/negative/irrelevant)"
    );
}

#[test]
fn feedback_stats_and_hit_lookup() {
    assert_eq!(stats_filter(None), (None, None));
    let q = FeedbackStatsQuery { knowledge_base_id: Some("kb".to_string()), since: Some(5) };
    assert_eq!(stats_filter(Some(q)), (Some("kb".to_string()), Some(5)));
    let hits = vec![
        HitRef { id: "h1".to_string(), document_id: "d1".to_string(), chunk_ref: "c1".to_string() },
        HitRef { id: "h2".to_string(), document_id: "d1".to_string(), chunk_ref: "c2".to_string() },
        HitRef { id: "h3".to_string(), document_id: "d1".to_string(), chunk_ref: "c2".to_string() },
    ];
    assert_eq!(find_hit_by_ref(&hits, "d1", "c2"), Some(1));
    assert_eq!(find_hit_by_ref(&hits, "d2", "c1"), None);
}

#[test]
fn platform_send_targets() {
    let cfg = PlatformSendConfig {
        telegram_enabled: true,
        telegram_bot_token: Some("tok".to_string()),
        discord_enabled: false,
        discord_webhook_url: Some("https://hook".to_string()),
    };
    assert_eq!(telegram_send_token(&cfg).unwrap(), "tok");
    assert_eq!(discord_send_webhook(&cfg).unwrap_err(), PlatformSendError::DiscordDisabled);
    let cfg2 = PlatformSendConfig {
        telegram_enabled: true,
        telegram_bot_token: None,
        discord_enabled: true,
        discord_webhook_url: None,
    };
    assert_eq!(telegram_send_token(&cfg2).unwrap_err(), PlatformSendError::NoTelegramToken);
    assert_eq!(discord_send_webhook(&cfg2).unwrap_err(), PlatformSendError::NoDiscordWebhook);
    let cfg3 = PlatformSendConfig {
        telegram_enabled: false,
        telegram_bot_token: Some("t".to_string()),
        discord_enabled: true,
        discord_webhook_url: Some("https://hook".to_string()),
    };
    assert_eq!(telegram_send_token(&cfg3).unwrap_err(), PlatformSendError::TelegramDisabled);
    assert_eq!(discord_send_webhook(&cfg3).unwrap(), "https://hook");
    assert_eq!(PlatformSendError::TelegramDisabled.message(), "Telegram integration is not enabled");
    assert_eq!(PlatformSendError::NoDiscordWebhook.message(), "Discord webhook URL not configured");
}

#[test]
fn quickbar_urls() {
    match quickbar_url(Some("http://localhost:1420//")) {
        QuickbarUrl::External(u) => assert_eq!(u, "http://localhost:1420/index.html?__route=quickbar"),
        other => panic!("unexpected {other:?}"),
    }
    match quickbar_url(None) {
        QuickbarUrl::App(p) => assert_eq!(p, "index.html?__route=quickbar"),
        other => panic!("unexpected {other:?}"),
    }
    assert_eq!(QUICKBAR_LABEL, "quickbar");
    assert_eq!(FALLBACK_URL_STR, "http://localhost:1420/index.html?__route=quickbar");
}

#[test]
fn pty_texts() {
    let info = PtySessionInfo::from_status("s1".to_string(), PtySessionStatus::Exited);
    assert_eq!(info.id, "s1");
    assert_eq!(info.status, "exited");
    assert_eq!((info.rows, info.cols), (24, 80));
    assert!(info.shell.is_none() && info.cwd.is_none());
    assert_eq!(PtySessionInfo::from_status("x".to_string(), PtySessionStatus::Starting).status, "starting");
    assert_eq!(session_not_found("abc"), "PTY session 'abc' not found");
}

#[test]
fn plugin_helpers() {
    let hooks = plugin_hooks(&vec!["lint".to_string()], &vec![]);
    assert_eq!(hooks[0].0, "PreToolUse");
    assert_eq!(hooks[0].1, vec!["lint".to_string()]);
    assert_eq!(hooks[1].0, "PostToolUse");
    assert!(hooks[1].1.is_empty());
    assert!(is_remote_plugin_source("https://example.com/p.zip"));
    assert!(is_remote_plugin_source("http://x"));
    assert!(is_remote_plugin_source("git@github.com:a/b.git"));
    assert!(is_remote_plugin_source("@scope/pkg"));
    assert!(!is_remote_plugin_source("/home/me/plugin"));
}

#[test]
fn expert_document_domain() {
    let doc = "---\nname: CFO\ndomain:  财务分析  \ndomain: other\n---\nbody";
    assert_eq!(expert_domain(doc), "财务分析");
    assert_eq!(expert_domain("no header here"), "");
    assert_eq!(expert_domain("domain:"), "");
    assert_eq!(expert_domain(" domain: x"), "");
}

#[test]
fn profile_ids_and_texts() {
    assert_eq!(expert_id("cfo-financial-analyst"), "opc-cfo-financial-analyst");
    assert_eq!(role_profile_id("cfo", "cfo-financial-analyst"), "opc-cfo-cfo-financial-analyst");
    assert_eq!(bulk_profile_id("engineering", "ai-engineer"), "exp-engineering-ai-engineer");
    assert_eq!(expert_description("CFO", "财务"), "OPC CFO — 财务 领域");
    assert_eq!(role_profile_name("CFO/财务负责人"), "🏢 CFO/财务负责人");
    assert_eq!(role_profile_description("CFO/财务负责人", "cfo"), "OPC CFO/财务负责人 — 角色绑定 cfo");
}

#[test]
fn expert_tables() {
    let experts = embedded_experts();
    assert_eq!(experts.len(), 6);
    assert_eq!(expert_display_name(&experts, "cfo-financial-analyst"), "CFO/财务负责人");
    assert_eq!(expert_display_name(&experts, "nobody"), "nobody");
    let roles = expert_role_map();
    assert_eq!(expert_display_name(&roles, "cto-ai-engineer"), "cto");
    assert_eq!(opc_roles().len(), 6);
    assert_eq!(opc_roles()[0].id, "ceo");
    assert_eq!(opc_business_roles().len(), 4);
    assert_eq!(industry_roles()[0].id, "ai_researcher");
}

#[test]
fn demand_template_versions() {
    assert!(matches!(demand_template_action(None), TemplateSeedAction::Create));
    assert!(matches!(demand_template_action(Some(DEMAND_TEMPLATE_VERSION)), TemplateSeedAction::Keep));
    assert!(matches!(demand_template_action(Some(9)), TemplateSeedAction::Keep));
    match demand_template_action(Some(2)) {
        TemplateSeedAction::Upgrade(id) => assert_eq!(id, "opc-demand-discovery_v2"),
        other => panic!("unexpected {other:?}"),
    }
    match demand_template_action(Some(-1)) {
        TemplateSeedAction::Upgrade(id) => assert_eq!(id, format!("{DEMAND_TEMPLATE_ID}_v-1")),
        other => panic!("unexpected {other:?}"),
    }
}

#[test]
fn tool_prompt_line() {
    assert_eq!(tool_prompt(&vec![]), "");
    assert_eq!(
        tool_prompt(&vec!["search_stock".to_string(), "get_stock_quote".to_string()]),
        "\n\n你可以调用以下工具获取最新数据：search_stock、get_stock_quote。请先调用相关工具获取数据，再基于返回结果进行分析。"
    );
}

#[test]
fn decimal_and_join() {
    assert_eq!(decimal_string(0), "0");
    assert_eq!(decimal_string(1234567890), "1234567890");
    assert_eq!(decimal_string(u64::MAX), u64::MAX.to_string());
    assert_eq!(join_strings(&vec!["a".to_string(), "b".to_string(), "c".to_string()], ", "), "a, b, c");
    assert_eq!(join_strings(&vec![], "-"), "");
}

#[test]
fn expert_profile_tools() {
    let table = profile_tools();
    let cfo = tools_for_expert(&table, "cfo-financial-analyst").unwrap();
    assert_eq!(cfo.len(), 10);
    assert_eq!(cfo[0], "OpcListInvoices");
    assert_eq!(cfo[9], "OpcSearchWiki");
    assert!(tools_for_expert(&table, "intern").is_none());
}

#[test]
fn demand_discovery_template_layout() {
    let t = demand_discovery_template(9);
    assert_eq!(t.id, "opc-demand-discovery");
    assert_eq!(t.version, 3);
    assert!(t.is_public);
    assert_eq!(t.nodes.len(), 17);
    assert_eq!(t.edges.len(), 21);
    assert_eq!(t.created_at, 9);
    let tool = &t.nodes[1];
    assert_eq!(tool.kind, DemandNodeKind::Tool);
    assert_eq!(tool.base.id, "t-customers-data");
    assert_eq!((tool.base.position.x, tool.base.position.y), (40, 100));
    assert_eq!(tool.input_mapping, vec![("status".to_string(), "all".to_string())]);
    let cmo = &t.nodes[2];
    assert_eq!(cmo.kind, DemandNodeKind::Agent);
    assert_eq!((cmo.base.position.x, cmo.base.position.y), (280, 100));
    assert_eq!(cmo.model_role.as_deref(), Some("cmo"));
    assert_eq!(cmo.context_sources, vec!["t-customers-data".to_string()]);
    assert!(cmo.system_prompt.starts_with("你的任务: 营销增长分析\n\n重要原则：\n"));
    assert!(cmo.system_prompt.ends_with(
        "\n\n你可以调用以下工具获取最新数据：OpcListCustomers、OpcListBlogPosts、OpcGetDashboard、OpcSearchWiki。请先调用相关工具获取数据，再基于返回结果进行分析。"
    ));
    let coo_tool = &t.nodes[9];
    assert_eq!((coo_tool.base.position.x, coo_tool.base.position.y), (520, 280));
    let dash = &t.nodes[11];
    assert_eq!(dash.input_mapping, vec![("".to_string(), "all".to_string())]);
    assert_eq!(t.nodes[13].kind, DemandNodeKind::Parallel);
    assert_eq!(t.nodes[13].branches.len(), 6);
    let ceo = &t.nodes[14];
    assert_eq!(ceo.base.id, "a-ceo-decision");
    assert_eq!((ceo.base.position.x, ceo.base.position.y), (400, 500));
    assert_eq!(ceo.context_sources.len(), 6);
    assert_eq!(t.nodes[16].output_var.as_deref(), Some("final_decision"));
    assert_eq!(t.edges[20].id, "e-notify-end");
    assert_eq!(t.variables.len(), 3);
    assert_eq!(t.variables[2].value, "50000");
    assert_eq!(t.tool_defs.len(), 8);
    assert_eq!(t.tool_defs[6].parameters.properties[1].default.as_deref(), Some("medium"));
    assert_eq!(t.error_config, "{\"fallback_to_previous\":true,\"max_retries\":1,\"on_error\":\"stop\"}");
}

#[test]
fn demand_template_edges_join_its_nodes() {
    let t = demand_discovery_template(0);
    let ids: Vec<&str> = t.nodes.iter().map(|n| n.base.id.as_str()).collect();
    assert_eq!(t.edges.len(), 21);
    for e in &t.edges {
        assert!(ids.contains(&e.source.as_str()), "{}", e.id);
        assert!(ids.contains(&e.target.as_str()), "{}", e.id);
        assert_eq!(e.source_handle, None);
    }
}

#[test]
fn upgrade_keeps_the_stored_variables() {
    let stored = Some("[{\"name\":\"budget_limit\",\"value\":\"9\"}]".to_string());
    let upgrade = TemplateSeedAction::Upgrade(format!("{DEMAND_TEMPLATE_ID}_v2"));
    assert_eq!(demand_variables_to_keep(&upgrade, stored.clone()), stored);
    assert_eq!(demand_variables_to_keep(&upgrade, None), None);
    assert_eq!(demand_variables_to_keep(&TemplateSeedAction::Create, stored.clone()), None);
    assert_eq!(demand_variables_to_keep(&TemplateSeedAction::Keep, stored), None);
}

#[test]
fn recommendation_report_texts() {
    let (title, body) = no_picks_report();
    assert_eq!(title, "智能荐股更新");
    assert_eq!(body, "本次未发现符合条件的新推荐");
    let picks = vec![
        RecoPick { stock_code: "600519".to_string(), stock_name: "贵州茅台".to_string(), confidence: 87 },
        RecoPick { stock_code: "000001".to_string(), stock_name: "平安银行".to_string(), confidence: 0 },
    ];
    let stocks = report_stocks(&picks);
    assert_eq!(stocks.len(), 2);
    assert_eq!(stocks[0].stock_code, "600519");
    assert_eq!(stocks[0].stock_name, "贵州茅台");
    assert_eq!(stocks[0].action, "置信度 87");
    assert_eq!(stocks[0].score, 87);
    assert_eq!(stocks[1].action, "置信度 0");
    assert_eq!(stocks[1].score, 0);
    assert!(report_stocks(&vec![]).is_empty());
}
