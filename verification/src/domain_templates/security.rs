use vstd::prelude::*;
use crate::domain_seed::{
    build_domain_template_at, direct_edge, domain_agent_view, domain_template_view, end_view, make_agent_node,
    make_agent_node_with_inputs, make_end, make_trigger, name_tool, templates_view, trigger_view,
};
use crate::text::string_of;
use crate::workflow::{
    edge, edges_view, nodes_view, pair_seq_view, seq_view, td, tools_view, TemplateV, ToolDef, ToolV, WorkflowTemplate,
};

verus! {

/// Prompt of node `a-comp-standard` of `wf-sec-compliance`.
pub const PROMPT_SEC_COMPLIANCE_A_COMP_STANDARD: &'static str = "确定适用的安全标准和框架";

/// Prompt of node `a-comp-audit` of `wf-sec-compliance`.
pub const PROMPT_SEC_COMPLIANCE_A_COMP_AUDIT: &'static str = "逐项检查合规性";

/// Prompt of node `a-comp-report` of `wf-sec-compliance`.
pub const PROMPT_SEC_COMPLIANCE_A_COMP_REPORT: &'static str = "输出合规报告和整改计划";

/// `wf-sec-compliance` (合规审计) as stamped at `now`.
pub open spec fn sec_compliance_view(now: i64) -> TemplateV {
    domain_template_view(
        "wf-sec-compliance"@,
        "合规审计"@,
        "检查安全合规标准和差距"@,
        "✅"@,
        seq!["opc"@, "security"@],
        seq![
            trigger_view(250, 0),
            domain_agent_view(
                "a-comp-standard"@,
                "标准对照"@,
                PROMPT_SEC_COMPLIANCE_A_COMP_STANDARD@,
                Seq::<ToolV>::empty(),
                Some("opc-cto-cto-ai-engineer"@),
                "a-comp-standard_result"@,
                Seq::<(Seq<char>, Seq<char>)>::empty(),
                250,
                150,
            ),
            domain_agent_view(
                "a-comp-audit"@,
                "审计"@,
                PROMPT_SEC_COMPLIANCE_A_COMP_AUDIT@,
                Seq::<ToolV>::empty(),
                Some("opc-cto-cto-ai-engineer"@),
                "a-comp-audit_result"@,
                Seq::<(Seq<char>, Seq<char>)>::empty(),
                250,
                350,
            ),
            domain_agent_view(
                "a-comp-report"@,
                "报告"@,
                PROMPT_SEC_COMPLIANCE_A_COMP_REPORT@,
                Seq::<ToolV>::empty(),
                Some("opc-cto-cto-ai-engineer"@),
                "a-comp-report_result"@,
                Seq::<(Seq<char>, Seq<char>)>::empty(),
                250,
                550,
            ),
            end_view(250, 750),
        ],
        seq![
            direct_edge("e-trigger-a-comp-standard"@, "trigger"@, "a-comp-standard"@),
            direct_edge("e-a-comp-standard-a-comp-audit"@, "a-comp-standard"@, "a-comp-audit"@),
            direct_edge("e-a-comp-audit-a-comp-report"@, "a-comp-audit"@, "a-comp-report"@),
            direct_edge("e-a-comp-report-end"@, "a-comp-report"@, "end"@),
        ],
        now,
    )
}

fn sec_compliance(now: i64) -> (t: WorkflowTemplate)
    ensures
        t.view() == sec_compliance_view(now),
{
    let n0 = make_trigger(250, 0);
    let t1: Vec<ToolDef> = vec![];
    assert(tools_view(t1@) =~= Seq::<ToolV>::empty());
    let n1 = make_agent_node(
        "a-comp-standard",
        "标准对照",
        PROMPT_SEC_COMPLIANCE_A_COMP_STANDARD,
        t1,
        Some("opc-cto-cto-ai-engineer"),
        "a-comp-standard_result",
        250,
        150,
    );
    let t2: Vec<ToolDef> = vec![];
    assert(tools_view(t2@) =~= Seq::<ToolV>::empty());
    let n2 = make_agent_node(
        "a-comp-audit",
        "审计",
        PROMPT_SEC_COMPLIANCE_A_COMP_AUDIT,
        t2,
        Some("opc-cto-cto-ai-engineer"),
        "a-comp-audit_result",
        250,
        350,
    );
    let t3: Vec<ToolDef> = vec![];
    assert(tools_view(t3@) =~= Seq::<ToolV>::empty());
    let n3 = make_agent_node(
        "a-comp-report",
        "报告",
        PROMPT_SEC_COMPLIANCE_A_COMP_REPORT,
        t3,
        Some("opc-cto-cto-ai-engineer"),
        "a-comp-report_result",
        250,
        550,
    );
    let n4 = make_end(250, 750);
    let nodes = vec![n0, n1, n2, n3, n4];
    assert(nodes_view(nodes@) =~= seq![
        trigger_view(250, 0),
        domain_agent_view(
            "a-comp-standard"@,
            "标准对照"@,
            PROMPT_SEC_COMPLIANCE_A_COMP_STANDARD@,
            Seq::<ToolV>::empty(),
            Some("opc-cto-cto-ai-engineer"@),
            "a-comp-standard_result"@,
            Seq::<(Seq<char>, Seq<char>)>::empty(),
            250,
            150,
        ),
        domain_agent_view(
            "a-comp-audit"@,
            "审计"@,
            PROMPT_SEC_COMPLIANCE_A_COMP_AUDIT@,
            Seq::<ToolV>::empty(),
            Some("opc-cto-cto-ai-engineer"@),
            "a-comp-audit_result"@,
            Seq::<(Seq<char>, Seq<char>)>::empty(),
            250,
            350,
        ),
        domain_agent_view(
            "a-comp-report"@,
            "报告"@,
            PROMPT_SEC_COMPLIANCE_A_COMP_REPORT@,
            Seq::<ToolV>::empty(),
            Some("opc-cto-cto-ai-engineer"@),
            "a-comp-report_result"@,
            Seq::<(Seq<char>, Seq<char>)>::empty(),
            250,
            550,
        ),
        end_view(250, 750),
    ]);
    let edges = vec![
        edge("e-trigger-a-comp-standard", "trigger", "a-comp-standard"),
        edge("e-a-comp-standard-a-comp-audit", "a-comp-standard", "a-comp-audit"),
        edge("e-a-comp-audit-a-comp-report", "a-comp-audit", "a-comp-report"),
        edge("e-a-comp-report-end", "a-comp-report", "end"),
    ];
    assert(edges_view(edges@) =~= seq![
        direct_edge("e-trigger-a-comp-standard"@, "trigger"@, "a-comp-standard"@),
        direct_edge("e-a-comp-standard-a-comp-audit"@, "a-comp-standard"@, "a-comp-audit"@),
        direct_edge("e-a-comp-audit-a-comp-report"@, "a-comp-audit"@, "a-comp-report"@),
        direct_edge("e-a-comp-report-end"@, "a-comp-report"@, "end"@),
    ]);
    let tags: Vec<String> = vec![string_of("opc"), string_of("security")];
    assert(seq_view(tags@) =~= seq!["opc"@, "security"@]);
    build_domain_template_at(
        "wf-sec-compliance",
        "合规审计",
        "检查安全合规标准和差距",
        "✅",
        tags,
        "opc-cto-cto-ai-engineer",
        nodes,
        edges,
        now,
    )
}

/// Prompt of node `a-incident-detect` of `wf-sec-incident`.
pub const PROMPT_SEC_INCIDENT_A_INCIDENT_DETECT: &'static str = "确认安全事件类型和范围";

/// Prompt of node `a-incident-respond` of `wf-sec-incident`.
pub const PROMPT_SEC_INCIDENT_A_INCIDENT_RESPOND: &'static str = "执行应急响应和止损措施";

/// Prompt of node `a-incident-review` of `wf-sec-incident`.
pub const PROMPT_SEC_INCIDENT_A_INCIDENT_REVIEW: &'static str = "事故复盘和改进计划";

/// `wf-sec-incident` (安全事件响应) as stamped at `now`.
pub open spec fn sec_incident_view(now: i64) -> TemplateV {
    domain_template_view(
        "wf-sec-incident"@,
        "安全事件响应"@,
        "检测、分析和响应安全事件"@,
        "🚨"@,
        seq!["opc"@, "security"@],
        seq![
            trigger_view(250, 0),
            domain_agent_view(
                "a-incident-detect"@,
                "检测"@,
                PROMPT_SEC_INCIDENT_A_INCIDENT_DETECT@,
                Seq::<ToolV>::empty(),
                Some("opc-cto-cto-ai-engineer"@),
                "a-incident-detect_result"@,
                Seq::<(Seq<char>, Seq<char>)>::empty(),
                250,
                150,
            ),
            domain_agent_view(
                "a-incident-respond"@,
                "响应"@,
                PROMPT_SEC_INCIDENT_A_INCIDENT_RESPOND@,
                Seq::<ToolV>::empty(),
                Some("opc-cto-cto-ai-engineer"@),
                "a-incident-respond_result"@,
                Seq::<(Seq<char>, Seq<char>)>::empty(),
                250,
                350,
            ),
            domain_agent_view(
                "a-incident-review"@,
                "复盘"@,
                PROMPT_SEC_INCIDENT_A_INCIDENT_REVIEW@,
                Seq::<ToolV>::empty(),
                Some("opc-cto-cto-ai-engineer"@),
                "a-incident-review_result"@,
                Seq::<(Seq<char>, Seq<char>)>::empty(),
                250,
                550,
            ),
            end_view(250, 750),
        ],
        seq![
            direct_edge("e-trigger-a-incident-detect"@, "trigger"@, "a-incident-detect"@),
            direct_edge("e-a-incident-detect-a-incident-respond"@, "a-incident-detect"@, "a-incident-respond"@),
            direct_edge("e-a-incident-respond-a-incident-review"@, "a-incident-respond"@, "a-incident-review"@),
            direct_edge("e-a-incident-review-end"@, "a-incident-review"@, "end"@),
        ],
        now,
    )
}

fn sec_incident(now: i64) -> (t: WorkflowTemplate)
    ensures
        t.view() == sec_incident_view(now),
{
    let n0 = make_trigger(250, 0);
    let t1: Vec<ToolDef> = vec![];
    assert(tools_view(t1@) =~= Seq::<ToolV>::empty());
    let n1 = make_agent_node(
        "a-incident-detect",
        "检测",
        PROMPT_SEC_INCIDENT_A_INCIDENT_DETECT,
        t1,
        Some("opc-cto-cto-ai-engineer"),
        "a-incident-detect_result",
        250,
        150,
    );
    let t2: Vec<ToolDef> = vec![];
    assert(tools_view(t2@) =~= Seq::<ToolV>::empty());
    let n2 = make_agent_node(
        "a-incident-respond",
        "响应",
        PROMPT_SEC_INCIDENT_A_INCIDENT_RESPOND,
        t2,
        Some("opc-cto-cto-ai-engineer"),
        "a-incident-respond_result",
        250,
        350,
    );
    let t3: Vec<ToolDef> = vec![];
    assert(tools_view(t3@) =~= Seq::<ToolV>::empty());
    let n3 = make_agent_node(
        "a-incident-review",
        "复盘",
        PROMPT_SEC_INCIDENT_A_INCIDENT_REVIEW,
        t3,
        Some("opc-cto-cto-ai-engineer"),
        "a-incident-review_result",
        250,
        550,
    );
    let n4 = make_end(250, 750);
    let nodes = vec![n0, n1, n2, n3, n4];
    assert(nodes_view(nodes@) =~= seq![
        trigger_view(250, 0),
        domain_agent_view(
            "a-incident-detect"@,
            "检测"@,
            PROMPT_SEC_INCIDENT_A_INCIDENT_DETECT@,
            Seq::<ToolV>::empty(),
            Some("opc-cto-cto-ai-engineer"@),
            "a-incident-detect_result"@,
            Seq::<(Seq<char>, Seq<char>)>::empty(),
            250,
            150,
        ),
        domain_agent_view(
            "a-incident-respond"@,
            "响应"@,
            PROMPT_SEC_INCIDENT_A_INCIDENT_RESPOND@,
            Seq::<ToolV>::empty(),
            Some("opc-cto-cto-ai-engineer"@),
            "a-incident-respond_result"@,
            Seq::<(Seq<char>, Seq<char>)>::empty(),
            250,
            350,
        ),
        domain_agent_view(
            "a-incident-review"@,
            "复盘"@,
            PROMPT_SEC_INCIDENT_A_INCIDENT_REVIEW@,
            Seq::<ToolV>::empty(),
            Some("opc-cto-cto-ai-engineer"@),
            "a-incident-review_result"@,
            Seq::<(Seq<char>, Seq<char>)>::empty(),
            250,
            550,
        ),
        end_view(250, 750),
    ]);
    let edges = vec![
        edge("e-trigger-a-incident-detect", "trigger", "a-incident-detect"),
        edge("e-a-incident-detect-a-incident-respond", "a-incident-detect", "a-incident-respond"),
        edge("e-a-incident-respond-a-incident-review", "a-incident-respond", "a-incident-review"),
        edge("e-a-incident-review-end", "a-incident-review", "end"),
    ];
    assert(edges_view(edges@) =~= seq![
        direct_edge("e-trigger-a-incident-detect"@, "trigger"@, "a-incident-detect"@),
        direct_edge("e-a-incident-detect-a-incident-respond"@, "a-incident-detect"@, "a-incident-respond"@),
        direct_edge("e-a-incident-respond-a-incident-review"@, "a-incident-respond"@, "a-incident-review"@),
        direct_edge("e-a-incident-review-end"@, "a-incident-review"@, "end"@),
    ]);
    let tags: Vec<String> = vec![string_of("opc"), string_of("security")];
    assert(seq_view(tags@) =~= seq!["opc"@, "security"@]);
    build_domain_template_at(
        "wf-sec-incident",
        "安全事件响应",
        "检测、分析和响应安全事件",
        "🚨",
        tags,
        "opc-cto-cto-ai-engineer",
        nodes,
        edges,
        now,
    )
}

/// Prompt of node `a-pentest-scope` of `wf-sec-pentest`.
pub const PROMPT_SEC_PENTEST_A_PENTEST_SCOPE: &'static str = "确定测试范围和目标";

/// Prompt of node `a-pentest-exec` of `wf-sec-pentest`.
pub const PROMPT_SEC_PENTEST_A_PENTEST_EXEC: &'static str = "执行渗透测试并记录发现";

/// Prompt of node `a-pentest-report` of `wf-sec-pentest`.
pub const PROMPT_SEC_PENTEST_A_PENTEST_REPORT: &'static str = "输出漏洞报告和修复建议";

/// `wf-sec-pentest` (渗透测试) as stamped at `now`.
pub open spec fn sec_pentest_view(now: i64) -> TemplateV {
    domain_template_view(
        "wf-sec-pentest"@,
        "渗透测试"@,
        "对应用和基础设施进行渗透测试"@,
        "🔓"@,
        seq!["opc"@, "security"@],
        seq![
            trigger_view(250, 0),
            domain_agent_view(
                "a-pentest-scope"@,
                "范围确定"@,
                PROMPT_SEC_PENTEST_A_PENTEST_SCOPE@,
                Seq::<ToolV>::empty(),
                Some("opc-cto-cto-ai-engineer"@),
                "a-pentest-scope_result"@,
                Seq::<(Seq<char>, Seq<char>)>::empty(),
                250,
                150,
            ),
            domain_agent_view(
                "a-pentest-exec"@,
                "执行"@,
                PROMPT_SEC_PENTEST_A_PENTEST_EXEC@,
                Seq::<ToolV>::empty(),
                Some("opc-cto-cto-ai-engineer"@),
                "a-pentest-exec_result"@,
                Seq::<(Seq<char>, Seq<char>)>::empty(),
                250,
                350,
            ),
            domain_agent_view(
                "a-pentest-report"@,
                "报告"@,
                PROMPT_SEC_PENTEST_A_PENTEST_REPORT@,
                Seq::<ToolV>::empty(),
                Some("opc-cto-cto-ai-engineer"@),
                "a-pentest-report_result"@,
                Seq::<(Seq<char>, Seq<char>)>::empty(),
                250,
                550,
            ),
            end_view(250, 750),
        ],
        seq![
            direct_edge("e-trigger-a-pentest-scope"@, "trigger"@, "a-pentest-scope"@),
            direct_edge("e-a-pentest-scope-a-pentest-exec"@, "a-pentest-scope"@, "a-pentest-exec"@),
            direct_edge("e-a-pentest-exec-a-pentest-report"@, "a-pentest-exec"@, "a-pentest-report"@),
            direct_edge("e-a-pentest-report-end"@, "a-pentest-report"@, "end"@),
        ],
        now,
    )
}

fn sec_pentest(now: i64) -> (t: WorkflowTemplate)
    ensures
        t.view() == sec_pentest_view(now),
{
    let n0 = make_trigger(250, 0);
    let t1: Vec<ToolDef> = vec![];
    assert(tools_view(t1@) =~= Seq::<ToolV>::empty());
    let n1 = make_agent_node(
        "a-pentest-scope",
        "范围确定",
        PROMPT_SEC_PENTEST_A_PENTEST_SCOPE,
        t1,
        Some("opc-cto-cto-ai-engineer"),
        "a-pentest-scope_result",
        250,
        150,
    );
    let t2: Vec<ToolDef> = vec![];
    assert(tools_view(t2@) =~= Seq::<ToolV>::empty());
    let n2 = make_agent_node(
        "a-pentest-exec",
        "执行",
        PROMPT_SEC_PENTEST_A_PENTEST_EXEC,
        t2,
        Some("opc-cto-cto-ai-engineer"),
        "a-pentest-exec_result",
        250,
        350,
    );
    let t3: Vec<ToolDef> = vec![];
    assert(tools_view(t3@) =~= Seq::<ToolV>::empty());
    let n3 = make_agent_node(
        "a-pentest-report",
        "报告",
        PROMPT_SEC_PENTEST_A_PENTEST_REPORT,
        t3,
        Some("opc-cto-cto-ai-engineer"),
        "a-pentest-report_result",
        250,
        550,
    );
    let n4 = make_end(250, 750);
    let nodes = vec![n0, n1, n2, n3, n4];
    assert(nodes_view(nodes@) =~= seq![
        trigger_view(250, 0),
        domain_agent_view(
            "a-pentest-scope"@,
            "范围确定"@,
            PROMPT_SEC_PENTEST_A_PENTEST_SCOPE@,
            Seq::<ToolV>::empty(),
            Some("opc-cto-cto-ai-engineer"@),
            "a-pentest-scope_result"@,
            Seq::<(Seq<char>, Seq<char>)>::empty(),
            250,
            150,
        ),
        domain_agent_view(
            "a-pentest-exec"@,
            "执行"@,
            PROMPT_SEC_PENTEST_A_PENTEST_EXEC@,
            Seq::<ToolV>::empty(),
            Some("opc-cto-cto-ai-engineer"@),
            "a-pentest-exec_result"@,
            Seq::<(Seq<char>, Seq<char>)>::empty(),
            250,
            350,
        ),
        domain_agent_view(
            "a-pentest-report"@,
            "报告"@,
            PROMPT_SEC_PENTEST_A_PENTEST_REPORT@,
            Seq::<ToolV>::empty(),
            Some("opc-cto-cto-ai-engineer"@),
            "a-pentest-report_result"@,
            Seq::<(Seq<char>, Seq<char>)>::empty(),
            250,
            550,
        ),
        end_view(250, 750),
    ]);
    let edges = vec![
        edge("e-trigger-a-pentest-scope", "trigger", "a-pentest-scope"),
        edge("e-a-pentest-scope-a-pentest-exec", "a-pentest-scope", "a-pentest-exec"),
        edge("e-a-pentest-exec-a-pentest-report", "a-pentest-exec", "a-pentest-report"),
        edge("e-a-pentest-report-end", "a-pentest-report", "end"),
    ];
    assert(edges_view(edges@) =~= seq![
        direct_edge("e-trigger-a-pentest-scope"@, "trigger"@, "a-pentest-scope"@),
        direct_edge("e-a-pentest-scope-a-pentest-exec"@, "a-pentest-scope"@, "a-pentest-exec"@),
        direct_edge("e-a-pentest-exec-a-pentest-report"@, "a-pentest-exec"@, "a-pentest-report"@),
        direct_edge("e-a-pentest-report-end"@, "a-pentest-report"@, "end"@),
    ]);
    let tags: Vec<String> = vec![string_of("opc"), string_of("security")];
    assert(seq_view(tags@) =~= seq!["opc"@, "security"@]);
    build_domain_template_at(
        "wf-sec-pentest",
        "渗透测试",
        "对应用和基础设施进行渗透测试",
        "🔓",
        tags,
        "opc-cto-cto-ai-engineer",
        nodes,
        edges,
        now,
    )
}

/// Prompt of node `a-threat-collect` of `wf-sec-threat-intel`.
pub const PROMPT_SEC_THREAT_INTEL_A_THREAT_COLLECT: &'static str = "收集行业威胁情报和安全公告";

/// Prompt of node `a-threat-analyze` of `wf-sec-threat-intel`.
pub const PROMPT_SEC_THREAT_INTEL_A_THREAT_ANALYZE: &'static str = "评估威胁影响和风险级别";

/// Prompt of node `a-threat-act` of `wf-sec-threat-intel`.
pub const PROMPT_SEC_THREAT_INTEL_A_THREAT_ACT: &'static str = "制定防护措施和更新策略";

/// `wf-sec-threat-intel` (威胁情报) as stamped at `now`.
pub open spec fn sec_threat_intel_view(now: i64) -> TemplateV {
    domain_template_view(
        "wf-sec-threat-intel"@,
        "威胁情报"@,
        "收集和分析最新安全威胁情报"@,
        "🕵️"@,
        seq!["opc"@, "security"@],
        seq![
            trigger_view(250, 0),
            domain_agent_view(
                "a-threat-collect"@,
                "情报收集"@,
                PROMPT_SEC_THREAT_INTEL_A_THREAT_COLLECT@,
                Seq::<ToolV>::empty(),
                Some("opc-cto-cto-ai-engineer"@),
                "a-threat-collect_result"@,
                Seq::<(Seq<char>, Seq<char>)>::empty(),
                250,
                150,
            ),
            domain_agent_view(
                "a-threat-analyze"@,
                "分析"@,
                PROMPT_SEC_THREAT_INTEL_A_THREAT_ANALYZE@,
                Seq::<ToolV>::empty(),
                Some("opc-cto-cto-ai-engineer"@),
                "a-threat-analyze_result"@,
                Seq::<(Seq<char>, Seq<char>)>::empty(),
                250,
                350,
            ),
            domain_agent_view(
                "a-threat-act"@,
                "行动"@,
                PROMPT_SEC_THREAT_INTEL_A_THREAT_ACT@,
                Seq::<ToolV>::empty(),
                Some("opc-cto-cto-ai-engineer"@),
                "a-threat-act_result"@,
                Seq::<(Seq<char>, Seq<char>)>::empty(),
                250,
                550,
            ),
            end_view(250, 750),
        ],
        seq![
            direct_edge("e-trigger-a-threat-collect"@, "trigger"@, "a-threat-collect"@),
            direct_edge("e-a-threat-collect-a-threat-analyze"@, "a-threat-collect"@, "a-threat-analyze"@),
            direct_edge("e-a-threat-analyze-a-threat-act"@, "a-threat-analyze"@, "a-threat-act"@),
            direct_edge("e-a-threat-act-end"@, "a-threat-act"@, "end"@),
        ],
        now,
    )
}

fn sec_threat_intel(now: i64) -> (t: WorkflowTemplate)
    ensures
        t.view() == sec_threat_intel_view(now),
{
    let n0 = make_trigger(250, 0);
    let t1: Vec<ToolDef> = vec![];
    assert(tools_view(t1@) =~= Seq::<ToolV>::empty());
    let n1 = make_agent_node(
        "a-threat-collect",
        "情报收集",
        PROMPT_SEC_THREAT_INTEL_A_THREAT_COLLECT,
        t1,
        Some("opc-cto-cto-ai-engineer"),
        "a-threat-collect_result",
        250,
        150,
    );
    let t2: Vec<ToolDef> = vec![];
    assert(tools_view(t2@) =~= Seq::<ToolV>::empty());
    let n2 = make_agent_node(
        "a-threat-analyze",
        "分析",
        PROMPT_SEC_THREAT_INTEL_A_THREAT_ANALYZE,
        t2,
        Some("opc-cto-cto-ai-engineer"),
        "a-threat-analyze_result",
        250,
        350,
    );
    let t3: Vec<ToolDef> = vec![];
    assert(tools_view(t3@) =~= Seq::<ToolV>::empty());
    let n3 = make_agent_node(
        "a-threat-act",
        "行动",
        PROMPT_SEC_THREAT_INTEL_A_THREAT_ACT,
        t3,
        Some("opc-cto-cto-ai-engineer"),
        "a-threat-act_result",
        250,
        550,
    );
    let n4 = make_end(250, 750);
    let nodes = vec![n0, n1, n2, n3, n4];
    assert(nodes_view(nodes@) =~= seq![
        trigger_view(250, 0),
        domain_agent_view(
            "a-threat-collect"@,
            "情报收集"@,
            PROMPT_SEC_THREAT_INTEL_A_THREAT_COLLECT@,
            Seq::<ToolV>::empty(),
            Some("opc-cto-cto-ai-engineer"@),
            "a-threat-collect_result"@,
            Seq::<(Seq<char>, Seq<char>)>::empty(),
            250,
            150,
        ),
        domain_agent_view(
            "a-threat-analyze"@,
            "分析"@,
            PROMPT_SEC_THREAT_INTEL_A_THREAT_ANALYZE@,
            Seq::<ToolV>::empty(),
            Some("opc-cto-cto-ai-engineer"@),
            "a-threat-analyze_result"@,
            Seq::<(Seq<char>, Seq<char>)>::empty(),
            250,
            350,
        ),
        domain_agent_view(
            "a-threat-act"@,
            "行动"@,
            PROMPT_SEC_THREAT_INTEL_A_THREAT_ACT@,
            Seq::<ToolV>::empty(),
            Some("opc-cto-cto-ai-engineer"@),
            "a-threat-act_result"@,
            Seq::<(Seq<char>, Seq<char>)>::empty(),
            250,
            550,
        ),
        end_view(250, 750),
    ]);
    let edges = vec![
        edge("e-trigger-a-threat-collect", "trigger", "a-threat-collect"),
        edge("e-a-threat-collect-a-threat-analyze", "a-threat-collect", "a-threat-analyze"),
        edge("e-a-threat-analyze-a-threat-act", "a-threat-analyze", "a-threat-act"),
        edge("e-a-threat-act-end", "a-threat-act", "end"),
    ];
    assert(edges_view(edges@) =~= seq![
        direct_edge("e-trigger-a-threat-collect"@, "trigger"@, "a-threat-collect"@),
        direct_edge("e-a-threat-collect-a-threat-analyze"@, "a-threat-collect"@, "a-threat-analyze"@),
        direct_edge("e-a-threat-analyze-a-threat-act"@, "a-threat-analyze"@, "a-threat-act"@),
        direct_edge("e-a-threat-act-end"@, "a-threat-act"@, "end"@),
    ]);
    let tags: Vec<String> = vec![string_of("opc"), string_of("security")];
    assert(seq_view(tags@) =~= seq!["opc"@, "security"@]);
    build_domain_template_at(
        "wf-sec-threat-intel",
        "威胁情报",
        "收集和分析最新安全威胁情报",
        "🕵️",
        tags,
        "opc-cto-cto-ai-engineer",
        nodes,
        edges,
        now,
    )
}

/// The hand-built workflows of the security domain, stamped `now`, in order.
pub fn security_domain_templates(now: i64) -> (ts: Vec<WorkflowTemplate>)
    ensures
        templates_view(ts@) == seq![sec_compliance_view(now), sec_incident_view(now), sec_pentest_view(now), sec_threat_intel_view(now)],
{
    let ts = vec![sec_compliance(now), sec_incident(now), sec_pentest(now), sec_threat_intel(now)];
    assert(templates_view(ts@) =~= seq![sec_compliance_view(now), sec_incident_view(now), sec_pentest_view(now), sec_threat_intel_view(now)]);
    ts
}

} // verus!
