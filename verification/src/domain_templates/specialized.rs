use vstd::prelude::*;
use crate::domain_seed::{
    build_domain_template_at, direct_edge, domain_agent_view, domain_template_view, end_view, make_agent_node,
    make_agent_node_with_inputs, make_end, make_trigger, name_tool, templates_view, trigger_view,
};
use crate::text::string_of;
use crate::workflow::{
    edge, edges_view, nodes_view, pair_seq_view, seq_view, td, tools_view, TemplateV, ToolDef, ToolV, WorkflowTemplate,
};

verus! {

/// Prompt of node `a-change-impact` of `wf-spc-change-mgmt`.
pub const PROMPT_SPC_CHANGE_MGMT_A_CHANGE_IMPACT: &'static str = "评估变革对组织、流程、人员的影响";

/// Prompt of node `a-change-plan` of `wf-spc-change-mgmt`.
pub const PROMPT_SPC_CHANGE_MGMT_A_CHANGE_PLAN: &'static str = "制定分阶段变革实施和沟通计划";

/// Prompt of node `a-change-exec` of `wf-spc-change-mgmt`.
pub const PROMPT_SPC_CHANGE_MGMT_A_CHANGE_EXEC: &'static str = "监督执行并收集反馈调整";

/// `wf-spc-change-mgmt` (变更管理) as stamped at `now`.
pub open spec fn spc_change_mgmt_view(now: i64) -> TemplateV {
    domain_template_view(
        "wf-spc-change-mgmt"@,
        "变更管理"@,
        "评估变革对组织、流程、人员的影响 → 制定分阶段变革实施和沟通计划 → 监督执行并收集反馈调整"@,
        "🔄"@,
        seq!["opc"@, "specialized"@],
        seq![
            trigger_view(250, 0),
            domain_agent_view(
                "a-change-impact"@,
                "影响评估"@,
                PROMPT_SPC_CHANGE_MGMT_A_CHANGE_IMPACT@,
                Seq::<ToolV>::empty(),
                Some("opc-ceo-ceo-business-strategist"@),
                "a-change-impact_result"@,
                Seq::<(Seq<char>, Seq<char>)>::empty(),
                250,
                150,
            ),
            domain_agent_view(
                "a-change-plan"@,
                "变革计划"@,
                PROMPT_SPC_CHANGE_MGMT_A_CHANGE_PLAN@,
                Seq::<ToolV>::empty(),
                Some("opc-ceo-ceo-business-strategist"@),
                "a-change-plan_result"@,
                Seq::<(Seq<char>, Seq<char>)>::empty(),
                250,
                350,
            ),
            domain_agent_view(
                "a-change-exec"@,
                "变革执行"@,
                PROMPT_SPC_CHANGE_MGMT_A_CHANGE_EXEC@,
                Seq::<ToolV>::empty(),
                Some("opc-ceo-ceo-business-strategist"@),
                "a-change-exec_result"@,
                Seq::<(Seq<char>, Seq<char>)>::empty(),
                250,
                550,
            ),
            end_view(250, 750),
        ],
        seq![
            direct_edge("e-trigger-a-change-impact"@, "trigger"@, "a-change-impact"@),
            direct_edge("e-a-change-impact-a-change-plan"@, "a-change-impact"@, "a-change-plan"@),
            direct_edge("e-a-change-plan-a-change-exec"@, "a-change-plan"@, "a-change-exec"@),
            direct_edge("e-a-change-exec-end"@, "a-change-exec"@, "end"@),
        ],
        now,
    )
}

fn spc_change_mgmt(now: i64) -> (t: WorkflowTemplate)
    ensures
        t.view() == spc_change_mgmt_view(now),
{
    let n0 = make_trigger(250, 0);
    let t1: Vec<ToolDef> = vec![];
    assert(tools_view(t1@) =~= Seq::<ToolV>::empty());
    let n1 = make_agent_node(
        "a-change-impact",
        "影响评估",
        PROMPT_SPC_CHANGE_MGMT_A_CHANGE_IMPACT,
        t1,
        Some("opc-ceo-ceo-business-strategist"),
        "a-change-impact_result",
        250,
        150,
    );
    let t2: Vec<ToolDef> = vec![];
    assert(tools_view(t2@) =~= Seq::<ToolV>::empty());
    let n2 = make_agent_node(
        "a-change-plan",
        "变革计划",
        PROMPT_SPC_CHANGE_MGMT_A_CHANGE_PLAN,
        t2,
        Some("opc-ceo-ceo-business-strategist"),
        "a-change-plan_result",
        250,
        350,
    );
    let t3: Vec<ToolDef> = vec![];
    assert(tools_view(t3@) =~= Seq::<ToolV>::empty());
    let n3 = make_agent_node(
        "a-change-exec",
        "变革执行",
        PROMPT_SPC_CHANGE_MGMT_A_CHANGE_EXEC,
        t3,
        Some("opc-ceo-ceo-business-strategist"),
        "a-change-exec_result",
        250,
        550,
    );
    let n4 = make_end(250, 750);
    let nodes = vec![n0, n1, n2, n3, n4];
    assert(nodes_view(nodes@) =~= seq![
        trigger_view(250, 0),
        domain_agent_view(
            "a-change-impact"@,
            "影响评估"@,
            PROMPT_SPC_CHANGE_MGMT_A_CHANGE_IMPACT@,
            Seq::<ToolV>::empty(),
            Some("opc-ceo-ceo-business-strategist"@),
            "a-change-impact_result"@,
            Seq::<(Seq<char>, Seq<char>)>::empty(),
            250,
            150,
        ),
        domain_agent_view(
            "a-change-plan"@,
            "变革计划"@,
            PROMPT_SPC_CHANGE_MGMT_A_CHANGE_PLAN@,
            Seq::<ToolV>::empty(),
            Some("opc-ceo-ceo-business-strategist"@),
            "a-change-plan_result"@,
            Seq::<(Seq<char>, Seq<char>)>::empty(),
            250,
            350,
        ),
        domain_agent_view(
            "a-change-exec"@,
            "变革执行"@,
            PROMPT_SPC_CHANGE_MGMT_A_CHANGE_EXEC@,
            Seq::<ToolV>::empty(),
            Some("opc-ceo-ceo-business-strategist"@),
            "a-change-exec_result"@,
            Seq::<(Seq<char>, Seq<char>)>::empty(),
            250,
            550,
        ),
        end_view(250, 750),
    ]);
    let edges = vec![
        edge("e-trigger-a-change-impact", "trigger", "a-change-impact"),
        edge("e-a-change-impact-a-change-plan", "a-change-impact", "a-change-plan"),
        edge("e-a-change-plan-a-change-exec", "a-change-plan", "a-change-exec"),
        edge("e-a-change-exec-end", "a-change-exec", "end"),
    ];
    assert(edges_view(edges@) =~= seq![
        direct_edge("e-trigger-a-change-impact"@, "trigger"@, "a-change-impact"@),
        direct_edge("e-a-change-impact-a-change-plan"@, "a-change-impact"@, "a-change-plan"@),
        direct_edge("e-a-change-plan-a-change-exec"@, "a-change-plan"@, "a-change-exec"@),
        direct_edge("e-a-change-exec-end"@, "a-change-exec"@, "end"@),
    ]);
    let tags: Vec<String> = vec![string_of("opc"), string_of("specialized")];
    assert(seq_view(tags@) =~= seq!["opc"@, "specialized"@]);
    build_domain_template_at(
        "wf-spc-change-mgmt",
        "变更管理",
        "评估变革对组织、流程、人员的影响 → 制定分阶段变革实施和沟通计划 → 监督执行并收集反馈调整",
        "🔄",
        tags,
        "opc-ceo-ceo-business-strategist",
        nodes,
        edges,
        now,
    )
}

/// Prompt of node `a-privacy-audit` of `wf-spc-data-privacy`.
pub const PROMPT_SPC_DATA_PRIVACY_A_PRIVACY_AUDIT: &'static str = "审计数据采集、存储、处理流程";

/// Prompt of node `a-privacy-gap` of `wf-spc-data-privacy`.
pub const PROMPT_SPC_DATA_PRIVACY_A_PRIVACY_GAP: &'static str = "识别合规差距和风险等级";

/// Prompt of node `a-privacy-fix` of `wf-spc-data-privacy`.
pub const PROMPT_SPC_DATA_PRIVACY_A_PRIVACY_FIX: &'static str = "实施整改措施并验证";

/// `wf-spc-data-privacy` (数据隐私合规) as stamped at `now`.
pub open spec fn spc_data_privacy_view(now: i64) -> TemplateV {
    domain_template_view(
        "wf-spc-data-privacy"@,
        "数据隐私合规"@,
        "审计数据采集、存储、处理流程 → 识别合规差距和风险等级 → 实施整改措施并验证"@,
        "🔒"@,
        seq!["opc"@, "specialized"@],
        seq![
            trigger_view(250, 0),
            domain_agent_view(
                "a-privacy-audit"@,
                "隐私审计"@,
                PROMPT_SPC_DATA_PRIVACY_A_PRIVACY_AUDIT@,
                Seq::<ToolV>::empty(),
                Some("opc-cfo-cfo-financial-analyst"@),
                "a-privacy-audit_result"@,
                Seq::<(Seq<char>, Seq<char>)>::empty(),
                250,
                150,
            ),
            domain_agent_view(
                "a-privacy-gap"@,
                "差距分析"@,
                PROMPT_SPC_DATA_PRIVACY_A_PRIVACY_GAP@,
                Seq::<ToolV>::empty(),
                Some("opc-cfo-cfo-financial-analyst"@),
                "a-privacy-gap_result"@,
                Seq::<(Seq<char>, Seq<char>)>::empty(),
                250,
                350,
            ),
            domain_agent_view(
                "a-privacy-fix"@,
                "整改实施"@,
                PROMPT_SPC_DATA_PRIVACY_A_PRIVACY_FIX@,
                Seq::<ToolV>::empty(),
                Some("opc-cfo-cfo-financial-analyst"@),
                "a-privacy-fix_result"@,
                Seq::<(Seq<char>, Seq<char>)>::empty(),
                250,
                550,
            ),
            end_view(250, 750),
        ],
        seq![
            direct_edge("e-trigger-a-privacy-audit"@, "trigger"@, "a-privacy-audit"@),
            direct_edge("e-a-privacy-audit-a-privacy-gap"@, "a-privacy-audit"@, "a-privacy-gap"@),
            direct_edge("e-a-privacy-gap-a-privacy-fix"@, "a-privacy-gap"@, "a-privacy-fix"@),
            direct_edge("e-a-privacy-fix-end"@, "a-privacy-fix"@, "end"@),
        ],
        now,
    )
}

fn spc_data_privacy(now: i64) -> (t: WorkflowTemplate)
    ensures
        t.view() == spc_data_privacy_view(now),
{
    let n0 = make_trigger(250, 0);
    let t1: Vec<ToolDef> = vec![];
    assert(tools_view(t1@) =~= Seq::<ToolV>::empty());
    let n1 = make_agent_node(
        "a-privacy-audit",
        "隐私审计",
        PROMPT_SPC_DATA_PRIVACY_A_PRIVACY_AUDIT,
        t1,
        Some("opc-cfo-cfo-financial-analyst"),
        "a-privacy-audit_result",
        250,
        150,
    );
    let t2: Vec<ToolDef> = vec![];
    assert(tools_view(t2@) =~= Seq::<ToolV>::empty());
    let n2 = make_agent_node(
        "a-privacy-gap",
        "差距分析",
        PROMPT_SPC_DATA_PRIVACY_A_PRIVACY_GAP,
        t2,
        Some("opc-cfo-cfo-financial-analyst"),
        "a-privacy-gap_result",
        250,
        350,
    );
    let t3: Vec<ToolDef> = vec![];
    assert(tools_view(t3@) =~= Seq::<ToolV>::empty());
    let n3 = make_agent_node(
        "a-privacy-fix",
        "整改实施",
        PROMPT_SPC_DATA_PRIVACY_A_PRIVACY_FIX,
        t3,
        Some("opc-cfo-cfo-financial-analyst"),
        "a-privacy-fix_result",
        250,
        550,
    );
    let n4 = make_end(250, 750);
    let nodes = vec![n0, n1, n2, n3, n4];
    assert(nodes_view(nodes@) =~= seq![
        trigger_view(250, 0),
        domain_agent_view(
            "a-privacy-audit"@,
            "隐私审计"@,
            PROMPT_SPC_DATA_PRIVACY_A_PRIVACY_AUDIT@,
            Seq::<ToolV>::empty(),
            Some("opc-cfo-cfo-financial-analyst"@),
            "a-privacy-audit_result"@,
            Seq::<(Seq<char>, Seq<char>)>::empty(),
            250,
            150,
        ),
        domain_agent_view(
            "a-privacy-gap"@,
            "差距分析"@,
            PROMPT_SPC_DATA_PRIVACY_A_PRIVACY_GAP@,
            Seq::<ToolV>::empty(),
            Some("opc-cfo-cfo-financial-analyst"@),
            "a-privacy-gap_result"@,
            Seq::<(Seq<char>, Seq<char>)>::empty(),
            250,
            350,
        ),
        domain_agent_view(
            "a-privacy-fix"@,
            "整改实施"@,
            PROMPT_SPC_DATA_PRIVACY_A_PRIVACY_FIX@,
            Seq::<ToolV>::empty(),
            Some("opc-cfo-cfo-financial-analyst"@),
            "a-privacy-fix_result"@,
            Seq::<(Seq<char>, Seq<char>)>::empty(),
            250,
            550,
        ),
        end_view(250, 750),
    ]);
    let edges = vec![
        edge("e-trigger-a-privacy-audit", "trigger", "a-privacy-audit"),
        edge("e-a-privacy-audit-a-privacy-gap", "a-privacy-audit", "a-privacy-gap"),
        edge("e-a-privacy-gap-a-privacy-fix", "a-privacy-gap", "a-privacy-fix"),
        edge("e-a-privacy-fix-end", "a-privacy-fix", "end"),
    ];
    assert(edges_view(edges@) =~= seq![
        direct_edge("e-trigger-a-privacy-audit"@, "trigger"@, "a-privacy-audit"@),
        direct_edge("e-a-privacy-audit-a-privacy-gap"@, "a-privacy-audit"@, "a-privacy-gap"@),
        direct_edge("e-a-privacy-gap-a-privacy-fix"@, "a-privacy-gap"@, "a-privacy-fix"@),
        direct_edge("e-a-privacy-fix-end"@, "a-privacy-fix"@, "end"@),
    ]);
    let tags: Vec<String> = vec![string_of("opc"), string_of("specialized")];
    assert(seq_view(tags@) =~= seq!["opc"@, "specialized"@]);
    build_domain_template_at(
        "wf-spc-data-privacy",
        "数据隐私合规",
        "审计数据采集、存储、处理流程 → 识别合规差距和风险等级 → 实施整改措施并验证",
        "🔒",
        tags,
        "opc-cfo-cfo-financial-analyst",
        nodes,
        edges,
        now,
    )
}

/// Prompt of node `a-esg-collect` of `wf-spc-esg`.
pub const PROMPT_SPC_ESG_A_ESG_COLLECT: &'static str = "收集环境、社会、治理数据";

/// Prompt of node `a-esg-measure` of `wf-spc-esg`.
pub const PROMPT_SPC_ESG_A_ESG_MEASURE: &'static str = "计算ESG关键指标和评分";

/// Prompt of node `a-esg-report` of `wf-spc-esg`.
pub const PROMPT_SPC_ESG_A_ESG_REPORT: &'static str = "生成ESG报告和改善路线图";

/// `wf-spc-esg` (ESG报告) as stamped at `now`.
pub open spec fn spc_esg_view(now: i64) -> TemplateV {
    domain_template_view(
        "wf-spc-esg"@,
        "ESG报告"@,
        "收集环境、社会、治理数据 → 计算ESG关键指标和评分 → 生成ESG报告和改善路线图"@,
        "🌱"@,
        seq!["opc"@, "specialized"@],
        seq![
            trigger_view(250, 0),
            domain_agent_view(
                "a-esg-collect"@,
                "ESG数据收集"@,
                PROMPT_SPC_ESG_A_ESG_COLLECT@,
                Seq::<ToolV>::empty(),
                Some("opc-ceo-ceo-business-strategist"@),
                "a-esg-collect_result"@,
                Seq::<(Seq<char>, Seq<char>)>::empty(),
                250,
                150,
            ),
            domain_agent_view(
                "a-esg-measure"@,
                "ESG指标计算"@,
                PROMPT_SPC_ESG_A_ESG_MEASURE@,
                Seq::<ToolV>::empty(),
                Some("opc-ceo-ceo-business-strategist"@),
                "a-esg-measure_result"@,
                Seq::<(Seq<char>, Seq<char>)>::empty(),
                250,
                350,
            ),
            domain_agent_view(
                "a-esg-report"@,
                "ESG报告生成"@,
                PROMPT_SPC_ESG_A_ESG_REPORT@,
                Seq::<ToolV>::empty(),
                Some("opc-ceo-ceo-business-strategist"@),
                "a-esg-report_result"@,
                Seq::<(Seq<char>, Seq<char>)>::empty(),
                250,
                550,
            ),
            end_view(250, 750),
        ],
        seq![
            direct_edge("e-trigger-a-esg-collect"@, "trigger"@, "a-esg-collect"@),
            direct_edge("e-a-esg-collect-a-esg-measure"@, "a-esg-collect"@, "a-esg-measure"@),
            direct_edge("e-a-esg-measure-a-esg-report"@, "a-esg-measure"@, "a-esg-report"@),
            direct_edge("e-a-esg-report-end"@, "a-esg-report"@, "end"@),
        ],
        now,
    )
}

fn spc_esg(now: i64) -> (t: WorkflowTemplate)
    ensures
        t.view() == spc_esg_view(now),
{
    let n0 = make_trigger(250, 0);
    let t1: Vec<ToolDef> = vec![];
    assert(tools_view(t1@) =~= Seq::<ToolV>::empty());
    let n1 = make_agent_node(
        "a-esg-collect",
        "ESG数据收集",
        PROMPT_SPC_ESG_A_ESG_COLLECT,
        t1,
        Some("opc-ceo-ceo-business-strategist"),
        "a-esg-collect_result",
        250,
        150,
    );
    let t2: Vec<ToolDef> = vec![];
    assert(tools_view(t2@) =~= Seq::<ToolV>::empty());
    let n2 = make_agent_node(
        "a-esg-measure",
        "ESG指标计算",
        PROMPT_SPC_ESG_A_ESG_MEASURE,
        t2,
        Some("opc-ceo-ceo-business-strategist"),
        "a-esg-measure_result",
        250,
        350,
    );
    let t3: Vec<ToolDef> = vec![];
    assert(tools_view(t3@) =~= Seq::<ToolV>::empty());
    let n3 = make_agent_node(
        "a-esg-report",
        "ESG报告生成",
        PROMPT_SPC_ESG_A_ESG_REPORT,
        t3,
        Some("opc-ceo-ceo-business-strategist"),
        "a-esg-report_result",
        250,
        550,
    );
    let n4 = make_end(250, 750);
    let nodes = vec![n0, n1, n2, n3, n4];
    assert(nodes_view(nodes@) =~= seq![
        trigger_view(250, 0),
        domain_agent_view(
            "a-esg-collect"@,
            "ESG数据收集"@,
            PROMPT_SPC_ESG_A_ESG_COLLECT@,
            Seq::<ToolV>::empty(),
            Some("opc-ceo-ceo-business-strategist"@),
            "a-esg-collect_result"@,
            Seq::<(Seq<char>, Seq<char>)>::empty(),
            250,
            150,
        ),
        domain_agent_view(
            "a-esg-measure"@,
            "ESG指标计算"@,
            PROMPT_SPC_ESG_A_ESG_MEASURE@,
            Seq::<ToolV>::empty(),
            Some("opc-ceo-ceo-business-strategist"@),
            "a-esg-measure_result"@,
            Seq::<(Seq<char>, Seq<char>)>::empty(),
            250,
            350,
        ),
        domain_agent_view(
            "a-esg-report"@,
            "ESG报告生成"@,
            PROMPT_SPC_ESG_A_ESG_REPORT@,
            Seq::<ToolV>::empty(),
            Some("opc-ceo-ceo-business-strategist"@),
            "a-esg-report_result"@,
            Seq::<(Seq<char>, Seq<char>)>::empty(),
            250,
            550,
        ),
        end_view(250, 750),
    ]);
    let edges = vec![
        edge("e-trigger-a-esg-collect", "trigger", "a-esg-collect"),
        edge("e-a-esg-collect-a-esg-measure", "a-esg-collect", "a-esg-measure"),
        edge("e-a-esg-measure-a-esg-report", "a-esg-measure", "a-esg-report"),
        edge("e-a-esg-report-end", "a-esg-report", "end"),
    ];
    assert(edges_view(edges@) =~= seq![
        direct_edge("e-trigger-a-esg-collect"@, "trigger"@, "a-esg-collect"@),
        direct_edge("e-a-esg-collect-a-esg-measure"@, "a-esg-collect"@, "a-esg-measure"@),
        direct_edge("e-a-esg-measure-a-esg-report"@, "a-esg-measure"@, "a-esg-report"@),
        direct_edge("e-a-esg-report-end"@, "a-esg-report"@, "end"@),
    ]);
    let tags: Vec<String> = vec![string_of("opc"), string_of("specialized")];
    assert(seq_view(tags@) =~= seq!["opc"@, "specialized"@]);
    build_domain_template_at(
        "wf-spc-esg",
        "ESG报告",
        "收集环境、社会、治理数据 → 计算ESG关键指标和评分 → 生成ESG报告和改善路线图",
        "🌱",
        tags,
        "opc-ceo-ceo-business-strategist",
        nodes,
        edges,
        now,
    )
}

/// Prompt of node `a-grant-research` of `wf-spc-grant`.
pub const PROMPT_SPC_GRANT_A_GRANT_RESEARCH: &'static str = "研究适合的项目和资助机构";

/// Prompt of node `a-grant-write` of `wf-spc-grant`.
pub const PROMPT_SPC_GRANT_A_GRANT_WRITE: &'static str = "撰写项目申请书和预算";

/// Prompt of node `a-grant-submit` of `wf-spc-grant`.
pub const PROMPT_SPC_GRANT_A_GRANT_SUBMIT: &'static str = "最终审核并提交申请";

/// `wf-spc-grant` (项目申请) as stamped at `now`.
pub open spec fn spc_grant_view(now: i64) -> TemplateV {
    domain_template_view(
        "wf-spc-grant"@,
        "项目申请"@,
        "研究适合的项目和资助机构 → 撰写项目申请书和预算 → 最终审核并提交申请"@,
        "📝"@,
        seq!["opc"@, "specialized"@],
        seq![
            trigger_view(250, 0),
            domain_agent_view(
                "a-grant-research"@,
                "项目研究"@,
                PROMPT_SPC_GRANT_A_GRANT_RESEARCH@,
                Seq::<ToolV>::empty(),
                Some("opc-ceo-ceo-business-strategist"@),
                "a-grant-research_result"@,
                Seq::<(Seq<char>, Seq<char>)>::empty(),
                250,
                150,
            ),
            domain_agent_view(
                "a-grant-write"@,
                "撰写申请"@,
                PROMPT_SPC_GRANT_A_GRANT_WRITE@,
                Seq::<ToolV>::empty(),
                Some("opc-ceo-ceo-business-strategist"@),
                "a-grant-write_result"@,
                Seq::<(Seq<char>, Seq<char>)>::empty(),
                250,
                350,
            ),
            domain_agent_view(
                "a-grant-submit"@,
                "审核提交"@,
                PROMPT_SPC_GRANT_A_GRANT_SUBMIT@,
                Seq::<ToolV>::empty(),
                Some("opc-ceo-ceo-business-strategist"@),
                "a-grant-submit_result"@,
                Seq::<(Seq<char>, Seq<char>)>::empty(),
                250,
                550,
            ),
            end_view(250, 750),
        ],
        seq![
            direct_edge("e-trigger-a-grant-research"@, "trigger"@, "a-grant-research"@),
            direct_edge("e-a-grant-research-a-grant-write"@, "a-grant-research"@, "a-grant-write"@),
            direct_edge("e-a-grant-write-a-grant-submit"@, "a-grant-write"@, "a-grant-submit"@),
            direct_edge("e-a-grant-submit-end"@, "a-grant-submit"@, "end"@),
        ],
        now,
    )
}

fn spc_grant(now: i64) -> (t: WorkflowTemplate)
    ensures
        t.view() == spc_grant_view(now),
{
    let n0 = make_trigger(250, 0);
    let t1: Vec<ToolDef> = vec![];
    assert(tools_view(t1@) =~= Seq::<ToolV>::empty());
    let n1 = make_agent_node(
        "a-grant-research",
        "项目研究",
        PROMPT_SPC_GRANT_A_GRANT_RESEARCH,
        t1,
        Some("opc-ceo-ceo-business-strategist"),
        "a-grant-research_result",
        250,
        150,
    );
    let t2: Vec<ToolDef> = vec![];
    assert(tools_view(t2@) =~= Seq::<ToolV>::empty());
    let n2 = make_agent_node(
        "a-grant-write",
        "撰写申请",
        PROMPT_SPC_GRANT_A_GRANT_WRITE,
        t2,
        Some("opc-ceo-ceo-business-strategist"),
        "a-grant-write_result",
        250,
        350,
    );
    let t3: Vec<ToolDef> = vec![];
    assert(tools_view(t3@) =~= Seq::<ToolV>::empty());
    let n3 = make_agent_node(
        "a-grant-submit",
        "审核提交",
        PROMPT_SPC_GRANT_A_GRANT_SUBMIT,
        t3,
        Some("opc-ceo-ceo-business-strategist"),
        "a-grant-submit_result",
        250,
        550,
    );
    let n4 = make_end(250, 750);
    let nodes = vec![n0, n1, n2, n3, n4];
    assert(nodes_view(nodes@) =~= seq![
        trigger_view(250, 0),
        domain_agent_view(
            "a-grant-research"@,
            "项目研究"@,
            PROMPT_SPC_GRANT_A_GRANT_RESEARCH@,
            Seq::<ToolV>::empty(),
            Some("opc-ceo-ceo-business-strategist"@),
            "a-grant-research_result"@,
            Seq::<(Seq<char>, Seq<char>)>::empty(),
            250,
            150,
        ),
        domain_agent_view(
            "a-grant-write"@,
            "撰写申请"@,
            PROMPT_SPC_GRANT_A_GRANT_WRITE@,
            Seq::<ToolV>::empty(),
            Some("opc-ceo-ceo-business-strategist"@),
            "a-grant-write_result"@,
            Seq::<(Seq<char>, Seq<char>)>::empty(),
            250,
            350,
        ),
        domain_agent_view(
            "a-grant-submit"@,
            "审核提交"@,
            PROMPT_SPC_GRANT_A_GRANT_SUBMIT@,
            Seq::<ToolV>::empty(),
            Some("opc-ceo-ceo-business-strategist"@),
            "a-grant-submit_result"@,
            Seq::<(Seq<char>, Seq<char>)>::empty(),
            250,
            550,
        ),
        end_view(250, 750),
    ]);
    let edges = vec![
        edge("e-trigger-a-grant-research", "trigger", "a-grant-research"),
        edge("e-a-grant-research-a-grant-write", "a-grant-research", "a-grant-write"),
        edge("e-a-grant-write-a-grant-submit", "a-grant-write", "a-grant-submit"),
        edge("e-a-grant-submit-end", "a-grant-submit", "end"),
    ];
    assert(edges_view(edges@) =~= seq![
        direct_edge("e-trigger-a-grant-research"@, "trigger"@, "a-grant-research"@),
        direct_edge("e-a-grant-research-a-grant-write"@, "a-grant-research"@, "a-grant-write"@),
        direct_edge("e-a-grant-write-a-grant-submit"@, "a-grant-write"@, "a-grant-submit"@),
        direct_edge("e-a-grant-submit-end"@, "a-grant-submit"@, "end"@),
    ]);
    let tags: Vec<String> = vec![string_of("opc"), string_of("specialized")];
    assert(seq_view(tags@) =~= seq!["opc"@, "specialized"@]);
    build_domain_template_at(
        "wf-spc-grant",
        "项目申请",
        "研究适合的项目和资助机构 → 撰写项目申请书和预算 → 最终审核并提交申请",
        "📝",
        tags,
        "opc-ceo-ceo-business-strategist",
        nodes,
        edges,
        now,
    )
}

/// Prompt of node `a-hire-jd` of `wf-spc-hire`.
pub const PROMPT_SPC_HIRE_A_HIRE_JD: &'static str = "撰写职位描述和要求";

/// Prompt of node `a-hire-screen` of `wf-spc-hire`.
pub const PROMPT_SPC_HIRE_A_HIRE_SCREEN: &'static str = "筛选简历、安排面试";

/// Prompt of node `a-hire-evaluate` of `wf-spc-hire`.
pub const PROMPT_SPC_HIRE_A_HIRE_EVALUATE: &'static str = "综合评估候选人、产出报告";

/// `wf-spc-hire` (招聘流程) as stamped at `now`.
pub open spec fn spc_hire_view(now: i64) -> TemplateV {
    domain_template_view(
        "wf-spc-hire"@,
        "招聘流程"@,
        "撰写职位描述和要求 → 筛选简历、安排面试 → 综合评估候选人、产出报告"@,
        "🎯"@,
        seq!["opc"@, "specialized"@],
        seq![
            trigger_view(250, 0),
            domain_agent_view(
                "a-hire-jd"@,
                "职位描述"@,
                PROMPT_SPC_HIRE_A_HIRE_JD@,
                Seq::<ToolV>::empty(),
                Some("opc-coo-coo-operations-manager"@),
                "a-hire-jd_result"@,
                Seq::<(Seq<char>, Seq<char>)>::empty(),
                250,
                150,
            ),
            domain_agent_view(
                "a-hire-screen"@,
                "简历筛选"@,
                PROMPT_SPC_HIRE_A_HIRE_SCREEN@,
                Seq::<ToolV>::empty(),
                Some("opc-coo-coo-operations-manager"@),
                "a-hire-screen_result"@,
                Seq::<(Seq<char>, Seq<char>)>::empty(),
                250,
                350,
            ),
            domain_agent_view(
                "a-hire-evaluate"@,
                "综合评估"@,
                PROMPT_SPC_HIRE_A_HIRE_EVALUATE@,
                Seq::<ToolV>::empty(),
                Some("opc-coo-coo-operations-manager"@),
                "a-hire-evaluate_result"@,
                Seq::<(Seq<char>, Seq<char>)>::empty(),
                250,
                550,
            ),
            end_view(250, 750),
        ],
        seq![
            direct_edge("e-trigger-a-hire-jd"@, "trigger"@, "a-hire-jd"@),
            direct_edge("e-a-hire-jd-a-hire-screen"@, "a-hire-jd"@, "a-hire-screen"@),
            direct_edge("e-a-hire-screen-a-hire-evaluate"@, "a-hire-screen"@, "a-hire-evaluate"@),
            direct_edge("e-a-hire-evaluate-end"@, "a-hire-evaluate"@, "end"@),
        ],
        now,
    )
}

fn spc_hire(now: i64) -> (t: WorkflowTemplate)
    ensures
        t.view() == spc_hire_view(now),
{
    let n0 = make_trigger(250, 0);
    let t1: Vec<ToolDef> = vec![];
    assert(tools_view(t1@) =~= Seq::<ToolV>::empty());
    let n1 = make_agent_node(
        "a-hire-jd",
        "职位描述",
        PROMPT_SPC_HIRE_A_HIRE_JD,
        t1,
        Some("opc-coo-coo-operations-manager"),
        "a-hire-jd_result",
        250,
        150,
    );
    let t2: Vec<ToolDef> = vec![];
    assert(tools_view(t2@) =~= Seq::<ToolV>::empty());
    let n2 = make_agent_node(
        "a-hire-screen",
        "简历筛选",
        PROMPT_SPC_HIRE_A_HIRE_SCREEN,
        t2,
        Some("opc-coo-coo-operations-manager"),
        "a-hire-screen_result",
        250,
        350,
    );
    let t3: Vec<ToolDef> = vec![];
    assert(tools_view(t3@) =~= Seq::<ToolV>::empty());
    let n3 = make_agent_node(
        "a-hire-evaluate",
        "综合评估",
        PROMPT_SPC_HIRE_A_HIRE_EVALUATE,
        t3,
        Some("opc-coo-coo-operations-manager"),
        "a-hire-evaluate_result",
        250,
        550,
    );
    let n4 = make_end(250, 750);
    let nodes = vec![n0, n1, n2, n3, n4];
    assert(nodes_view(nodes@) =~= seq![
        trigger_view(250, 0),
        domain_agent_view(
            "a-hire-jd"@,
            "职位描述"@,
            PROMPT_SPC_HIRE_A_HIRE_JD@,
            Seq::<ToolV>::empty(),
            Some("opc-coo-coo-operations-manager"@),
            "a-hire-jd_result"@,
            Seq::<(Seq<char>, Seq<char>)>::empty(),
            250,
            150,
        ),
        domain_agent_view(
            "a-hire-screen"@,
            "简历筛选"@,
            PROMPT_SPC_HIRE_A_HIRE_SCREEN@,
            Seq::<ToolV>::empty(),
            Some("opc-coo-coo-operations-manager"@),
            "a-hire-screen_result"@,
            Seq::<(Seq<char>, Seq<char>)>::empty(),
            250,
            350,
        ),
        domain_agent_view(
            "a-hire-evaluate"@,
            "综合评估"@,
            PROMPT_SPC_HIRE_A_HIRE_EVALUATE@,
            Seq::<ToolV>::empty(),
            Some("opc-coo-coo-operations-manager"@),
            "a-hire-evaluate_result"@,
            Seq::<(Seq<char>, Seq<char>)>::empty(),
            250,
            550,
        ),
        end_view(250, 750),
    ]);
    let edges = vec![
        edge("e-trigger-a-hire-jd", "trigger", "a-hire-jd"),
        edge("e-a-hire-jd-a-hire-screen", "a-hire-jd", "a-hire-screen"),
        edge("e-a-hire-screen-a-hire-evaluate", "a-hire-screen", "a-hire-evaluate"),
        edge("e-a-hire-evaluate-end", "a-hire-evaluate", "end"),
    ];
    assert(edges_view(edges@) =~= seq![
        direct_edge("e-trigger-a-hire-jd"@, "trigger"@, "a-hire-jd"@),
        direct_edge("e-a-hire-jd-a-hire-screen"@, "a-hire-jd"@, "a-hire-screen"@),
        direct_edge("e-a-hire-screen-a-hire-evaluate"@, "a-hire-screen"@, "a-hire-evaluate"@),
        direct_edge("e-a-hire-evaluate-end"@, "a-hire-evaluate"@, "end"@),
    ]);
    let tags: Vec<String> = vec![string_of("opc"), string_of("specialized")];
    assert(seq_view(tags@) =~= seq!["opc"@, "specialized"@]);
    build_domain_template_at(
        "wf-spc-hire",
        "招聘流程",
        "撰写职位描述和要求 → 筛选简历、安排面试 → 综合评估候选人、产出报告",
        "🎯",
        tags,
        "opc-coo-coo-operations-manager",
        nodes,
        edges,
        now,
    )
}

/// Prompt of node `a-legal-upload` of `wf-spc-legal-review`.
pub const PROMPT_SPC_LEGAL_REVIEW_A_LEGAL_UPLOAD: &'static str = "提交合同文档和背景说明";

/// Prompt of node `a-legal-review` of `wf-spc-legal-review`.
pub const PROMPT_SPC_LEGAL_REVIEW_A_LEGAL_REVIEW: &'static str = "审查关键条款、风险点、合规性";

/// Prompt of node `a-legal-report` of `wf-spc-legal-review`.
pub const PROMPT_SPC_LEGAL_REVIEW_A_LEGAL_REPORT: &'static str = "输出审查意见和修改建议";

/// `wf-spc-legal-review` (合同审查) as stamped at `now`.
pub open spec fn spc_legal_review_view(now: i64) -> TemplateV {
    domain_template_view(
        "wf-spc-legal-review"@,
        "合同审查"@,
        "提交合同文档和背景说明 → 审查关键条款、风险点、合规性 → 输出审查意见和修改建议"@,
        "⚖️"@,
        seq!["opc"@, "specialized"@],
        seq![
            trigger_view(250, 0),
            domain_agent_view(
                "a-legal-upload"@,
                "合同提交"@,
                PROMPT_SPC_LEGAL_REVIEW_A_LEGAL_UPLOAD@,
                Seq::<ToolV>::empty(),
                Some("opc-cfo-cfo-financial-analyst"@),
                "a-legal-upload_result"@,
                Seq::<(Seq<char>, Seq<char>)>::empty(),
                250,
                150,
            ),
            domain_agent_view(
                "a-legal-review"@,
                "条款审查"@,
                PROMPT_SPC_LEGAL_REVIEW_A_LEGAL_REVIEW@,
                Seq::<ToolV>::empty(),
                Some("opc-cfo-cfo-financial-analyst"@),
                "a-legal-review_result"@,
                Seq::<(Seq<char>, Seq<char>)>::empty(),
                250,
                350,
            ),
            domain_agent_view(
                "a-legal-report"@,
                "审查报告"@,
                PROMPT_SPC_LEGAL_REVIEW_A_LEGAL_REPORT@,
                Seq::<ToolV>::empty(),
                Some("opc-cfo-cfo-financial-analyst"@),
                "a-legal-report_result"@,
                Seq::<(Seq<char>, Seq<char>)>::empty(),
                250,
                550,
            ),
            end_view(250, 750),
        ],
        seq![
            direct_edge("e-trigger-a-legal-upload"@, "trigger"@, "a-legal-upload"@),
            direct_edge("e-a-legal-upload-a-legal-review"@, "a-legal-upload"@, "a-legal-review"@),
            direct_edge("e-a-legal-review-a-legal-report"@, "a-legal-review"@, "a-legal-report"@),
            direct_edge("e-a-legal-report-end"@, "a-legal-report"@, "end"@),
        ],
        now,
    )
}

fn spc_legal_review(now: i64) -> (t: WorkflowTemplate)
    ensures
        t.view() == spc_legal_review_view(now),
{
    let n0 = make_trigger(250, 0);
    let t1: Vec<ToolDef> = vec![];
    assert(tools_view(t1@) =~= Seq::<ToolV>::empty());
    let n1 = make_agent_node(
        "a-legal-upload",
        "合同提交",
        PROMPT_SPC_LEGAL_REVIEW_A_LEGAL_UPLOAD,
        t1,
        Some("opc-cfo-cfo-financial-analyst"),
        "a-legal-upload_result",
        250,
        150,
    );
    let t2: Vec<ToolDef> = vec![];
    assert(tools_view(t2@) =~= Seq::<ToolV>::empty());
    let n2 = make_agent_node(
        "a-legal-review",
        "条款审查",
        PROMPT_SPC_LEGAL_REVIEW_A_LEGAL_REVIEW,
        t2,
        Some("opc-cfo-cfo-financial-analyst"),
        "a-legal-review_result",
        250,
        350,
    );
    let t3: Vec<ToolDef> = vec![];
    assert(tools_view(t3@) =~= Seq::<ToolV>::empty());
    let n3 = make_agent_node(
        "a-legal-report",
        "审查报告",
        PROMPT_SPC_LEGAL_REVIEW_A_LEGAL_REPORT,
        t3,
        Some("opc-cfo-cfo-financial-analyst"),
        "a-legal-report_result",
        250,
        550,
    );
    let n4 = make_end(250, 750);
    let nodes = vec![n0, n1, n2, n3, n4];
    assert(nodes_view(nodes@) =~= seq![
        trigger_view(250, 0),
        domain_agent_view(
            "a-legal-upload"@,
            "合同提交"@,
            PROMPT_SPC_LEGAL_REVIEW_A_LEGAL_UPLOAD@,
            Seq::<ToolV>::empty(),
            Some("opc-cfo-cfo-financial-analyst"@),
            "a-legal-upload_result"@,
            Seq::<(Seq<char>, Seq<char>)>::empty(),
            250,
            150,
        ),
        domain_agent_view(
            "a-legal-review"@,
            "条款审查"@,
            PROMPT_SPC_LEGAL_REVIEW_A_LEGAL_REVIEW@,
            Seq::<ToolV>::empty(),
            Some("opc-cfo-cfo-financial-analyst"@),
            "a-legal-review_result"@,
            Seq::<(Seq<char>, Seq<char>)>::empty(),
            250,
            350,
        ),
        domain_agent_view(
            "a-legal-report"@,
            "审查报告"@,
            PROMPT_SPC_LEGAL_REVIEW_A_LEGAL_REPORT@,
            Seq::<ToolV>::empty(),
            Some("opc-cfo-cfo-financial-analyst"@),
            "a-legal-report_result"@,
            Seq::<(Seq<char>, Seq<char>)>::empty(),
            250,
            550,
        ),
        end_view(250, 750),
    ]);
    let edges = vec![
        edge("e-trigger-a-legal-upload", "trigger", "a-legal-upload"),
        edge("e-a-legal-upload-a-legal-review", "a-legal-upload", "a-legal-review"),
        edge("e-a-legal-review-a-legal-report", "a-legal-review", "a-legal-report"),
        edge("e-a-legal-report-end", "a-legal-report", "end"),
    ];
    assert(edges_view(edges@) =~= seq![
        direct_edge("e-trigger-a-legal-upload"@, "trigger"@, "a-legal-upload"@),
        direct_edge("e-a-legal-upload-a-legal-review"@, "a-legal-upload"@, "a-legal-review"@),
        direct_edge("e-a-legal-review-a-legal-report"@, "a-legal-review"@, "a-legal-report"@),
        direct_edge("e-a-legal-report-end"@, "a-legal-report"@, "end"@),
    ]);
    let tags: Vec<String> = vec![string_of("opc"), string_of("specialized")];
    assert(seq_view(tags@) =~= seq!["opc"@, "specialized"@]);
    build_domain_template_at(
        "wf-spc-legal-review",
        "合同审查",
        "提交合同文档和背景说明 → 审查关键条款、风险点、合规性 → 输出审查意见和修改建议",
        "⚖️",
        tags,
        "opc-cfo-cfo-financial-analyst",
        nodes,
        edges,
        now,
    )
}

/// Prompt of node `a-locale-audit` of `wf-spc-localization`.
pub const PROMPT_SPC_LOCALIZATION_A_LOCALE_AUDIT: &'static str = "审计需要本地化的内容和功能";

/// Prompt of node `a-locale-translate` of `wf-spc-localization`.
pub const PROMPT_SPC_LOCALIZATION_A_LOCALE_TRANSLATE: &'static str = "翻译内容、适配格式和规范";

/// Prompt of node `a-locale-verify` of `wf-spc-localization`.
pub const PROMPT_SPC_LOCALIZATION_A_LOCALE_VERIFY: &'static str = "验证本地化质量和一致性";

/// `wf-spc-localization` (本地化) as stamped at `now`.
pub open spec fn spc_localization_view(now: i64) -> TemplateV {
    domain_template_view(
        "wf-spc-localization"@,
        "本地化"@,
        "审计需要本地化的内容和功能 → 翻译内容、适配格式和规范 → 验证本地化质量和一致性"@,
        "🌍"@,
        seq!["opc"@, "specialized"@],
        seq![
            trigger_view(250, 0),
            domain_agent_view(
                "a-locale-audit"@,
                "本地化审计"@,
                PROMPT_SPC_LOCALIZATION_A_LOCALE_AUDIT@,
                Seq::<ToolV>::empty(),
                Some("opc-ceo-ceo-business-strategist"@),
                "a-locale-audit_result"@,
                Seq::<(Seq<char>, Seq<char>)>::empty(),
                250,
                150,
            ),
            domain_agent_view(
                "a-locale-translate"@,
                "翻译适配"@,
                PROMPT_SPC_LOCALIZATION_A_LOCALE_TRANSLATE@,
                Seq::<ToolV>::empty(),
                Some("opc-ceo-ceo-business-strategist"@),
                "a-locale-translate_result"@,
                Seq::<(Seq<char>, Seq<char>)>::empty(),
                250,
                350,
            ),
            domain_agent_view(
                "a-locale-verify"@,
                "质量验证"@,
                PROMPT_SPC_LOCALIZATION_A_LOCALE_VERIFY@,
                Seq::<ToolV>::empty(),
                Some("opc-ceo-ceo-business-strategist"@),
                "a-locale-verify_result"@,
                Seq::<(Seq<char>, Seq<char>)>::empty(),
                250,
                550,
            ),
            end_view(250, 750),
        ],
        seq![
            direct_edge("e-trigger-a-locale-audit"@, "trigger"@, "a-locale-audit"@),
            direct_edge("e-a-locale-audit-a-locale-translate"@, "a-locale-audit"@, "a-locale-translate"@),
            direct_edge("e-a-locale-translate-a-locale-verify"@, "a-locale-translate"@, "a-locale-verify"@),
            direct_edge("e-a-locale-verify-end"@, "a-locale-verify"@, "end"@),
        ],
        now,
    )
}

fn spc_localization(now: i64) -> (t: WorkflowTemplate)
    ensures
        t.view() == spc_localization_view(now),
{
    let n0 = make_trigger(250, 0);
    let t1: Vec<ToolDef> = vec![];
    assert(tools_view(t1@) =~= Seq::<ToolV>::empty());
    let n1 = make_agent_node(
        "a-locale-audit",
        "本地化审计",
        PROMPT_SPC_LOCALIZATION_A_LOCALE_AUDIT,
        t1,
        Some("opc-ceo-ceo-business-strategist"),
        "a-locale-audit_result",
        250,
        150,
    );
    let t2: Vec<ToolDef> = vec![];
    assert(tools_view(t2@) =~= Seq::<ToolV>::empty());
    let n2 = make_agent_node(
        "a-locale-translate",
        "翻译适配",
        PROMPT_SPC_LOCALIZATION_A_LOCALE_TRANSLATE,
        t2,
        Some("opc-ceo-ceo-business-strategist"),
        "a-locale-translate_result",
        250,
        350,
    );
    let t3: Vec<ToolDef> = vec![];
    assert(tools_view(t3@) =~= Seq::<ToolV>::empty());
    let n3 = make_agent_node(
        "a-locale-verify",
        "质量验证",
        PROMPT_SPC_LOCALIZATION_A_LOCALE_VERIFY,
        t3,
        Some("opc-ceo-ceo-business-strategist"),
        "a-locale-verify_result",
        250,
        550,
    );
    let n4 = make_end(250, 750);
    let nodes = vec![n0, n1, n2, n3, n4];
    assert(nodes_view(nodes@) =~= seq![
        trigger_view(250, 0),
        domain_agent_view(
            "a-locale-audit"@,
            "本地化审计"@,
            PROMPT_SPC_LOCALIZATION_A_LOCALE_AUDIT@,
            Seq::<ToolV>::empty(),
            Some("opc-ceo-ceo-business-strategist"@),
            "a-locale-audit_result"@,
            Seq::<(Seq<char>, Seq<char>)>::empty(),
            250,
            150,
        ),
        domain_agent_view(
            "a-locale-translate"@,
            "翻译适配"@,
            PROMPT_SPC_LOCALIZATION_A_LOCALE_TRANSLATE@,
            Seq::<ToolV>::empty(),
            Some("opc-ceo-ceo-business-strategist"@),
            "a-locale-translate_result"@,
            Seq::<(Seq<char>, Seq<char>)>::empty(),
            250,
            350,
        ),
        domain_agent_view(
            "a-locale-verify"@,
            "质量验证"@,
            PROMPT_SPC_LOCALIZATION_A_LOCALE_VERIFY@,
            Seq::<ToolV>::empty(),
            Some("opc-ceo-ceo-business-strategist"@),
            "a-locale-verify_result"@,
            Seq::<(Seq<char>, Seq<char>)>::empty(),
            250,
            550,
        ),
        end_view(250, 750),
    ]);
    let edges = vec![
        edge("e-trigger-a-locale-audit", "trigger", "a-locale-audit"),
        edge("e-a-locale-audit-a-locale-translate", "a-locale-audit", "a-locale-translate"),
        edge("e-a-locale-translate-a-locale-verify", "a-locale-translate", "a-locale-verify"),
        edge("e-a-locale-verify-end", "a-locale-verify", "end"),
    ];
    assert(edges_view(edges@) =~= seq![
        direct_edge("e-trigger-a-locale-audit"@, "trigger"@, "a-locale-audit"@),
        direct_edge("e-a-locale-audit-a-locale-translate"@, "a-locale-audit"@, "a-locale-translate"@),
        direct_edge("e-a-locale-translate-a-locale-verify"@, "a-locale-translate"@, "a-locale-verify"@),
        direct_edge("e-a-locale-verify-end"@, "a-locale-verify"@, "end"@),
    ]);
    let tags: Vec<String> = vec![string_of("opc"), string_of("specialized")];
    assert(seq_view(tags@) =~= seq!["opc"@, "specialized"@]);
    build_domain_template_at(
        "wf-spc-localization",
        "本地化",
        "审计需要本地化的内容和功能 → 翻译内容、适配格式和规范 → 验证本地化质量和一致性",
        "🌍",
        tags,
        "opc-ceo-ceo-business-strategist",
        nodes,
        edges,
        now,
    )
}

/// Prompt of node `a-ma-audit` of `wf-spc-m-a`.
pub const PROMPT_SPC_M_A_A_MA_AUDIT: &'static str = "审计目标公司业务、技术、团队";

/// Prompt of node `a-ma-plan` of `wf-spc-m-a`.
pub const PROMPT_SPC_M_A_A_MA_PLAN: &'static str = "制定100天整合计划";

/// Prompt of node `a-ma-exec` of `wf-spc-m-a`.
pub const PROMPT_SPC_M_A_A_MA_EXEC: &'static str = "执行整合并监控关键指标";

/// `wf-spc-m-a` (并购整合) as stamped at `now`.
pub open spec fn spc_m_a_view(now: i64) -> TemplateV {
    domain_template_view(
        "wf-spc-m-a"@,
        "并购整合"@,
        "审计目标公司业务、技术、团队 → 制定100天整合计划 → 执行整合并监控关键指标"@,
        "🤝"@,
        seq!["opc"@, "specialized"@],
        seq![
            trigger_view(250, 0),
            domain_agent_view(
                "a-ma-audit"@,
                "尽职审计"@,
                PROMPT_SPC_M_A_A_MA_AUDIT@,
                Seq::<ToolV>::empty(),
                Some("opc-ceo-ceo-business-strategist"@),
                "a-ma-audit_result"@,
                Seq::<(Seq<char>, Seq<char>)>::empty(),
                250,
                150,
            ),
            domain_agent_view(
                "a-ma-plan"@,
                "整合计划"@,
                PROMPT_SPC_M_A_A_MA_PLAN@,
                Seq::<ToolV>::empty(),
                Some("opc-ceo-ceo-business-strategist"@),
                "a-ma-plan_result"@,
                Seq::<(Seq<char>, Seq<char>)>::empty(),
                250,
                350,
            ),
            domain_agent_view(
                "a-ma-exec"@,
                "整合执行"@,
                PROMPT_SPC_M_A_A_MA_EXEC@,
                Seq::<ToolV>::empty(),
                Some("opc-ceo-ceo-business-strategist"@),
                "a-ma-exec_result"@,
                Seq::<(Seq<char>, Seq<char>)>::empty(),
                250,
                550,
            ),
            end_view(250, 750),
        ],
        seq![
            direct_edge("e-trigger-a-ma-audit"@, "trigger"@, "a-ma-audit"@),
            direct_edge("e-a-ma-audit-a-ma-plan"@, "a-ma-audit"@, "a-ma-plan"@),
            direct_edge("e-a-ma-plan-a-ma-exec"@, "a-ma-plan"@, "a-ma-exec"@),
            direct_edge("e-a-ma-exec-end"@, "a-ma-exec"@, "end"@),
        ],
        now,
    )
}

fn spc_m_a(now: i64) -> (t: WorkflowTemplate)
    ensures
        t.view() == spc_m_a_view(now),
{
    let n0 = make_trigger(250, 0);
    let t1: Vec<ToolDef> = vec![];
    assert(tools_view(t1@) =~= Seq::<ToolV>::empty());
    let n1 = make_agent_node(
        "a-ma-audit",
        "尽职审计",
        PROMPT_SPC_M_A_A_MA_AUDIT,
        t1,
        Some("opc-ceo-ceo-business-strategist"),
        "a-ma-audit_result",
        250,
        150,
    );
    let t2: Vec<ToolDef> = vec![];
    assert(tools_view(t2@) =~= Seq::<ToolV>::empty());
    let n2 = make_agent_node(
        "a-ma-plan",
        "整合计划",
        PROMPT_SPC_M_A_A_MA_PLAN,
        t2,
        Some("opc-ceo-ceo-business-strategist"),
        "a-ma-plan_result",
        250,
        350,
    );
    let t3: Vec<ToolDef> = vec![];
    assert(tools_view(t3@) =~= Seq::<ToolV>::empty());
    let n3 = make_agent_node(
        "a-ma-exec",
        "整合执行",
        PROMPT_SPC_M_A_A_MA_EXEC,
        t3,
        Some("opc-ceo-ceo-business-strategist"),
        "a-ma-exec_result",
        250,
        550,
    );
    let n4 = make_end(250, 750);
    let nodes = vec![n0, n1, n2, n3, n4];
    assert(nodes_view(nodes@) =~= seq![
        trigger_view(250, 0),
        domain_agent_view(
            "a-ma-audit"@,
            "尽职审计"@,
            PROMPT_SPC_M_A_A_MA_AUDIT@,
            Seq::<ToolV>::empty(),
            Some("opc-ceo-ceo-business-strategist"@),
            "a-ma-audit_result"@,
            Seq::<(Seq<char>, Seq<char>)>::empty(),
            250,
            150,
        ),
        domain_agent_view(
            "a-ma-plan"@,
            "整合计划"@,
            PROMPT_SPC_M_A_A_MA_PLAN@,
            Seq::<ToolV>::empty(),
            Some("opc-ceo-ceo-business-strategist"@),
            "a-ma-plan_result"@,
            Seq::<(Seq<char>, Seq<char>)>::empty(),
            250,
            350,
        ),
        domain_agent_view(
            "a-ma-exec"@,
            "整合执行"@,
            PROMPT_SPC_M_A_A_MA_EXEC@,
            Seq::<ToolV>::empty(),
            Some("opc-ceo-ceo-business-strategist"@),
            "a-ma-exec_result"@,
            Seq::<(Seq<char>, Seq<char>)>::empty(),
            250,
            550,
        ),
        end_view(250, 750),
    ]);
    let edges = vec![
        edge("e-trigger-a-ma-audit", "trigger", "a-ma-audit"),
        edge("e-a-ma-audit-a-ma-plan", "a-ma-audit", "a-ma-plan"),
        edge("e-a-ma-plan-a-ma-exec", "a-ma-plan", "a-ma-exec"),
        edge("e-a-ma-exec-end", "a-ma-exec", "end"),
    ];
    assert(edges_view(edges@) =~= seq![
        direct_edge("e-trigger-a-ma-audit"@, "trigger"@, "a-ma-audit"@),
        direct_edge("e-a-ma-audit-a-ma-plan"@, "a-ma-audit"@, "a-ma-plan"@),
        direct_edge("e-a-ma-plan-a-ma-exec"@, "a-ma-plan"@, "a-ma-exec"@),
        direct_edge("e-a-ma-exec-end"@, "a-ma-exec"@, "end"@),
    ]);
    let tags: Vec<String> = vec![string_of("opc"), string_of("specialized")];
    assert(seq_view(tags@) =~= seq!["opc"@, "specialized"@]);
    build_domain_template_at(
        "wf-spc-m-a",
        "并购整合",
        "审计目标公司业务、技术、团队 → 制定100天整合计划 → 执行整合并监控关键指标",
        "🤝",
        tags,
        "opc-ceo-ceo-business-strategist",
        nodes,
        edges,
        now,
    )
}

/// Prompt of node `a-onboard-plan` of `wf-spc-onboard`.
pub const PROMPT_SPC_ONBOARD_A_ONBOARD_PLAN: &'static str = "制定入职计划和任务清单";

/// Prompt of node `a-onboard-setup` of `wf-spc-onboard`.
pub const PROMPT_SPC_ONBOARD_A_ONBOARD_SETUP: &'static str = "开通账号、配置设备、访问权限";

/// Prompt of node `a-onboard-orient` of `wf-spc-onboard`.
pub const PROMPT_SPC_ONBOARD_A_ONBOARD_ORIENT: &'static str = "公司介绍、团队介绍、首周任务";

/// `wf-spc-onboard` (员工入职) as stamped at `now`.
pub open spec fn spc_onboard_view(now: i64) -> TemplateV {
    domain_template_view(
        "wf-spc-onboard"@,
        "员工入职"@,
        "制定入职计划和任务清单 → 开通账号、配置设备、访问权限 → 公司介绍、团队介绍、首周任务"@,
        "📋"@,
        seq!["opc"@, "specialized"@],
        seq![
            trigger_view(250, 0),
            domain_agent_view(
                "a-onboard-plan"@,
                "入职计划"@,
                PROMPT_SPC_ONBOARD_A_ONBOARD_PLAN@,
                Seq::<ToolV>::empty(),
                Some("opc-coo-coo-operations-manager"@),
                "a-onboard-plan_result"@,
                Seq::<(Seq<char>, Seq<char>)>::empty(),
                250,
                150,
            ),
            domain_agent_view(
                "a-onboard-setup"@,
                "账号配置"@,
                PROMPT_SPC_ONBOARD_A_ONBOARD_SETUP@,
                Seq::<ToolV>::empty(),
                Some("opc-coo-coo-operations-manager"@),
                "a-onboard-setup_result"@,
                Seq::<(Seq<char>, Seq<char>)>::empty(),
                250,
                350,
            ),
            domain_agent_view(
                "a-onboard-orient"@,
                "入职引导"@,
                PROMPT_SPC_ONBOARD_A_ONBOARD_ORIENT@,
                Seq::<ToolV>::empty(),
                Some("opc-coo-coo-operations-manager"@),
                "a-onboard-orient_result"@,
                Seq::<(Seq<char>, Seq<char>)>::empty(),
                250,
                550,
            ),
            end_view(250, 750),
        ],
        seq![
            direct_edge("e-trigger-a-onboard-plan"@, "trigger"@, "a-onboard-plan"@),
            direct_edge("e-a-onboard-plan-a-onboard-setup"@, "a-onboard-plan"@, "a-onboard-setup"@),
            direct_edge("e-a-onboard-setup-a-onboard-orient"@, "a-onboard-setup"@, "a-onboard-orient"@),
            direct_edge("e-a-onboard-orient-end"@, "a-onboard-orient"@, "end"@),
        ],
        now,
    )
}

fn spc_onboard(now: i64) -> (t: WorkflowTemplate)
    ensures
        t.view() == spc_onboard_view(now),
{
    let n0 = make_trigger(250, 0);
    let t1: Vec<ToolDef> = vec![];
    assert(tools_view(t1@) =~= Seq::<ToolV>::empty());
    let n1 = make_agent_node(
        "a-onboard-plan",
        "入职计划",
        PROMPT_SPC_ONBOARD_A_ONBOARD_PLAN,
        t1,
        Some("opc-coo-coo-operations-manager"),
        "a-onboard-plan_result",
        250,
        150,
    );
    let t2: Vec<ToolDef> = vec![];
    assert(tools_view(t2@) =~= Seq::<ToolV>::empty());
    let n2 = make_agent_node(
        "a-onboard-setup",
        "账号配置",
        PROMPT_SPC_ONBOARD_A_ONBOARD_SETUP,
        t2,
        Some("opc-coo-coo-operations-manager"),
        "a-onboard-setup_result",
        250,
        350,
    );
    let t3: Vec<ToolDef> = vec![];
    assert(tools_view(t3@) =~= Seq::<ToolV>::empty());
    let n3 = make_agent_node(
        "a-onboard-orient",
        "入职引导",
        PROMPT_SPC_ONBOARD_A_ONBOARD_ORIENT,
        t3,
        Some("opc-coo-coo-operations-manager"),
        "a-onboard-orient_result",
        250,
        550,
    );
    let n4 = make_end(250, 750);
    let nodes = vec![n0, n1, n2, n3, n4];
    assert(nodes_view(nodes@) =~= seq![
        trigger_view(250, 0),
        domain_agent_view(
            "a-onboard-plan"@,
            "入职计划"@,
            PROMPT_SPC_ONBOARD_A_ONBOARD_PLAN@,
            Seq::<ToolV>::empty(),
            Some("opc-coo-coo-operations-manager"@),
            "a-onboard-plan_result"@,
            Seq::<(Seq<char>, Seq<char>)>::empty(),
            250,
            150,
        ),
        domain_agent_view(
            "a-onboard-setup"@,
            "账号配置"@,
            PROMPT_SPC_ONBOARD_A_ONBOARD_SETUP@,
            Seq::<ToolV>::empty(),
            Some("opc-coo-coo-operations-manager"@),
            "a-onboard-setup_result"@,
            Seq::<(Seq<char>, Seq<char>)>::empty(),
            250,
            350,
        ),
        domain_agent_view(
            "a-onboard-orient"@,
            "入职引导"@,
            PROMPT_SPC_ONBOARD_A_ONBOARD_ORIENT@,
            Seq::<ToolV>::empty(),
            Some("opc-coo-coo-operations-manager"@),
            "a-onboard-orient_result"@,
            Seq::<(Seq<char>, Seq<char>)>::empty(),
            250,
            550,
        ),
        end_view(250, 750),
    ]);
    let edges = vec![
        edge("e-trigger-a-onboard-plan", "trigger", "a-onboard-plan"),
        edge("e-a-onboard-plan-a-onboard-setup", "a-onboard-plan", "a-onboard-setup"),
        edge("e-a-onboard-setup-a-onboard-orient", "a-onboard-setup", "a-onboard-orient"),
        edge("e-a-onboard-orient-end", "a-onboard-orient", "end"),
    ];
    assert(edges_view(edges@) =~= seq![
        direct_edge("e-trigger-a-onboard-plan"@, "trigger"@, "a-onboard-plan"@),
        direct_edge("e-a-onboard-plan-a-onboard-setup"@, "a-onboard-plan"@, "a-onboard-setup"@),
        direct_edge("e-a-onboard-setup-a-onboard-orient"@, "a-onboard-setup"@, "a-onboard-orient"@),
        direct_edge("e-a-onboard-orient-end"@, "a-onboard-orient"@, "end"@),
    ]);
    let tags: Vec<String> = vec![string_of("opc"), string_of("specialized")];
    assert(seq_view(tags@) =~= seq!["opc"@, "specialized"@]);
    build_domain_template_at(
        "wf-spc-onboard",
        "员工入职",
        "制定入职计划和任务清单 → 开通账号、配置设备、访问权限 → 公司介绍、团队介绍、首周任务",
        "📋",
        tags,
        "opc-coo-coo-operations-manager",
        nodes,
        edges,
        now,
    )
}

/// Prompt of node `a-sc-audit` of `wf-spc-supply-chain`.
pub const PROMPT_SPC_SUPPLY_CHAIN_A_SC_AUDIT: &'static str = "审计采购、库存、物流各环节";

/// Prompt of node `a-sc-optimize` of `wf-spc-supply-chain`.
pub const PROMPT_SPC_SUPPLY_CHAIN_A_SC_OPTIMIZE: &'static str = "制定降本增效方案";

/// Prompt of node `a-sc-implement` of `wf-spc-supply-chain`.
pub const PROMPT_SPC_SUPPLY_CHAIN_A_SC_IMPLEMENT: &'static str = "实施优化并跟踪KPI";

/// `wf-spc-supply-chain` (供应链优化) as stamped at `now`.
pub open spec fn spc_supply_chain_view(now: i64) -> TemplateV {
    domain_template_view(
        "wf-spc-supply-chain"@,
        "供应链优化"@,
        "审计采购、库存、物流各环节 → 制定降本增效方案 → 实施优化并跟踪KPI"@,
        "📦"@,
        seq!["opc"@, "specialized"@],
        seq![
            trigger_view(250, 0),
            domain_agent_view(
                "a-sc-audit"@,
                "供应链审计"@,
                PROMPT_SPC_SUPPLY_CHAIN_A_SC_AUDIT@,
                Seq::<ToolV>::empty(),
                Some("opc-coo-coo-operations-manager"@),
                "a-sc-audit_result"@,
                Seq::<(Seq<char>, Seq<char>)>::empty(),
                250,
                150,
            ),
            domain_agent_view(
                "a-sc-optimize"@,
                "优化方案"@,
                PROMPT_SPC_SUPPLY_CHAIN_A_SC_OPTIMIZE@,
                Seq::<ToolV>::empty(),
                Some("opc-coo-coo-operations-manager"@),
                "a-sc-optimize_result"@,
                Seq::<(Seq<char>, Seq<char>)>::empty(),
                250,
                350,
            ),
            domain_agent_view(
                "a-sc-implement"@,
                "实施跟踪"@,
                PROMPT_SPC_SUPPLY_CHAIN_A_SC_IMPLEMENT@,
                Seq::<ToolV>::empty(),
                Some("opc-coo-coo-operations-manager"@),
                "a-sc-implement_result"@,
                Seq::<(Seq<char>, Seq<char>)>::empty(),
                250,
                550,
            ),
            end_view(250, 750),
        ],
        seq![
            direct_edge("e-trigger-a-sc-audit"@, "trigger"@, "a-sc-audit"@),
            direct_edge("e-a-sc-audit-a-sc-optimize"@, "a-sc-audit"@, "a-sc-optimize"@),
            direct_edge("e-a-sc-optimize-a-sc-implement"@, "a-sc-optimize"@, "a-sc-implement"@),
            direct_edge("e-a-sc-implement-end"@, "a-sc-implement"@, "end"@),
        ],
        now,
    )
}

fn spc_supply_chain(now: i64) -> (t: WorkflowTemplate)
    ensures
        t.view() == spc_supply_chain_view(now),
{
    let n0 = make_trigger(250, 0);
    let t1: Vec<ToolDef> = vec![];
    assert(tools_view(t1@) =~= Seq::<ToolV>::empty());
    let n1 = make_agent_node(
        "a-sc-audit",
        "供应链审计",
        PROMPT_SPC_SUPPLY_CHAIN_A_SC_AUDIT,
        t1,
        Some("opc-coo-coo-operations-manager"),
        "a-sc-audit_result",
        250,
        150,
    );
    let t2: Vec<ToolDef> = vec![];
    assert(tools_view(t2@) =~= Seq::<ToolV>::empty());
    let n2 = make_agent_node(
        "a-sc-optimize",
        "优化方案",
        PROMPT_SPC_SUPPLY_CHAIN_A_SC_OPTIMIZE,
        t2,
        Some("opc-coo-coo-operations-manager"),
        "a-sc-optimize_result",
        250,
        350,
    );
    let t3: Vec<ToolDef> = vec![];
    assert(tools_view(t3@) =~= Seq::<ToolV>::empty());
    let n3 = make_agent_node(
        "a-sc-implement",
        "实施跟踪",
        PROMPT_SPC_SUPPLY_CHAIN_A_SC_IMPLEMENT,
        t3,
        Some("opc-coo-coo-operations-manager"),
        "a-sc-implement_result",
        250,
        550,
    );
    let n4 = make_end(250, 750);
    let nodes = vec![n0, n1, n2, n3, n4];
    assert(nodes_view(nodes@) =~= seq![
        trigger_view(250, 0),
        domain_agent_view(
            "a-sc-audit"@,
            "供应链审计"@,
            PROMPT_SPC_SUPPLY_CHAIN_A_SC_AUDIT@,
            Seq::<ToolV>::empty(),
            Some("opc-coo-coo-operations-manager"@),
            "a-sc-audit_result"@,
            Seq::<(Seq<char>, Seq<char>)>::empty(),
            250,
            150,
        ),
        domain_agent_view(
            "a-sc-optimize"@,
            "优化方案"@,
            PROMPT_SPC_SUPPLY_CHAIN_A_SC_OPTIMIZE@,
            Seq::<ToolV>::empty(),
            Some("opc-coo-coo-operations-manager"@),
            "a-sc-optimize_result"@,
            Seq::<(Seq<char>, Seq<char>)>::empty(),
            250,
            350,
        ),
        domain_agent_view(
            "a-sc-implement"@,
            "实施跟踪"@,
            PROMPT_SPC_SUPPLY_CHAIN_A_SC_IMPLEMENT@,
            Seq::<ToolV>::empty(),
            Some("opc-coo-coo-operations-manager"@),
            "a-sc-implement_result"@,
            Seq::<(Seq<char>, Seq<char>)>::empty(),
            250,
            550,
        ),
        end_view(250, 750),
    ]);
    let edges = vec![
        edge("e-trigger-a-sc-audit", "trigger", "a-sc-audit"),
        edge("e-a-sc-audit-a-sc-optimize", "a-sc-audit", "a-sc-optimize"),
        edge("e-a-sc-optimize-a-sc-implement", "a-sc-optimize", "a-sc-implement"),
        edge("e-a-sc-implement-end", "a-sc-implement", "end"),
    ];
    assert(edges_view(edges@) =~= seq![
        direct_edge("e-trigger-a-sc-audit"@, "trigger"@, "a-sc-audit"@),
        direct_edge("e-a-sc-audit-a-sc-optimize"@, "a-sc-audit"@, "a-sc-optimize"@),
        direct_edge("e-a-sc-optimize-a-sc-implement"@, "a-sc-optimize"@, "a-sc-implement"@),
        direct_edge("e-a-sc-implement-end"@, "a-sc-implement"@, "end"@),
    ]);
    let tags: Vec<String> = vec![string_of("opc"), string_of("specialized")];
    assert(seq_view(tags@) =~= seq!["opc"@, "specialized"@]);
    build_domain_template_at(
        "wf-spc-supply-chain",
        "供应链优化",
        "审计采购、库存、物流各环节 → 制定降本增效方案 → 实施优化并跟踪KPI",
        "📦",
        tags,
        "opc-coo-coo-operations-manager",
        nodes,
        edges,
        now,
    )
}

/// The hand-built workflows of the specialized domain, stamped `now`, in order.
pub fn specialized_domain_templates(now: i64) -> (ts: Vec<WorkflowTemplate>)
    ensures
        templates_view(ts@) == seq![spc_change_mgmt_view(now), spc_data_privacy_view(now), spc_esg_view(now), spc_grant_view(now), spc_hire_view(now), spc_legal_review_view(now), spc_localization_view(now), spc_m_a_view(now), spc_onboard_view(now), spc_supply_chain_view(now)],
{
    let ts = vec![spc_change_mgmt(now), spc_data_privacy(now), spc_esg(now), spc_grant(now), spc_hire(now), spc_legal_review(now), spc_localization(now), spc_m_a(now), spc_onboard(now), spc_supply_chain(now)];
    assert(templates_view(ts@) =~= seq![spc_change_mgmt_view(now), spc_data_privacy_view(now), spc_esg_view(now), spc_grant_view(now), spc_hire_view(now), spc_legal_review_view(now), spc_localization_view(now), spc_m_a_view(now), spc_onboard_view(now), spc_supply_chain_view(now)]);
    ts
}

} // verus!
