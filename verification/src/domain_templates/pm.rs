use vstd::prelude::*;
use crate::domain_seed::{
    build_domain_template_at, direct_edge, domain_agent_view, domain_template_view, end_view, make_agent_node,
    make_agent_node_with_inputs, make_end, make_trigger, name_tool, templates_view, trigger_view,
};
use crate::text::string_of;
use crate::workflow::{
    edge, edges_view, nodes_view, pair_seq_view, seq_view, td, tools_view, TemplateV, ToolDef, ToolV, WorkflowTemplate,
};

verus! {

/// Prompt of node `a-risk-identify` of `wf-pm-risk`.
pub const PROMPT_PM_RISK_A_RISK_IDENTIFY: &'static str = "识别技术和业务风险";

/// Prompt of node `a-risk-assess` of `wf-pm-risk`.
pub const PROMPT_PM_RISK_A_RISK_ASSESS: &'static str = "评估影响和概率";

/// Prompt of node `a-risk-respond` of `wf-pm-risk`.
pub const PROMPT_PM_RISK_A_RISK_RESPOND: &'static str = "制定风险应对策略";

/// `wf-pm-risk` (风险管理) as stamped at `now`.
pub open spec fn pm_risk_view(now: i64) -> TemplateV {
    domain_template_view(
        "wf-pm-risk"@,
        "风险管理"@,
        "识别、评估和应对项目风险"@,
        "⚠️"@,
        seq!["opc"@, "pm"@],
        seq![
            trigger_view(250, 0),
            domain_agent_view(
                "a-risk-identify"@,
                "风险识别"@,
                PROMPT_PM_RISK_A_RISK_IDENTIFY@,
                Seq::<ToolV>::empty(),
                Some("opc-coo-coo-operations-manager"@),
                "a-risk-identify_result"@,
                Seq::<(Seq<char>, Seq<char>)>::empty(),
                250,
                150,
            ),
            domain_agent_view(
                "a-risk-assess"@,
                "评估"@,
                PROMPT_PM_RISK_A_RISK_ASSESS@,
                Seq::<ToolV>::empty(),
                Some("opc-coo-coo-operations-manager"@),
                "a-risk-assess_result"@,
                Seq::<(Seq<char>, Seq<char>)>::empty(),
                250,
                350,
            ),
            domain_agent_view(
                "a-risk-respond"@,
                "应对"@,
                PROMPT_PM_RISK_A_RISK_RESPOND@,
                Seq::<ToolV>::empty(),
                Some("opc-coo-coo-operations-manager"@),
                "a-risk-respond_result"@,
                Seq::<(Seq<char>, Seq<char>)>::empty(),
                250,
                550,
            ),
            end_view(250, 750),
        ],
        seq![
            direct_edge("e-trigger-a-risk-identify"@, "trigger"@, "a-risk-identify"@),
            direct_edge("e-a-risk-identify-a-risk-assess"@, "a-risk-identify"@, "a-risk-assess"@),
            direct_edge("e-a-risk-assess-a-risk-respond"@, "a-risk-assess"@, "a-risk-respond"@),
            direct_edge("e-a-risk-respond-end"@, "a-risk-respond"@, "end"@),
        ],
        now,
    )
}

fn pm_risk(now: i64) -> (t: WorkflowTemplate)
    ensures
        t.view() == pm_risk_view(now),
{
    let n0 = make_trigger(250, 0);
    let t1: Vec<ToolDef> = vec![];
    assert(tools_view(t1@) =~= Seq::<ToolV>::empty());
    let n1 = make_agent_node(
        "a-risk-identify",
        "风险识别",
        PROMPT_PM_RISK_A_RISK_IDENTIFY,
        t1,
        Some("opc-coo-coo-operations-manager"),
        "a-risk-identify_result",
        250,
        150,
    );
    let t2: Vec<ToolDef> = vec![];
    assert(tools_view(t2@) =~= Seq::<ToolV>::empty());
    let n2 = make_agent_node(
        "a-risk-assess",
        "评估",
        PROMPT_PM_RISK_A_RISK_ASSESS,
        t2,
        Some("opc-coo-coo-operations-manager"),
        "a-risk-assess_result",
        250,
        350,
    );
    let t3: Vec<ToolDef> = vec![];
    assert(tools_view(t3@) =~= Seq::<ToolV>::empty());
    let n3 = make_agent_node(
        "a-risk-respond",
        "应对",
        PROMPT_PM_RISK_A_RISK_RESPOND,
        t3,
        Some("opc-coo-coo-operations-manager"),
        "a-risk-respond_result",
        250,
        550,
    );
    let n4 = make_end(250, 750);
    let nodes = vec![n0, n1, n2, n3, n4];
    assert(nodes_view(nodes@) =~= seq![
        trigger_view(250, 0),
        domain_agent_view(
            "a-risk-identify"@,
            "风险识别"@,
            PROMPT_PM_RISK_A_RISK_IDENTIFY@,
            Seq::<ToolV>::empty(),
            Some("opc-coo-coo-operations-manager"@),
            "a-risk-identify_result"@,
            Seq::<(Seq<char>, Seq<char>)>::empty(),
            250,
            150,
        ),
        domain_agent_view(
            "a-risk-assess"@,
            "评估"@,
            PROMPT_PM_RISK_A_RISK_ASSESS@,
            Seq::<ToolV>::empty(),
            Some("opc-coo-coo-operations-manager"@),
            "a-risk-assess_result"@,
            Seq::<(Seq<char>, Seq<char>)>::empty(),
            250,
            350,
        ),
        domain_agent_view(
            "a-risk-respond"@,
            "应对"@,
            PROMPT_PM_RISK_A_RISK_RESPOND@,
            Seq::<ToolV>::empty(),
            Some("opc-coo-coo-operations-manager"@),
            "a-risk-respond_result"@,
            Seq::<(Seq<char>, Seq<char>)>::empty(),
            250,
            550,
        ),
        end_view(250, 750),
    ]);
    let edges = vec![
        edge("e-trigger-a-risk-identify", "trigger", "a-risk-identify"),
        edge("e-a-risk-identify-a-risk-assess", "a-risk-identify", "a-risk-assess"),
        edge("e-a-risk-assess-a-risk-respond", "a-risk-assess", "a-risk-respond"),
        edge("e-a-risk-respond-end", "a-risk-respond", "end"),
    ];
    assert(edges_view(edges@) =~= seq![
        direct_edge("e-trigger-a-risk-identify"@, "trigger"@, "a-risk-identify"@),
        direct_edge("e-a-risk-identify-a-risk-assess"@, "a-risk-identify"@, "a-risk-assess"@),
        direct_edge("e-a-risk-assess-a-risk-respond"@, "a-risk-assess"@, "a-risk-respond"@),
        direct_edge("e-a-risk-respond-end"@, "a-risk-respond"@, "end"@),
    ]);
    let tags: Vec<String> = vec![string_of("opc"), string_of("pm")];
    assert(seq_view(tags@) =~= seq!["opc"@, "pm"@]);
    build_domain_template_at(
        "wf-pm-risk",
        "风险管理",
        "识别、评估和应对项目风险",
        "⚠️",
        tags,
        "opc-coo-coo-operations-manager",
        nodes,
        edges,
        now,
    )
}

/// Prompt of node `a-sprint-backlog` of `wf-pm-sprint`.
pub const PROMPT_PM_SPRINT_A_SPRINT_BACKLOG: &'static str = "梳理和估算待办项";

/// Prompt of node `a-sprint-plan` of `wf-pm-sprint`.
pub const PROMPT_PM_SPRINT_A_SPRINT_PLAN: &'static str = "确定冲刺目标和任务分配";

/// Prompt of node `a-sprint-review` of `wf-pm-sprint`.
pub const PROMPT_PM_SPRINT_A_SPRINT_REVIEW: &'static str = "回顾冲刺成果和改进点";

/// `wf-pm-sprint` (Sprint规划) as stamped at `now`.
pub open spec fn pm_sprint_view(now: i64) -> TemplateV {
    domain_template_view(
        "wf-pm-sprint"@,
        "Sprint规划"@,
        "迭代冲刺规划和任务分配"@,
        "📋"@,
        seq!["opc"@, "pm"@],
        seq![
            trigger_view(250, 0),
            domain_agent_view(
                "a-sprint-backlog"@,
                "Backlog梳理"@,
                PROMPT_PM_SPRINT_A_SPRINT_BACKLOG@,
                Seq::<ToolV>::empty(),
                Some("opc-coo-coo-operations-manager"@),
                "a-sprint-backlog_result"@,
                Seq::<(Seq<char>, Seq<char>)>::empty(),
                250,
                150,
            ),
            domain_agent_view(
                "a-sprint-plan"@,
                "冲刺规划"@,
                PROMPT_PM_SPRINT_A_SPRINT_PLAN@,
                Seq::<ToolV>::empty(),
                Some("opc-coo-coo-operations-manager"@),
                "a-sprint-plan_result"@,
                Seq::<(Seq<char>, Seq<char>)>::empty(),
                250,
                350,
            ),
            domain_agent_view(
                "a-sprint-review"@,
                "冲刺回顾"@,
                PROMPT_PM_SPRINT_A_SPRINT_REVIEW@,
                Seq::<ToolV>::empty(),
                Some("opc-coo-coo-operations-manager"@),
                "a-sprint-review_result"@,
                Seq::<(Seq<char>, Seq<char>)>::empty(),
                250,
                550,
            ),
            end_view(250, 750),
        ],
        seq![
            direct_edge("e-trigger-a-sprint-backlog"@, "trigger"@, "a-sprint-backlog"@),
            direct_edge("e-a-sprint-backlog-a-sprint-plan"@, "a-sprint-backlog"@, "a-sprint-plan"@),
            direct_edge("e-a-sprint-plan-a-sprint-review"@, "a-sprint-plan"@, "a-sprint-review"@),
            direct_edge("e-a-sprint-review-end"@, "a-sprint-review"@, "end"@),
        ],
        now,
    )
}

fn pm_sprint(now: i64) -> (t: WorkflowTemplate)
    ensures
        t.view() == pm_sprint_view(now),
{
    let n0 = make_trigger(250, 0);
    let t1: Vec<ToolDef> = vec![];
    assert(tools_view(t1@) =~= Seq::<ToolV>::empty());
    let n1 = make_agent_node(
        "a-sprint-backlog",
        "Backlog梳理",
        PROMPT_PM_SPRINT_A_SPRINT_BACKLOG,
        t1,
        Some("opc-coo-coo-operations-manager"),
        "a-sprint-backlog_result",
        250,
        150,
    );
    let t2: Vec<ToolDef> = vec![];
    assert(tools_view(t2@) =~= Seq::<ToolV>::empty());
    let n2 = make_agent_node(
        "a-sprint-plan",
        "冲刺规划",
        PROMPT_PM_SPRINT_A_SPRINT_PLAN,
        t2,
        Some("opc-coo-coo-operations-manager"),
        "a-sprint-plan_result",
        250,
        350,
    );
    let t3: Vec<ToolDef> = vec![];
    assert(tools_view(t3@) =~= Seq::<ToolV>::empty());
    let n3 = make_agent_node(
        "a-sprint-review",
        "冲刺回顾",
        PROMPT_PM_SPRINT_A_SPRINT_REVIEW,
        t3,
        Some("opc-coo-coo-operations-manager"),
        "a-sprint-review_result",
        250,
        550,
    );
    let n4 = make_end(250, 750);
    let nodes = vec![n0, n1, n2, n3, n4];
    assert(nodes_view(nodes@) =~= seq![
        trigger_view(250, 0),
        domain_agent_view(
            "a-sprint-backlog"@,
            "Backlog梳理"@,
            PROMPT_PM_SPRINT_A_SPRINT_BACKLOG@,
            Seq::<ToolV>::empty(),
            Some("opc-coo-coo-operations-manager"@),
            "a-sprint-backlog_result"@,
            Seq::<(Seq<char>, Seq<char>)>::empty(),
            250,
            150,
        ),
        domain_agent_view(
            "a-sprint-plan"@,
            "冲刺规划"@,
            PROMPT_PM_SPRINT_A_SPRINT_PLAN@,
            Seq::<ToolV>::empty(),
            Some("opc-coo-coo-operations-manager"@),
            "a-sprint-plan_result"@,
            Seq::<(Seq<char>, Seq<char>)>::empty(),
            250,
            350,
        ),
        domain_agent_view(
            "a-sprint-review"@,
            "冲刺回顾"@,
            PROMPT_PM_SPRINT_A_SPRINT_REVIEW@,
            Seq::<ToolV>::empty(),
            Some("opc-coo-coo-operations-manager"@),
            "a-sprint-review_result"@,
            Seq::<(Seq<char>, Seq<char>)>::empty(),
            250,
            550,
        ),
        end_view(250, 750),
    ]);
    let edges = vec![
        edge("e-trigger-a-sprint-backlog", "trigger", "a-sprint-backlog"),
        edge("e-a-sprint-backlog-a-sprint-plan", "a-sprint-backlog", "a-sprint-plan"),
        edge("e-a-sprint-plan-a-sprint-review", "a-sprint-plan", "a-sprint-review"),
        edge("e-a-sprint-review-end", "a-sprint-review", "end"),
    ];
    assert(edges_view(edges@) =~= seq![
        direct_edge("e-trigger-a-sprint-backlog"@, "trigger"@, "a-sprint-backlog"@),
        direct_edge("e-a-sprint-backlog-a-sprint-plan"@, "a-sprint-backlog"@, "a-sprint-plan"@),
        direct_edge("e-a-sprint-plan-a-sprint-review"@, "a-sprint-plan"@, "a-sprint-review"@),
        direct_edge("e-a-sprint-review-end"@, "a-sprint-review"@, "end"@),
    ]);
    let tags: Vec<String> = vec![string_of("opc"), string_of("pm")];
    assert(seq_view(tags@) =~= seq!["opc"@, "pm"@]);
    build_domain_template_at(
        "wf-pm-sprint",
        "Sprint规划",
        "迭代冲刺规划和任务分配",
        "📋",
        tags,
        "opc-coo-coo-operations-manager",
        nodes,
        edges,
        now,
    )
}

/// Prompt of node `a-status-collect` of `wf-pm-status`.
pub const PROMPT_PM_STATUS_A_STATUS_COLLECT: &'static str = "收集团队进展和指标";

/// Prompt of node `a-status-write` of `wf-pm-status`.
pub const PROMPT_PM_STATUS_A_STATUS_WRITE: &'static str = "撰写项目状态报告";

/// Prompt of node `a-status-distribute` of `wf-pm-status`.
pub const PROMPT_PM_STATUS_A_STATUS_DISTRIBUTE: &'static str = "发送报告并安排跟进";

/// `wf-pm-status` (项目状态报告) as stamped at `now`.
pub open spec fn pm_status_view(now: i64) -> TemplateV {
    domain_template_view(
        "wf-pm-status"@,
        "项目状态报告"@,
        "生成项目周报和状态更新"@,
        "📊"@,
        seq!["opc"@, "pm"@],
        seq![
            trigger_view(250, 0),
            domain_agent_view(
                "a-status-collect"@,
                "数据收集"@,
                PROMPT_PM_STATUS_A_STATUS_COLLECT@,
                Seq::<ToolV>::empty(),
                Some("opc-coo-coo-operations-manager"@),
                "a-status-collect_result"@,
                Seq::<(Seq<char>, Seq<char>)>::empty(),
                250,
                150,
            ),
            domain_agent_view(
                "a-status-write"@,
                "报告撰写"@,
                PROMPT_PM_STATUS_A_STATUS_WRITE@,
                Seq::<ToolV>::empty(),
                Some("opc-coo-coo-operations-manager"@),
                "a-status-write_result"@,
                Seq::<(Seq<char>, Seq<char>)>::empty(),
                250,
                350,
            ),
            domain_agent_view(
                "a-status-distribute"@,
                "分发"@,
                PROMPT_PM_STATUS_A_STATUS_DISTRIBUTE@,
                Seq::<ToolV>::empty(),
                Some("opc-coo-coo-operations-manager"@),
                "a-status-distribute_result"@,
                Seq::<(Seq<char>, Seq<char>)>::empty(),
                250,
                550,
            ),
            end_view(250, 750),
        ],
        seq![
            direct_edge("e-trigger-a-status-collect"@, "trigger"@, "a-status-collect"@),
            direct_edge("e-a-status-collect-a-status-write"@, "a-status-collect"@, "a-status-write"@),
            direct_edge("e-a-status-write-a-status-distribute"@, "a-status-write"@, "a-status-distribute"@),
            direct_edge("e-a-status-distribute-end"@, "a-status-distribute"@, "end"@),
        ],
        now,
    )
}

fn pm_status(now: i64) -> (t: WorkflowTemplate)
    ensures
        t.view() == pm_status_view(now),
{
    let n0 = make_trigger(250, 0);
    let t1: Vec<ToolDef> = vec![];
    assert(tools_view(t1@) =~= Seq::<ToolV>::empty());
    let n1 = make_agent_node(
        "a-status-collect",
        "数据收集",
        PROMPT_PM_STATUS_A_STATUS_COLLECT,
        t1,
        Some("opc-coo-coo-operations-manager"),
        "a-status-collect_result",
        250,
        150,
    );
    let t2: Vec<ToolDef> = vec![];
    assert(tools_view(t2@) =~= Seq::<ToolV>::empty());
    let n2 = make_agent_node(
        "a-status-write",
        "报告撰写",
        PROMPT_PM_STATUS_A_STATUS_WRITE,
        t2,
        Some("opc-coo-coo-operations-manager"),
        "a-status-write_result",
        250,
        350,
    );
    let t3: Vec<ToolDef> = vec![];
    assert(tools_view(t3@) =~= Seq::<ToolV>::empty());
    let n3 = make_agent_node(
        "a-status-distribute",
        "分发",
        PROMPT_PM_STATUS_A_STATUS_DISTRIBUTE,
        t3,
        Some("opc-coo-coo-operations-manager"),
        "a-status-distribute_result",
        250,
        550,
    );
    let n4 = make_end(250, 750);
    let nodes = vec![n0, n1, n2, n3, n4];
    assert(nodes_view(nodes@) =~= seq![
        trigger_view(250, 0),
        domain_agent_view(
            "a-status-collect"@,
            "数据收集"@,
            PROMPT_PM_STATUS_A_STATUS_COLLECT@,
            Seq::<ToolV>::empty(),
            Some("opc-coo-coo-operations-manager"@),
            "a-status-collect_result"@,
            Seq::<(Seq<char>, Seq<char>)>::empty(),
            250,
            150,
        ),
        domain_agent_view(
            "a-status-write"@,
            "报告撰写"@,
            PROMPT_PM_STATUS_A_STATUS_WRITE@,
            Seq::<ToolV>::empty(),
            Some("opc-coo-coo-operations-manager"@),
            "a-status-write_result"@,
            Seq::<(Seq<char>, Seq<char>)>::empty(),
            250,
            350,
        ),
        domain_agent_view(
            "a-status-distribute"@,
            "分发"@,
            PROMPT_PM_STATUS_A_STATUS_DISTRIBUTE@,
            Seq::<ToolV>::empty(),
            Some("opc-coo-coo-operations-manager"@),
            "a-status-distribute_result"@,
            Seq::<(Seq<char>, Seq<char>)>::empty(),
            250,
            550,
        ),
        end_view(250, 750),
    ]);
    let edges = vec![
        edge("e-trigger-a-status-collect", "trigger", "a-status-collect"),
        edge("e-a-status-collect-a-status-write", "a-status-collect", "a-status-write"),
        edge("e-a-status-write-a-status-distribute", "a-status-write", "a-status-distribute"),
        edge("e-a-status-distribute-end", "a-status-distribute", "end"),
    ];
    assert(edges_view(edges@) =~= seq![
        direct_edge("e-trigger-a-status-collect"@, "trigger"@, "a-status-collect"@),
        direct_edge("e-a-status-collect-a-status-write"@, "a-status-collect"@, "a-status-write"@),
        direct_edge("e-a-status-write-a-status-distribute"@, "a-status-write"@, "a-status-distribute"@),
        direct_edge("e-a-status-distribute-end"@, "a-status-distribute"@, "end"@),
    ]);
    let tags: Vec<String> = vec![string_of("opc"), string_of("pm")];
    assert(seq_view(tags@) =~= seq!["opc"@, "pm"@]);
    build_domain_template_at(
        "wf-pm-status",
        "项目状态报告",
        "生成项目周报和状态更新",
        "📊",
        tags,
        "opc-coo-coo-operations-manager",
        nodes,
        edges,
        now,
    )
}

/// The hand-built workflows of the project management domain, stamped `now`, in order.
pub fn pm_domain_templates(now: i64) -> (ts: Vec<WorkflowTemplate>)
    ensures
        templates_view(ts@) == seq![pm_risk_view(now), pm_sprint_view(now), pm_status_view(now)],
{
    let ts = vec![pm_risk(now), pm_sprint(now), pm_status(now)];
    assert(templates_view(ts@) =~= seq![pm_risk_view(now), pm_sprint_view(now), pm_status_view(now)]);
    ts
}

} // verus!
