use vstd::prelude::*;
use crate::domain_seed::{
    build_domain_template_at, direct_edge, domain_agent_view, domain_template_view, end_view, make_agent_node,
    make_agent_node_with_inputs, make_end, make_trigger, name_tool, templates_view, trigger_view,
};
use crate::text::string_of;
use crate::workflow::{
    edge, edges_view, nodes_view, pair_seq_view, seq_view, td, tools_view, TemplateV, ToolDef, ToolV, WorkflowTemplate,
};

verus! {

/// Prompt of node `a-pm-plan` of `wf-pm-campaign`.
pub const PROMPT_PM_CAMPAIGN_A_PM_PLAN: &'static str = "确定目标受众、预算、渠道";

/// Prompt of node `a-pm-create` of `wf-pm-campaign`.
pub const PROMPT_PM_CAMPAIGN_A_PM_CREATE: &'static str = "制作广告创意和落地页";

/// Prompt of node `a-pm-optimize` of `wf-pm-campaign`.
pub const PROMPT_PM_CAMPAIGN_A_PM_OPTIMIZE: &'static str = "分析表现数据并优化";

/// `wf-pm-campaign` (广告活动管理) as stamped at `now`.
pub open spec fn pm_campaign_view(now: i64) -> TemplateV {
    domain_template_view(
        "wf-pm-campaign"@,
        "广告活动管理"@,
        "规划、执行和优化付费广告活动"@,
        "📺"@,
        seq!["opc"@, "paidmedia"@],
        seq![
            trigger_view(250, 0),
            domain_agent_view(
                "a-pm-plan"@,
                "广告规划"@,
                PROMPT_PM_CAMPAIGN_A_PM_PLAN@,
                Seq::<ToolV>::empty(),
                Some("opc-cmo-cmo-content-strategist"@),
                "a-pm-plan_result"@,
                Seq::<(Seq<char>, Seq<char>)>::empty(),
                250,
                150,
            ),
            domain_agent_view(
                "a-pm-create"@,
                "广告制作"@,
                PROMPT_PM_CAMPAIGN_A_PM_CREATE@,
                Seq::<ToolV>::empty(),
                Some("opc-cmo-cmo-content-strategist"@),
                "a-pm-create_result"@,
                Seq::<(Seq<char>, Seq<char>)>::empty(),
                250,
                350,
            ),
            domain_agent_view(
                "a-pm-optimize"@,
                "优化"@,
                PROMPT_PM_CAMPAIGN_A_PM_OPTIMIZE@,
                Seq::<ToolV>::empty(),
                Some("opc-cmo-cmo-content-strategist"@),
                "a-pm-optimize_result"@,
                Seq::<(Seq<char>, Seq<char>)>::empty(),
                250,
                550,
            ),
            end_view(250, 750),
        ],
        seq![
            direct_edge("e-trigger-a-pm-plan"@, "trigger"@, "a-pm-plan"@),
            direct_edge("e-a-pm-plan-a-pm-create"@, "a-pm-plan"@, "a-pm-create"@),
            direct_edge("e-a-pm-create-a-pm-optimize"@, "a-pm-create"@, "a-pm-optimize"@),
            direct_edge("e-a-pm-optimize-end"@, "a-pm-optimize"@, "end"@),
        ],
        now,
    )
}

fn pm_campaign(now: i64) -> (t: WorkflowTemplate)
    ensures
        t.view() == pm_campaign_view(now),
{
    let n0 = make_trigger(250, 0);
    let t1: Vec<ToolDef> = vec![];
    assert(tools_view(t1@) =~= Seq::<ToolV>::empty());
    let n1 = make_agent_node(
        "a-pm-plan",
        "广告规划",
        PROMPT_PM_CAMPAIGN_A_PM_PLAN,
        t1,
        Some("opc-cmo-cmo-content-strategist"),
        "a-pm-plan_result",
        250,
        150,
    );
    let t2: Vec<ToolDef> = vec![];
    assert(tools_view(t2@) =~= Seq::<ToolV>::empty());
    let n2 = make_agent_node(
        "a-pm-create",
        "广告制作",
        PROMPT_PM_CAMPAIGN_A_PM_CREATE,
        t2,
        Some("opc-cmo-cmo-content-strategist"),
        "a-pm-create_result",
        250,
        350,
    );
    let t3: Vec<ToolDef> = vec![];
    assert(tools_view(t3@) =~= Seq::<ToolV>::empty());
    let n3 = make_agent_node(
        "a-pm-optimize",
        "优化",
        PROMPT_PM_CAMPAIGN_A_PM_OPTIMIZE,
        t3,
        Some("opc-cmo-cmo-content-strategist"),
        "a-pm-optimize_result",
        250,
        550,
    );
    let n4 = make_end(250, 750);
    let nodes = vec![n0, n1, n2, n3, n4];
    assert(nodes_view(nodes@) =~= seq![
        trigger_view(250, 0),
        domain_agent_view(
            "a-pm-plan"@,
            "广告规划"@,
            PROMPT_PM_CAMPAIGN_A_PM_PLAN@,
            Seq::<ToolV>::empty(),
            Some("opc-cmo-cmo-content-strategist"@),
            "a-pm-plan_result"@,
            Seq::<(Seq<char>, Seq<char>)>::empty(),
            250,
            150,
        ),
        domain_agent_view(
            "a-pm-create"@,
            "广告制作"@,
            PROMPT_PM_CAMPAIGN_A_PM_CREATE@,
            Seq::<ToolV>::empty(),
            Some("opc-cmo-cmo-content-strategist"@),
            "a-pm-create_result"@,
            Seq::<(Seq<char>, Seq<char>)>::empty(),
            250,
            350,
        ),
        domain_agent_view(
            "a-pm-optimize"@,
            "优化"@,
            PROMPT_PM_CAMPAIGN_A_PM_OPTIMIZE@,
            Seq::<ToolV>::empty(),
            Some("opc-cmo-cmo-content-strategist"@),
            "a-pm-optimize_result"@,
            Seq::<(Seq<char>, Seq<char>)>::empty(),
            250,
            550,
        ),
        end_view(250, 750),
    ]);
    let edges = vec![
        edge("e-trigger-a-pm-plan", "trigger", "a-pm-plan"),
        edge("e-a-pm-plan-a-pm-create", "a-pm-plan", "a-pm-create"),
        edge("e-a-pm-create-a-pm-optimize", "a-pm-create", "a-pm-optimize"),
        edge("e-a-pm-optimize-end", "a-pm-optimize", "end"),
    ];
    assert(edges_view(edges@) =~= seq![
        direct_edge("e-trigger-a-pm-plan"@, "trigger"@, "a-pm-plan"@),
        direct_edge("e-a-pm-plan-a-pm-create"@, "a-pm-plan"@, "a-pm-create"@),
        direct_edge("e-a-pm-create-a-pm-optimize"@, "a-pm-create"@, "a-pm-optimize"@),
        direct_edge("e-a-pm-optimize-end"@, "a-pm-optimize"@, "end"@),
    ]);
    let tags: Vec<String> = vec![string_of("opc"), string_of("paidmedia")];
    assert(seq_view(tags@) =~= seq!["opc"@, "paidmedia"@]);
    build_domain_template_at(
        "wf-pm-campaign",
        "广告活动管理",
        "规划、执行和优化付费广告活动",
        "📺",
        tags,
        "opc-cmo-cmo-content-strategist",
        nodes,
        edges,
        now,
    )
}

/// Prompt of node `a-roi-collect` of `wf-pm-roi`.
pub const PROMPT_PM_ROI_A_ROI_COLLECT: &'static str = "采集各渠道成本和收入";

/// Prompt of node `a-roi-calc` of `wf-pm-roi`.
pub const PROMPT_PM_ROI_A_ROI_CALC: &'static str = "计算ROI和客户获取成本";

/// Prompt of node `a-roi-report` of `wf-pm-roi`.
pub const PROMPT_PM_ROI_A_ROI_REPORT: &'static str = "输出ROI报告和预算建议";

/// `wf-pm-roi` (广告ROI分析) as stamped at `now`.
pub open spec fn pm_roi_view(now: i64) -> TemplateV {
    domain_template_view(
        "wf-pm-roi"@,
        "广告ROI分析"@,
        "分析各渠道广告投入产出比"@,
        "📊"@,
        seq!["opc"@, "paidmedia"@],
        seq![
            trigger_view(250, 0),
            domain_agent_view(
                "a-roi-collect"@,
                "数据采集"@,
                PROMPT_PM_ROI_A_ROI_COLLECT@,
                Seq::<ToolV>::empty(),
                Some("opc-cfo-cfo-financial-analyst"@),
                "a-roi-collect_result"@,
                Seq::<(Seq<char>, Seq<char>)>::empty(),
                250,
                150,
            ),
            domain_agent_view(
                "a-roi-calc"@,
                "计算"@,
                PROMPT_PM_ROI_A_ROI_CALC@,
                Seq::<ToolV>::empty(),
                Some("opc-cfo-cfo-financial-analyst"@),
                "a-roi-calc_result"@,
                Seq::<(Seq<char>, Seq<char>)>::empty(),
                250,
                350,
            ),
            domain_agent_view(
                "a-roi-report"@,
                "报告"@,
                PROMPT_PM_ROI_A_ROI_REPORT@,
                Seq::<ToolV>::empty(),
                Some("opc-cfo-cfo-financial-analyst"@),
                "a-roi-report_result"@,
                Seq::<(Seq<char>, Seq<char>)>::empty(),
                250,
                550,
            ),
            end_view(250, 750),
        ],
        seq![
            direct_edge("e-trigger-a-roi-collect"@, "trigger"@, "a-roi-collect"@),
            direct_edge("e-a-roi-collect-a-roi-calc"@, "a-roi-collect"@, "a-roi-calc"@),
            direct_edge("e-a-roi-calc-a-roi-report"@, "a-roi-calc"@, "a-roi-report"@),
            direct_edge("e-a-roi-report-end"@, "a-roi-report"@, "end"@),
        ],
        now,
    )
}

fn pm_roi(now: i64) -> (t: WorkflowTemplate)
    ensures
        t.view() == pm_roi_view(now),
{
    let n0 = make_trigger(250, 0);
    let t1: Vec<ToolDef> = vec![];
    assert(tools_view(t1@) =~= Seq::<ToolV>::empty());
    let n1 = make_agent_node(
        "a-roi-collect",
        "数据采集",
        PROMPT_PM_ROI_A_ROI_COLLECT,
        t1,
        Some("opc-cfo-cfo-financial-analyst"),
        "a-roi-collect_result",
        250,
        150,
    );
    let t2: Vec<ToolDef> = vec![];
    assert(tools_view(t2@) =~= Seq::<ToolV>::empty());
    let n2 = make_agent_node(
        "a-roi-calc",
        "计算",
        PROMPT_PM_ROI_A_ROI_CALC,
        t2,
        Some("opc-cfo-cfo-financial-analyst"),
        "a-roi-calc_result",
        250,
        350,
    );
    let t3: Vec<ToolDef> = vec![];
    assert(tools_view(t3@) =~= Seq::<ToolV>::empty());
    let n3 = make_agent_node(
        "a-roi-report",
        "报告",
        PROMPT_PM_ROI_A_ROI_REPORT,
        t3,
        Some("opc-cfo-cfo-financial-analyst"),
        "a-roi-report_result",
        250,
        550,
    );
    let n4 = make_end(250, 750);
    let nodes = vec![n0, n1, n2, n3, n4];
    assert(nodes_view(nodes@) =~= seq![
        trigger_view(250, 0),
        domain_agent_view(
            "a-roi-collect"@,
            "数据采集"@,
            PROMPT_PM_ROI_A_ROI_COLLECT@,
            Seq::<ToolV>::empty(),
            Some("opc-cfo-cfo-financial-analyst"@),
            "a-roi-collect_result"@,
            Seq::<(Seq<char>, Seq<char>)>::empty(),
            250,
            150,
        ),
        domain_agent_view(
            "a-roi-calc"@,
            "计算"@,
            PROMPT_PM_ROI_A_ROI_CALC@,
            Seq::<ToolV>::empty(),
            Some("opc-cfo-cfo-financial-analyst"@),
            "a-roi-calc_result"@,
            Seq::<(Seq<char>, Seq<char>)>::empty(),
            250,
            350,
        ),
        domain_agent_view(
            "a-roi-report"@,
            "报告"@,
            PROMPT_PM_ROI_A_ROI_REPORT@,
            Seq::<ToolV>::empty(),
            Some("opc-cfo-cfo-financial-analyst"@),
            "a-roi-report_result"@,
            Seq::<(Seq<char>, Seq<char>)>::empty(),
            250,
            550,
        ),
        end_view(250, 750),
    ]);
    let edges = vec![
        edge("e-trigger-a-roi-collect", "trigger", "a-roi-collect"),
        edge("e-a-roi-collect-a-roi-calc", "a-roi-collect", "a-roi-calc"),
        edge("e-a-roi-calc-a-roi-report", "a-roi-calc", "a-roi-report"),
        edge("e-a-roi-report-end", "a-roi-report", "end"),
    ];
    assert(edges_view(edges@) =~= seq![
        direct_edge("e-trigger-a-roi-collect"@, "trigger"@, "a-roi-collect"@),
        direct_edge("e-a-roi-collect-a-roi-calc"@, "a-roi-collect"@, "a-roi-calc"@),
        direct_edge("e-a-roi-calc-a-roi-report"@, "a-roi-calc"@, "a-roi-report"@),
        direct_edge("e-a-roi-report-end"@, "a-roi-report"@, "end"@),
    ]);
    let tags: Vec<String> = vec![string_of("opc"), string_of("paidmedia")];
    assert(seq_view(tags@) =~= seq!["opc"@, "paidmedia"@]);
    build_domain_template_at(
        "wf-pm-roi",
        "广告ROI分析",
        "分析各渠道广告投入产出比",
        "📊",
        tags,
        "opc-cfo-cfo-financial-analyst",
        nodes,
        edges,
        now,
    )
}

/// The hand-built workflows of the paid media domain, stamped `now`, in order.
pub fn paidmedia_domain_templates(now: i64) -> (ts: Vec<WorkflowTemplate>)
    ensures
        templates_view(ts@) == seq![pm_campaign_view(now), pm_roi_view(now)],
{
    let ts = vec![pm_campaign(now), pm_roi(now)];
    assert(templates_view(ts@) =~= seq![pm_campaign_view(now), pm_roi_view(now)]);
    ts
}

} // verus!
