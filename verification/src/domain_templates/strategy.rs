use vstd::prelude::*;
use crate::domain_seed::{
    build_domain_template_at, direct_edge, domain_agent_view, domain_template_view, end_view, make_agent_node,
    make_agent_node_with_inputs, make_end, make_trigger, name_tool, templates_view, trigger_view,
};
use crate::text::string_of;
use crate::workflow::{
    edge, edges_view, nodes_view, pair_seq_view, seq_view, td, tools_view, TemplateV, ToolDef, ToolV, WorkflowTemplate,
};

verus! {

/// Prompt of node `a-bp-summary` of `wf-strat-biz-plan`.
pub const PROMPT_STRAT_BIZ_PLAN_A_BP_SUMMARY: &'static str = "撰写执行摘要和公司概述";

/// Prompt of node `a-bp-market` of `wf-strat-biz-plan`.
pub const PROMPT_STRAT_BIZ_PLAN_A_BP_MARKET: &'static str = "市场分析、竞争分析、SWOT";

/// Prompt of node `a-bp-financial` of `wf-strat-biz-plan`.
pub const PROMPT_STRAT_BIZ_PLAN_A_BP_FINANCIAL: &'static str = "收入模型、成本、现金流预测";

/// `wf-strat-biz-plan` (商业计划书) as stamped at `now`.
pub open spec fn strat_biz_plan_view(now: i64) -> TemplateV {
    domain_template_view(
        "wf-strat-biz-plan"@,
        "商业计划书"@,
        "编写完整商业计划书"@,
        "📄"@,
        seq!["opc"@, "strategy"@],
        seq![
            trigger_view(250, 0),
            domain_agent_view(
                "a-bp-summary"@,
                "执行摘要"@,
                PROMPT_STRAT_BIZ_PLAN_A_BP_SUMMARY@,
                Seq::<ToolV>::empty(),
                Some("opc-ceo-ceo-business-strategist"@),
                "a-bp-summary_result"@,
                Seq::<(Seq<char>, Seq<char>)>::empty(),
                250,
                150,
            ),
            domain_agent_view(
                "a-bp-market"@,
                "市场分析"@,
                PROMPT_STRAT_BIZ_PLAN_A_BP_MARKET@,
                Seq::<ToolV>::empty(),
                Some("opc-ceo-ceo-business-strategist"@),
                "a-bp-market_result"@,
                Seq::<(Seq<char>, Seq<char>)>::empty(),
                250,
                350,
            ),
            domain_agent_view(
                "a-bp-financial"@,
                "财务预测"@,
                PROMPT_STRAT_BIZ_PLAN_A_BP_FINANCIAL@,
                Seq::<ToolV>::empty(),
                Some("opc-ceo-ceo-business-strategist"@),
                "a-bp-financial_result"@,
                Seq::<(Seq<char>, Seq<char>)>::empty(),
                250,
                550,
            ),
            end_view(250, 750),
        ],
        seq![
            direct_edge("e-trigger-a-bp-summary"@, "trigger"@, "a-bp-summary"@),
            direct_edge("e-a-bp-summary-a-bp-market"@, "a-bp-summary"@, "a-bp-market"@),
            direct_edge("e-a-bp-market-a-bp-financial"@, "a-bp-market"@, "a-bp-financial"@),
            direct_edge("e-a-bp-financial-end"@, "a-bp-financial"@, "end"@),
        ],
        now,
    )
}

fn strat_biz_plan(now: i64) -> (t: WorkflowTemplate)
    ensures
        t.view() == strat_biz_plan_view(now),
{
    let n0 = make_trigger(250, 0);
    let t1: Vec<ToolDef> = vec![];
    assert(tools_view(t1@) =~= Seq::<ToolV>::empty());
    let n1 = make_agent_node(
        "a-bp-summary",
        "执行摘要",
        PROMPT_STRAT_BIZ_PLAN_A_BP_SUMMARY,
        t1,
        Some("opc-ceo-ceo-business-strategist"),
        "a-bp-summary_result",
        250,
        150,
    );
    let t2: Vec<ToolDef> = vec![];
    assert(tools_view(t2@) =~= Seq::<ToolV>::empty());
    let n2 = make_agent_node(
        "a-bp-market",
        "市场分析",
        PROMPT_STRAT_BIZ_PLAN_A_BP_MARKET,
        t2,
        Some("opc-ceo-ceo-business-strategist"),
        "a-bp-market_result",
        250,
        350,
    );
    let t3: Vec<ToolDef> = vec![];
    assert(tools_view(t3@) =~= Seq::<ToolV>::empty());
    let n3 = make_agent_node(
        "a-bp-financial",
        "财务预测",
        PROMPT_STRAT_BIZ_PLAN_A_BP_FINANCIAL,
        t3,
        Some("opc-ceo-ceo-business-strategist"),
        "a-bp-financial_result",
        250,
        550,
    );
    let n4 = make_end(250, 750);
    let nodes = vec![n0, n1, n2, n3, n4];
    assert(nodes_view(nodes@) =~= seq![
        trigger_view(250, 0),
        domain_agent_view(
            "a-bp-summary"@,
            "执行摘要"@,
            PROMPT_STRAT_BIZ_PLAN_A_BP_SUMMARY@,
            Seq::<ToolV>::empty(),
            Some("opc-ceo-ceo-business-strategist"@),
            "a-bp-summary_result"@,
            Seq::<(Seq<char>, Seq<char>)>::empty(),
            250,
            150,
        ),
        domain_agent_view(
            "a-bp-market"@,
            "市场分析"@,
            PROMPT_STRAT_BIZ_PLAN_A_BP_MARKET@,
            Seq::<ToolV>::empty(),
            Some("opc-ceo-ceo-business-strategist"@),
            "a-bp-market_result"@,
            Seq::<(Seq<char>, Seq<char>)>::empty(),
            250,
            350,
        ),
        domain_agent_view(
            "a-bp-financial"@,
            "财务预测"@,
            PROMPT_STRAT_BIZ_PLAN_A_BP_FINANCIAL@,
            Seq::<ToolV>::empty(),
            Some("opc-ceo-ceo-business-strategist"@),
            "a-bp-financial_result"@,
            Seq::<(Seq<char>, Seq<char>)>::empty(),
            250,
            550,
        ),
        end_view(250, 750),
    ]);
    let edges = vec![
        edge("e-trigger-a-bp-summary", "trigger", "a-bp-summary"),
        edge("e-a-bp-summary-a-bp-market", "a-bp-summary", "a-bp-market"),
        edge("e-a-bp-market-a-bp-financial", "a-bp-market", "a-bp-financial"),
        edge("e-a-bp-financial-end", "a-bp-financial", "end"),
    ];
    assert(edges_view(edges@) =~= seq![
        direct_edge("e-trigger-a-bp-summary"@, "trigger"@, "a-bp-summary"@),
        direct_edge("e-a-bp-summary-a-bp-market"@, "a-bp-summary"@, "a-bp-market"@),
        direct_edge("e-a-bp-market-a-bp-financial"@, "a-bp-market"@, "a-bp-financial"@),
        direct_edge("e-a-bp-financial-end"@, "a-bp-financial"@, "end"@),
    ]);
    let tags: Vec<String> = vec![string_of("opc"), string_of("strategy")];
    assert(seq_view(tags@) =~= seq!["opc"@, "strategy"@]);
    build_domain_template_at(
        "wf-strat-biz-plan",
        "商业计划书",
        "编写完整商业计划书",
        "📄",
        tags,
        "opc-ceo-ceo-business-strategist",
        nodes,
        edges,
        now,
    )
}

/// Prompt of node `a-market-size` of `wf-strat-market-entry`.
pub const PROMPT_STRAT_MARKET_ENTRY_A_MARKET_SIZE: &'static str = "分析市场规模、竞争、进入壁垒";

/// Prompt of node `a-market-strategy` of `wf-strat-market-entry`.
pub const PROMPT_STRAT_MARKET_ENTRY_A_MARKET_STRATEGY: &'static str = "制定进入策略: 渠道、定价、定位";

/// Prompt of node `a-market-plan` of `wf-strat-market-entry`.
pub const PROMPT_STRAT_MARKET_ENTRY_A_MARKET_PLAN: &'static str = "制定执行计划和预算";

/// `wf-strat-market-entry` (市场进入策略) as stamped at `now`.
pub open spec fn strat_market_entry_view(now: i64) -> TemplateV {
    domain_template_view(
        "wf-strat-market-entry"@,
        "市场进入策略"@,
        "制定新市场进入策略和计划"@,
        "🎯"@,
        seq!["opc"@, "strategy"@],
        seq![
            trigger_view(250, 0),
            domain_agent_view(
                "a-market-size"@,
                "市场分析"@,
                PROMPT_STRAT_MARKET_ENTRY_A_MARKET_SIZE@,
                Seq::<ToolV>::empty(),
                Some("opc-ceo-ceo-business-strategist"@),
                "a-market-size_result"@,
                Seq::<(Seq<char>, Seq<char>)>::empty(),
                250,
                150,
            ),
            domain_agent_view(
                "a-market-strategy"@,
                "策略制定"@,
                PROMPT_STRAT_MARKET_ENTRY_A_MARKET_STRATEGY@,
                Seq::<ToolV>::empty(),
                Some("opc-ceo-ceo-business-strategist"@),
                "a-market-strategy_result"@,
                Seq::<(Seq<char>, Seq<char>)>::empty(),
                250,
                350,
            ),
            domain_agent_view(
                "a-market-plan"@,
                "行动计划"@,
                PROMPT_STRAT_MARKET_ENTRY_A_MARKET_PLAN@,
                Seq::<ToolV>::empty(),
                Some("opc-ceo-ceo-business-strategist"@),
                "a-market-plan_result"@,
                Seq::<(Seq<char>, Seq<char>)>::empty(),
                250,
                550,
            ),
            end_view(250, 750),
        ],
        seq![
            direct_edge("e-trigger-a-market-size"@, "trigger"@, "a-market-size"@),
            direct_edge("e-a-market-size-a-market-strategy"@, "a-market-size"@, "a-market-strategy"@),
            direct_edge("e-a-market-strategy-a-market-plan"@, "a-market-strategy"@, "a-market-plan"@),
            direct_edge("e-a-market-plan-end"@, "a-market-plan"@, "end"@),
        ],
        now,
    )
}

fn strat_market_entry(now: i64) -> (t: WorkflowTemplate)
    ensures
        t.view() == strat_market_entry_view(now),
{
    let n0 = make_trigger(250, 0);
    let t1: Vec<ToolDef> = vec![];
    assert(tools_view(t1@) =~= Seq::<ToolV>::empty());
    let n1 = make_agent_node(
        "a-market-size",
        "市场分析",
        PROMPT_STRAT_MARKET_ENTRY_A_MARKET_SIZE,
        t1,
        Some("opc-ceo-ceo-business-strategist"),
        "a-market-size_result",
        250,
        150,
    );
    let t2: Vec<ToolDef> = vec![];
    assert(tools_view(t2@) =~= Seq::<ToolV>::empty());
    let n2 = make_agent_node(
        "a-market-strategy",
        "策略制定",
        PROMPT_STRAT_MARKET_ENTRY_A_MARKET_STRATEGY,
        t2,
        Some("opc-ceo-ceo-business-strategist"),
        "a-market-strategy_result",
        250,
        350,
    );
    let t3: Vec<ToolDef> = vec![];
    assert(tools_view(t3@) =~= Seq::<ToolV>::empty());
    let n3 = make_agent_node(
        "a-market-plan",
        "行动计划",
        PROMPT_STRAT_MARKET_ENTRY_A_MARKET_PLAN,
        t3,
        Some("opc-ceo-ceo-business-strategist"),
        "a-market-plan_result",
        250,
        550,
    );
    let n4 = make_end(250, 750);
    let nodes = vec![n0, n1, n2, n3, n4];
    assert(nodes_view(nodes@) =~= seq![
        trigger_view(250, 0),
        domain_agent_view(
            "a-market-size"@,
            "市场分析"@,
            PROMPT_STRAT_MARKET_ENTRY_A_MARKET_SIZE@,
            Seq::<ToolV>::empty(),
            Some("opc-ceo-ceo-business-strategist"@),
            "a-market-size_result"@,
            Seq::<(Seq<char>, Seq<char>)>::empty(),
            250,
            150,
        ),
        domain_agent_view(
            "a-market-strategy"@,
            "策略制定"@,
            PROMPT_STRAT_MARKET_ENTRY_A_MARKET_STRATEGY@,
            Seq::<ToolV>::empty(),
            Some("opc-ceo-ceo-business-strategist"@),
            "a-market-strategy_result"@,
            Seq::<(Seq<char>, Seq<char>)>::empty(),
            250,
            350,
        ),
        domain_agent_view(
            "a-market-plan"@,
            "行动计划"@,
            PROMPT_STRAT_MARKET_ENTRY_A_MARKET_PLAN@,
            Seq::<ToolV>::empty(),
            Some("opc-ceo-ceo-business-strategist"@),
            "a-market-plan_result"@,
            Seq::<(Seq<char>, Seq<char>)>::empty(),
            250,
            550,
        ),
        end_view(250, 750),
    ]);
    let edges = vec![
        edge("e-trigger-a-market-size", "trigger", "a-market-size"),
        edge("e-a-market-size-a-market-strategy", "a-market-size", "a-market-strategy"),
        edge("e-a-market-strategy-a-market-plan", "a-market-strategy", "a-market-plan"),
        edge("e-a-market-plan-end", "a-market-plan", "end"),
    ];
    assert(edges_view(edges@) =~= seq![
        direct_edge("e-trigger-a-market-size"@, "trigger"@, "a-market-size"@),
        direct_edge("e-a-market-size-a-market-strategy"@, "a-market-size"@, "a-market-strategy"@),
        direct_edge("e-a-market-strategy-a-market-plan"@, "a-market-strategy"@, "a-market-plan"@),
        direct_edge("e-a-market-plan-end"@, "a-market-plan"@, "end"@),
    ]);
    let tags: Vec<String> = vec![string_of("opc"), string_of("strategy")];
    assert(seq_view(tags@) =~= seq!["opc"@, "strategy"@]);
    build_domain_template_at(
        "wf-strat-market-entry",
        "市场进入策略",
        "制定新市场进入策略和计划",
        "🎯",
        tags,
        "opc-ceo-ceo-business-strategist",
        nodes,
        edges,
        now,
    )
}

/// The hand-built workflows of the strategy domain, stamped `now`, in order.
pub fn strategy_domain_templates(now: i64) -> (ts: Vec<WorkflowTemplate>)
    ensures
        templates_view(ts@) == seq![strat_biz_plan_view(now), strat_market_entry_view(now)],
{
    let ts = vec![strat_biz_plan(now), strat_market_entry(now)];
    assert(templates_view(ts@) =~= seq![strat_biz_plan_view(now), strat_market_entry_view(now)]);
    ts
}

} // verus!
