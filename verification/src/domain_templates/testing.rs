use vstd::prelude::*;
use crate::domain_seed::{
    build_domain_template_at, direct_edge, domain_agent_view, domain_template_view, end_view, make_agent_node,
    make_agent_node_with_inputs, make_end, make_trigger, name_tool, templates_view, trigger_view,
};
use crate::text::string_of;
use crate::workflow::{
    edge, edges_view, nodes_view, pair_seq_view, seq_view, td, tools_view, TemplateV, ToolDef, ToolV, WorkflowTemplate,
};

verus! {

/// Prompt of node `a-tauto-pick` of `wf-tst-automation`.
pub const PROMPT_TST_AUTOMATION_A_TAUTO_PICK: &'static str = "选择自动化框架和工具";

/// Prompt of node `a-tauto-write` of `wf-tst-automation`.
pub const PROMPT_TST_AUTOMATION_A_TAUTO_WRITE: &'static str = "编写测试脚本并集成本地CI";

/// Prompt of node `a-tauto-run` of `wf-tst-automation`.
pub const PROMPT_TST_AUTOMATION_A_TAUTO_RUN: &'static str = "运行测试并分析结果";

/// `wf-tst-automation` (自动化测试) as stamped at `now`.
pub open spec fn tst_automation_view(now: i64) -> TemplateV {
    domain_template_view(
        "wf-tst-automation"@,
        "自动化测试"@,
        "编写和维护自动化测试脚本"@,
        "🤖"@,
        seq!["opc"@, "testing"@],
        seq![
            trigger_view(250, 0),
            domain_agent_view(
                "a-tauto-pick"@,
                "选型"@,
                PROMPT_TST_AUTOMATION_A_TAUTO_PICK@,
                Seq::<ToolV>::empty(),
                Some("opc-cto-cto-ai-engineer"@),
                "a-tauto-pick_result"@,
                Seq::<(Seq<char>, Seq<char>)>::empty(),
                250,
                150,
            ),
            domain_agent_view(
                "a-tauto-write"@,
                "编写"@,
                PROMPT_TST_AUTOMATION_A_TAUTO_WRITE@,
                Seq::<ToolV>::empty(),
                Some("opc-cto-cto-ai-engineer"@),
                "a-tauto-write_result"@,
                Seq::<(Seq<char>, Seq<char>)>::empty(),
                250,
                350,
            ),
            domain_agent_view(
                "a-tauto-run"@,
                "运行"@,
                PROMPT_TST_AUTOMATION_A_TAUTO_RUN@,
                Seq::<ToolV>::empty(),
                Some("opc-cto-cto-ai-engineer"@),
                "a-tauto-run_result"@,
                Seq::<(Seq<char>, Seq<char>)>::empty(),
                250,
                550,
            ),
            end_view(250, 750),
        ],
        seq![
            direct_edge("e-trigger-a-tauto-pick"@, "trigger"@, "a-tauto-pick"@),
            direct_edge("e-a-tauto-pick-a-tauto-write"@, "a-tauto-pick"@, "a-tauto-write"@),
            direct_edge("e-a-tauto-write-a-tauto-run"@, "a-tauto-write"@, "a-tauto-run"@),
            direct_edge("e-a-tauto-run-end"@, "a-tauto-run"@, "end"@),
        ],
        now,
    )
}

fn tst_automation(now: i64) -> (t: WorkflowTemplate)
    ensures
        t.view() == tst_automation_view(now),
{
    let n0 = make_trigger(250, 0);
    let t1: Vec<ToolDef> = vec![];
    assert(tools_view(t1@) =~= Seq::<ToolV>::empty());
    let n1 = make_agent_node(
        "a-tauto-pick",
        "选型",
        PROMPT_TST_AUTOMATION_A_TAUTO_PICK,
        t1,
        Some("opc-cto-cto-ai-engineer"),
        "a-tauto-pick_result",
        250,
        150,
    );
    let t2: Vec<ToolDef> = vec![];
    assert(tools_view(t2@) =~= Seq::<ToolV>::empty());
    let n2 = make_agent_node(
        "a-tauto-write",
        "编写",
        PROMPT_TST_AUTOMATION_A_TAUTO_WRITE,
        t2,
        Some("opc-cto-cto-ai-engineer"),
        "a-tauto-write_result",
        250,
        350,
    );
    let t3: Vec<ToolDef> = vec![];
    assert(tools_view(t3@) =~= Seq::<ToolV>::empty());
    let n3 = make_agent_node(
        "a-tauto-run",
        "运行",
        PROMPT_TST_AUTOMATION_A_TAUTO_RUN,
        t3,
        Some("opc-cto-cto-ai-engineer"),
        "a-tauto-run_result",
        250,
        550,
    );
    let n4 = make_end(250, 750);
    let nodes = vec![n0, n1, n2, n3, n4];
    assert(nodes_view(nodes@) =~= seq![
        trigger_view(250, 0),
        domain_agent_view(
            "a-tauto-pick"@,
            "选型"@,
            PROMPT_TST_AUTOMATION_A_TAUTO_PICK@,
            Seq::<ToolV>::empty(),
            Some("opc-cto-cto-ai-engineer"@),
            "a-tauto-pick_result"@,
            Seq::<(Seq<char>, Seq<char>)>::empty(),
            250,
            150,
        ),
        domain_agent_view(
            "a-tauto-write"@,
            "编写"@,
            PROMPT_TST_AUTOMATION_A_TAUTO_WRITE@,
            Seq::<ToolV>::empty(),
            Some("opc-cto-cto-ai-engineer"@),
            "a-tauto-write_result"@,
            Seq::<(Seq<char>, Seq<char>)>::empty(),
            250,
            350,
        ),
        domain_agent_view(
            "a-tauto-run"@,
            "运行"@,
            PROMPT_TST_AUTOMATION_A_TAUTO_RUN@,
            Seq::<ToolV>::empty(),
            Some("opc-cto-cto-ai-engineer"@),
            "a-tauto-run_result"@,
            Seq::<(Seq<char>, Seq<char>)>::empty(),
            250,
            550,
        ),
        end_view(250, 750),
    ]);
    let edges = vec![
        edge("e-trigger-a-tauto-pick", "trigger", "a-tauto-pick"),
        edge("e-a-tauto-pick-a-tauto-write", "a-tauto-pick", "a-tauto-write"),
        edge("e-a-tauto-write-a-tauto-run", "a-tauto-write", "a-tauto-run"),
        edge("e-a-tauto-run-end", "a-tauto-run", "end"),
    ];
    assert(edges_view(edges@) =~= seq![
        direct_edge("e-trigger-a-tauto-pick"@, "trigger"@, "a-tauto-pick"@),
        direct_edge("e-a-tauto-pick-a-tauto-write"@, "a-tauto-pick"@, "a-tauto-write"@),
        direct_edge("e-a-tauto-write-a-tauto-run"@, "a-tauto-write"@, "a-tauto-run"@),
        direct_edge("e-a-tauto-run-end"@, "a-tauto-run"@, "end"@),
    ]);
    let tags: Vec<String> = vec![string_of("opc"), string_of("testing")];
    assert(seq_view(tags@) =~= seq!["opc"@, "testing"@]);
    build_domain_template_at(
        "wf-tst-automation",
        "自动化测试",
        "编写和维护自动化测试脚本",
        "🤖",
        tags,
        "opc-cto-cto-ai-engineer",
        nodes,
        edges,
        now,
    )
}

/// Prompt of node `a-tperf-script` of `wf-tst-perf`.
pub const PROMPT_TST_PERF_A_TPERF_SCRIPT: &'static str = "编写性能测试脚本和场景";

/// Prompt of node `a-tperf-run` of `wf-tst-perf`.
pub const PROMPT_TST_PERF_A_TPERF_RUN: &'static str = "执行负载测试并监控";

/// Prompt of node `a-tperf-report` of `wf-tst-perf`.
pub const PROMPT_TST_PERF_A_TPERF_REPORT: &'static str = "输出性能报告和优化建议";

/// `wf-tst-perf` (性能测试) as stamped at `now`.
pub open spec fn tst_perf_view(now: i64) -> TemplateV {
    domain_template_view(
        "wf-tst-perf"@,
        "性能测试"@,
        "负载测试和性能基准"@,
        "⚡"@,
        seq!["opc"@, "testing"@],
        seq![
            trigger_view(250, 0),
            domain_agent_view(
                "a-tperf-script"@,
                "测试脚本"@,
                PROMPT_TST_PERF_A_TPERF_SCRIPT@,
                Seq::<ToolV>::empty(),
                Some("opc-cto-cto-ai-engineer"@),
                "a-tperf-script_result"@,
                Seq::<(Seq<char>, Seq<char>)>::empty(),
                250,
                150,
            ),
            domain_agent_view(
                "a-tperf-run"@,
                "执行"@,
                PROMPT_TST_PERF_A_TPERF_RUN@,
                Seq::<ToolV>::empty(),
                Some("opc-cto-cto-ai-engineer"@),
                "a-tperf-run_result"@,
                Seq::<(Seq<char>, Seq<char>)>::empty(),
                250,
                350,
            ),
            domain_agent_view(
                "a-tperf-report"@,
                "报告"@,
                PROMPT_TST_PERF_A_TPERF_REPORT@,
                Seq::<ToolV>::empty(),
                Some("opc-cto-cto-ai-engineer"@),
                "a-tperf-report_result"@,
                Seq::<(Seq<char>, Seq<char>)>::empty(),
                250,
                550,
            ),
            end_view(250, 750),
        ],
        seq![
            direct_edge("e-trigger-a-tperf-script"@, "trigger"@, "a-tperf-script"@),
            direct_edge("e-a-tperf-script-a-tperf-run"@, "a-tperf-script"@, "a-tperf-run"@),
            direct_edge("e-a-tperf-run-a-tperf-report"@, "a-tperf-run"@, "a-tperf-report"@),
            direct_edge("e-a-tperf-report-end"@, "a-tperf-report"@, "end"@),
        ],
        now,
    )
}

fn tst_perf(now: i64) -> (t: WorkflowTemplate)
    ensures
        t.view() == tst_perf_view(now),
{
    let n0 = make_trigger(250, 0);
    let t1: Vec<ToolDef> = vec![];
    assert(tools_view(t1@) =~= Seq::<ToolV>::empty());
    let n1 = make_agent_node(
        "a-tperf-script",
        "测试脚本",
        PROMPT_TST_PERF_A_TPERF_SCRIPT,
        t1,
        Some("opc-cto-cto-ai-engineer"),
        "a-tperf-script_result",
        250,
        150,
    );
    let t2: Vec<ToolDef> = vec![];
    assert(tools_view(t2@) =~= Seq::<ToolV>::empty());
    let n2 = make_agent_node(
        "a-tperf-run",
        "执行",
        PROMPT_TST_PERF_A_TPERF_RUN,
        t2,
        Some("opc-cto-cto-ai-engineer"),
        "a-tperf-run_result",
        250,
        350,
    );
    let t3: Vec<ToolDef> = vec![];
    assert(tools_view(t3@) =~= Seq::<ToolV>::empty());
    let n3 = make_agent_node(
        "a-tperf-report",
        "报告",
        PROMPT_TST_PERF_A_TPERF_REPORT,
        t3,
        Some("opc-cto-cto-ai-engineer"),
        "a-tperf-report_result",
        250,
        550,
    );
    let n4 = make_end(250, 750);
    let nodes = vec![n0, n1, n2, n3, n4];
    assert(nodes_view(nodes@) =~= seq![
        trigger_view(250, 0),
        domain_agent_view(
            "a-tperf-script"@,
            "测试脚本"@,
            PROMPT_TST_PERF_A_TPERF_SCRIPT@,
            Seq::<ToolV>::empty(),
            Some("opc-cto-cto-ai-engineer"@),
            "a-tperf-script_result"@,
            Seq::<(Seq<char>, Seq<char>)>::empty(),
            250,
            150,
        ),
        domain_agent_view(
            "a-tperf-run"@,
            "执行"@,
            PROMPT_TST_PERF_A_TPERF_RUN@,
            Seq::<ToolV>::empty(),
            Some("opc-cto-cto-ai-engineer"@),
            "a-tperf-run_result"@,
            Seq::<(Seq<char>, Seq<char>)>::empty(),
            250,
            350,
        ),
        domain_agent_view(
            "a-tperf-report"@,
            "报告"@,
            PROMPT_TST_PERF_A_TPERF_REPORT@,
            Seq::<ToolV>::empty(),
            Some("opc-cto-cto-ai-engineer"@),
            "a-tperf-report_result"@,
            Seq::<(Seq<char>, Seq<char>)>::empty(),
            250,
            550,
        ),
        end_view(250, 750),
    ]);
    let edges = vec![
        edge("e-trigger-a-tperf-script", "trigger", "a-tperf-script"),
        edge("e-a-tperf-script-a-tperf-run", "a-tperf-script", "a-tperf-run"),
        edge("e-a-tperf-run-a-tperf-report", "a-tperf-run", "a-tperf-report"),
        edge("e-a-tperf-report-end", "a-tperf-report", "end"),
    ];
    assert(edges_view(edges@) =~= seq![
        direct_edge("e-trigger-a-tperf-script"@, "trigger"@, "a-tperf-script"@),
        direct_edge("e-a-tperf-script-a-tperf-run"@, "a-tperf-script"@, "a-tperf-run"@),
        direct_edge("e-a-tperf-run-a-tperf-report"@, "a-tperf-run"@, "a-tperf-report"@),
        direct_edge("e-a-tperf-report-end"@, "a-tperf-report"@, "end"@),
    ]);
    let tags: Vec<String> = vec![string_of("opc"), string_of("testing")];
    assert(seq_view(tags@) =~= seq!["opc"@, "testing"@]);
    build_domain_template_at(
        "wf-tst-perf",
        "性能测试",
        "负载测试和性能基准",
        "⚡",
        tags,
        "opc-cto-cto-ai-engineer",
        nodes,
        edges,
        now,
    )
}

/// Prompt of node `a-tplan-analyze` of `wf-tst-plan`.
pub const PROMPT_TST_PLAN_A_TPLAN_ANALYZE: &'static str = "分析功能需求和技术规格";

/// Prompt of node `a-tplan-design` of `wf-tst-plan`.
pub const PROMPT_TST_PLAN_A_TPLAN_DESIGN: &'static str = "设计测试用例和测试场景";

/// Prompt of node `a-tplan-review` of `wf-tst-plan`.
pub const PROMPT_TST_PLAN_A_TPLAN_REVIEW: &'static str = "评审测试覆盖率和优先级";

/// `wf-tst-plan` (测试计划) as stamped at `now`.
pub open spec fn tst_plan_view(now: i64) -> TemplateV {
    domain_template_view(
        "wf-tst-plan"@,
        "测试计划"@,
        "制定完整测试策略和计划"@,
        "📋"@,
        seq!["opc"@, "testing"@],
        seq![
            trigger_view(250, 0),
            domain_agent_view(
                "a-tplan-analyze"@,
                "需求分析"@,
                PROMPT_TST_PLAN_A_TPLAN_ANALYZE@,
                Seq::<ToolV>::empty(),
                Some("opc-cto-cto-ai-engineer"@),
                "a-tplan-analyze_result"@,
                Seq::<(Seq<char>, Seq<char>)>::empty(),
                250,
                150,
            ),
            domain_agent_view(
                "a-tplan-design"@,
                "测试设计"@,
                PROMPT_TST_PLAN_A_TPLAN_DESIGN@,
                Seq::<ToolV>::empty(),
                Some("opc-cto-cto-ai-engineer"@),
                "a-tplan-design_result"@,
                Seq::<(Seq<char>, Seq<char>)>::empty(),
                250,
                350,
            ),
            domain_agent_view(
                "a-tplan-review"@,
                "评审"@,
                PROMPT_TST_PLAN_A_TPLAN_REVIEW@,
                Seq::<ToolV>::empty(),
                Some("opc-cto-cto-ai-engineer"@),
                "a-tplan-review_result"@,
                Seq::<(Seq<char>, Seq<char>)>::empty(),
                250,
                550,
            ),
            end_view(250, 750),
        ],
        seq![
            direct_edge("e-trigger-a-tplan-analyze"@, "trigger"@, "a-tplan-analyze"@),
            direct_edge("e-a-tplan-analyze-a-tplan-design"@, "a-tplan-analyze"@, "a-tplan-design"@),
            direct_edge("e-a-tplan-design-a-tplan-review"@, "a-tplan-design"@, "a-tplan-review"@),
            direct_edge("e-a-tplan-review-end"@, "a-tplan-review"@, "end"@),
        ],
        now,
    )
}

fn tst_plan(now: i64) -> (t: WorkflowTemplate)
    ensures
        t.view() == tst_plan_view(now),
{
    let n0 = make_trigger(250, 0);
    let t1: Vec<ToolDef> = vec![];
    assert(tools_view(t1@) =~= Seq::<ToolV>::empty());
    let n1 = make_agent_node(
        "a-tplan-analyze",
        "需求分析",
        PROMPT_TST_PLAN_A_TPLAN_ANALYZE,
        t1,
        Some("opc-cto-cto-ai-engineer"),
        "a-tplan-analyze_result",
        250,
        150,
    );
    let t2: Vec<ToolDef> = vec![];
    assert(tools_view(t2@) =~= Seq::<ToolV>::empty());
    let n2 = make_agent_node(
        "a-tplan-design",
        "测试设计",
        PROMPT_TST_PLAN_A_TPLAN_DESIGN,
        t2,
        Some("opc-cto-cto-ai-engineer"),
        "a-tplan-design_result",
        250,
        350,
    );
    let t3: Vec<ToolDef> = vec![];
    assert(tools_view(t3@) =~= Seq::<ToolV>::empty());
    let n3 = make_agent_node(
        "a-tplan-review",
        "评审",
        PROMPT_TST_PLAN_A_TPLAN_REVIEW,
        t3,
        Some("opc-cto-cto-ai-engineer"),
        "a-tplan-review_result",
        250,
        550,
    );
    let n4 = make_end(250, 750);
    let nodes = vec![n0, n1, n2, n3, n4];
    assert(nodes_view(nodes@) =~= seq![
        trigger_view(250, 0),
        domain_agent_view(
            "a-tplan-analyze"@,
            "需求分析"@,
            PROMPT_TST_PLAN_A_TPLAN_ANALYZE@,
            Seq::<ToolV>::empty(),
            Some("opc-cto-cto-ai-engineer"@),
            "a-tplan-analyze_result"@,
            Seq::<(Seq<char>, Seq<char>)>::empty(),
            250,
            150,
        ),
        domain_agent_view(
            "a-tplan-design"@,
            "测试设计"@,
            PROMPT_TST_PLAN_A_TPLAN_DESIGN@,
            Seq::<ToolV>::empty(),
            Some("opc-cto-cto-ai-engineer"@),
            "a-tplan-design_result"@,
            Seq::<(Seq<char>, Seq<char>)>::empty(),
            250,
            350,
        ),
        domain_agent_view(
            "a-tplan-review"@,
            "评审"@,
            PROMPT_TST_PLAN_A_TPLAN_REVIEW@,
            Seq::<ToolV>::empty(),
            Some("opc-cto-cto-ai-engineer"@),
            "a-tplan-review_result"@,
            Seq::<(Seq<char>, Seq<char>)>::empty(),
            250,
            550,
        ),
        end_view(250, 750),
    ]);
    let edges = vec![
        edge("e-trigger-a-tplan-analyze", "trigger", "a-tplan-analyze"),
        edge("e-a-tplan-analyze-a-tplan-design", "a-tplan-analyze", "a-tplan-design"),
        edge("e-a-tplan-design-a-tplan-review", "a-tplan-design", "a-tplan-review"),
        edge("e-a-tplan-review-end", "a-tplan-review", "end"),
    ];
    assert(edges_view(edges@) =~= seq![
        direct_edge("e-trigger-a-tplan-analyze"@, "trigger"@, "a-tplan-analyze"@),
        direct_edge("e-a-tplan-analyze-a-tplan-design"@, "a-tplan-analyze"@, "a-tplan-design"@),
        direct_edge("e-a-tplan-design-a-tplan-review"@, "a-tplan-design"@, "a-tplan-review"@),
        direct_edge("e-a-tplan-review-end"@, "a-tplan-review"@, "end"@),
    ]);
    let tags: Vec<String> = vec![string_of("opc"), string_of("testing")];
    assert(seq_view(tags@) =~= seq!["opc"@, "testing"@]);
    build_domain_template_at(
        "wf-tst-plan",
        "测试计划",
        "制定完整测试策略和计划",
        "📋",
        tags,
        "opc-cto-cto-ai-engineer",
        nodes,
        edges,
        now,
    )
}

/// The hand-built workflows of the testing domain, stamped `now`, in order.
pub fn testing_domain_templates(now: i64) -> (ts: Vec<WorkflowTemplate>)
    ensures
        templates_view(ts@) == seq![tst_automation_view(now), tst_perf_view(now), tst_plan_view(now)],
{
    let ts = vec![tst_automation(now), tst_perf(now), tst_plan(now)];
    assert(templates_view(ts@) =~= seq![tst_automation_view(now), tst_perf_view(now), tst_plan_view(now)]);
    ts
}

} // verus!
