use vstd::prelude::*;
use crate::domain_seed::{
    build_domain_template_at, direct_edge, domain_agent_view, domain_template_view, end_view, make_agent_node,
    make_agent_node_with_inputs, make_end, make_trigger, name_tool, templates_view, trigger_view,
};
use crate::text::string_of;
use crate::workflow::{
    edge, edges_view, nodes_view, pair_seq_view, seq_view, td, tools_view, TemplateV, ToolDef, ToolV, WorkflowTemplate,
};

verus! {

/// Prompt of node `a-launch-plan` of `wf-prod-launch`.
pub const PROMPT_PROD_LAUNCH_A_LAUNCH_PLAN: &'static str = "制定发布计划和时间线";

/// Prompt of node `a-launch-prep` of `wf-prod-launch`.
pub const PROMPT_PROD_LAUNCH_A_LAUNCH_PREP: &'static str = "准备发布说明、营销材料";

/// Prompt of node `a-launch-exec` of `wf-prod-launch`.
pub const PROMPT_PROD_LAUNCH_A_LAUNCH_EXEC: &'static str = "执行发布并监控指标";

/// `wf-prod-launch` (产品发布) as stamped at `now`.
pub open spec fn prod_launch_view(now: i64) -> TemplateV {
    domain_template_view(
        "wf-prod-launch"@,
        "产品发布"@,
        "新产品/功能发布流程"@,
        "🚀"@,
        seq!["opc"@, "product"@],
        seq![
            trigger_view(250, 0),
            domain_agent_view(
                "a-launch-plan"@,
                "发布计划"@,
                PROMPT_PROD_LAUNCH_A_LAUNCH_PLAN@,
                Seq::<ToolV>::empty(),
                Some("opc-cpo-cpo-product-manager"@),
                "a-launch-plan_result"@,
                Seq::<(Seq<char>, Seq<char>)>::empty(),
                250,
                150,
            ),
            domain_agent_view(
                "a-launch-prep"@,
                "发布准备"@,
                PROMPT_PROD_LAUNCH_A_LAUNCH_PREP@,
                Seq::<ToolV>::empty(),
                Some("opc-cpo-cpo-product-manager"@),
                "a-launch-prep_result"@,
                Seq::<(Seq<char>, Seq<char>)>::empty(),
                250,
                350,
            ),
            domain_agent_view(
                "a-launch-exec"@,
                "执行发布"@,
                PROMPT_PROD_LAUNCH_A_LAUNCH_EXEC@,
                Seq::<ToolV>::empty(),
                Some("opc-cpo-cpo-product-manager"@),
                "a-launch-exec_result"@,
                Seq::<(Seq<char>, Seq<char>)>::empty(),
                250,
                550,
            ),
            end_view(250, 750),
        ],
        seq![
            direct_edge("e-trigger-a-launch-plan"@, "trigger"@, "a-launch-plan"@),
            direct_edge("e-a-launch-plan-a-launch-prep"@, "a-launch-plan"@, "a-launch-prep"@),
            direct_edge("e-a-launch-prep-a-launch-exec"@, "a-launch-prep"@, "a-launch-exec"@),
            direct_edge("e-a-launch-exec-end"@, "a-launch-exec"@, "end"@),
        ],
        now,
    )
}

fn prod_launch(now: i64) -> (t: WorkflowTemplate)
    ensures
        t.view() == prod_launch_view(now),
{
    let n0 = make_trigger(250, 0);
    let t1: Vec<ToolDef> = vec![];
    assert(tools_view(t1@) =~= Seq::<ToolV>::empty());
    let n1 = make_agent_node(
        "a-launch-plan",
        "发布计划",
        PROMPT_PROD_LAUNCH_A_LAUNCH_PLAN,
        t1,
        Some("opc-cpo-cpo-product-manager"),
        "a-launch-plan_result",
        250,
        150,
    );
    let t2: Vec<ToolDef> = vec![];
    assert(tools_view(t2@) =~= Seq::<ToolV>::empty());
    let n2 = make_agent_node(
        "a-launch-prep",
        "发布准备",
        PROMPT_PROD_LAUNCH_A_LAUNCH_PREP,
        t2,
        Some("opc-cpo-cpo-product-manager"),
        "a-launch-prep_result",
        250,
        350,
    );
    let t3: Vec<ToolDef> = vec![];
    assert(tools_view(t3@) =~= Seq::<ToolV>::empty());
    let n3 = make_agent_node(
        "a-launch-exec",
        "执行发布",
        PROMPT_PROD_LAUNCH_A_LAUNCH_EXEC,
        t3,
        Some("opc-cpo-cpo-product-manager"),
        "a-launch-exec_result",
        250,
        550,
    );
    let n4 = make_end(250, 750);
    let nodes = vec![n0, n1, n2, n3, n4];
    assert(nodes_view(nodes@) =~= seq![
        trigger_view(250, 0),
        domain_agent_view(
            "a-launch-plan"@,
            "发布计划"@,
            PROMPT_PROD_LAUNCH_A_LAUNCH_PLAN@,
            Seq::<ToolV>::empty(),
            Some("opc-cpo-cpo-product-manager"@),
            "a-launch-plan_result"@,
            Seq::<(Seq<char>, Seq<char>)>::empty(),
            250,
            150,
        ),
        domain_agent_view(
            "a-launch-prep"@,
            "发布准备"@,
            PROMPT_PROD_LAUNCH_A_LAUNCH_PREP@,
            Seq::<ToolV>::empty(),
            Some("opc-cpo-cpo-product-manager"@),
            "a-launch-prep_result"@,
            Seq::<(Seq<char>, Seq<char>)>::empty(),
            250,
            350,
        ),
        domain_agent_view(
            "a-launch-exec"@,
            "执行发布"@,
            PROMPT_PROD_LAUNCH_A_LAUNCH_EXEC@,
            Seq::<ToolV>::empty(),
            Some("opc-cpo-cpo-product-manager"@),
            "a-launch-exec_result"@,
            Seq::<(Seq<char>, Seq<char>)>::empty(),
            250,
            550,
        ),
        end_view(250, 750),
    ]);
    let edges = vec![
        edge("e-trigger-a-launch-plan", "trigger", "a-launch-plan"),
        edge("e-a-launch-plan-a-launch-prep", "a-launch-plan", "a-launch-prep"),
        edge("e-a-launch-prep-a-launch-exec", "a-launch-prep", "a-launch-exec"),
        edge("e-a-launch-exec-end", "a-launch-exec", "end"),
    ];
    assert(edges_view(edges@) =~= seq![
        direct_edge("e-trigger-a-launch-plan"@, "trigger"@, "a-launch-plan"@),
        direct_edge("e-a-launch-plan-a-launch-prep"@, "a-launch-plan"@, "a-launch-prep"@),
        direct_edge("e-a-launch-prep-a-launch-exec"@, "a-launch-prep"@, "a-launch-exec"@),
        direct_edge("e-a-launch-exec-end"@, "a-launch-exec"@, "end"@),
    ]);
    let tags: Vec<String> = vec![string_of("opc"), string_of("product")];
    assert(seq_view(tags@) =~= seq!["opc"@, "product"@]);
    build_domain_template_at(
        "wf-prod-launch",
        "产品发布",
        "新产品/功能发布流程",
        "🚀",
        tags,
        "opc-cpo-cpo-product-manager",
        nodes,
        edges,
        now,
    )
}

/// Prompt of node `a-road-collect` of `wf-prod-roadmap`.
pub const PROMPT_PROD_ROADMAP_A_ROAD_COLLECT: &'static str = "收集用户反馈、数据分析、市场趋势";

/// Prompt of node `a-road-prioritize` of `wf-prod-roadmap`.
pub const PROMPT_PROD_ROADMAP_A_ROAD_PRIORITIZE: &'static str = "按影响和资源排序功能";

/// Prompt of node `a-road-publish` of `wf-prod-roadmap`.
pub const PROMPT_PROD_ROADMAP_A_ROAD_PUBLISH: &'static str = "输出产品路线图并同步团队";

/// `wf-prod-roadmap` (产品路线图) as stamped at `now`.
pub open spec fn prod_roadmap_view(now: i64) -> TemplateV {
    domain_template_view(
        "wf-prod-roadmap"@,
        "产品路线图"@,
        "制定季度产品路线图"@,
        "🗺️"@,
        seq!["opc"@, "product"@],
        seq![
            trigger_view(250, 0),
            domain_agent_view(
                "a-road-collect"@,
                "需求收集"@,
                PROMPT_PROD_ROADMAP_A_ROAD_COLLECT@,
                Seq::<ToolV>::empty(),
                Some("opc-cpo-cpo-product-manager"@),
                "a-road-collect_result"@,
                Seq::<(Seq<char>, Seq<char>)>::empty(),
                250,
                150,
            ),
            domain_agent_view(
                "a-road-prioritize"@,
                "优先级排序"@,
                PROMPT_PROD_ROADMAP_A_ROAD_PRIORITIZE@,
                Seq::<ToolV>::empty(),
                Some("opc-cpo-cpo-product-manager"@),
                "a-road-prioritize_result"@,
                Seq::<(Seq<char>, Seq<char>)>::empty(),
                250,
                350,
            ),
            domain_agent_view(
                "a-road-publish"@,
                "发布"@,
                PROMPT_PROD_ROADMAP_A_ROAD_PUBLISH@,
                Seq::<ToolV>::empty(),
                Some("opc-cpo-cpo-product-manager"@),
                "a-road-publish_result"@,
                Seq::<(Seq<char>, Seq<char>)>::empty(),
                250,
                550,
            ),
            end_view(250, 750),
        ],
        seq![
            direct_edge("e-trigger-a-road-collect"@, "trigger"@, "a-road-collect"@),
            direct_edge("e-a-road-collect-a-road-prioritize"@, "a-road-collect"@, "a-road-prioritize"@),
            direct_edge("e-a-road-prioritize-a-road-publish"@, "a-road-prioritize"@, "a-road-publish"@),
            direct_edge("e-a-road-publish-end"@, "a-road-publish"@, "end"@),
        ],
        now,
    )
}

fn prod_roadmap(now: i64) -> (t: WorkflowTemplate)
    ensures
        t.view() == prod_roadmap_view(now),
{
    let n0 = make_trigger(250, 0);
    let t1: Vec<ToolDef> = vec![];
    assert(tools_view(t1@) =~= Seq::<ToolV>::empty());
    let n1 = make_agent_node(
        "a-road-collect",
        "需求收集",
        PROMPT_PROD_ROADMAP_A_ROAD_COLLECT,
        t1,
        Some("opc-cpo-cpo-product-manager"),
        "a-road-collect_result",
        250,
        150,
    );
    let t2: Vec<ToolDef> = vec![];
    assert(tools_view(t2@) =~= Seq::<ToolV>::empty());
    let n2 = make_agent_node(
        "a-road-prioritize",
        "优先级排序",
        PROMPT_PROD_ROADMAP_A_ROAD_PRIORITIZE,
        t2,
        Some("opc-cpo-cpo-product-manager"),
        "a-road-prioritize_result",
        250,
        350,
    );
    let t3: Vec<ToolDef> = vec![];
    assert(tools_view(t3@) =~= Seq::<ToolV>::empty());
    let n3 = make_agent_node(
        "a-road-publish",
        "发布",
        PROMPT_PROD_ROADMAP_A_ROAD_PUBLISH,
        t3,
        Some("opc-cpo-cpo-product-manager"),
        "a-road-publish_result",
        250,
        550,
    );
    let n4 = make_end(250, 750);
    let nodes = vec![n0, n1, n2, n3, n4];
    assert(nodes_view(nodes@) =~= seq![
        trigger_view(250, 0),
        domain_agent_view(
            "a-road-collect"@,
            "需求收集"@,
            PROMPT_PROD_ROADMAP_A_ROAD_COLLECT@,
            Seq::<ToolV>::empty(),
            Some("opc-cpo-cpo-product-manager"@),
            "a-road-collect_result"@,
            Seq::<(Seq<char>, Seq<char>)>::empty(),
            250,
            150,
        ),
        domain_agent_view(
            "a-road-prioritize"@,
            "优先级排序"@,
            PROMPT_PROD_ROADMAP_A_ROAD_PRIORITIZE@,
            Seq::<ToolV>::empty(),
            Some("opc-cpo-cpo-product-manager"@),
            "a-road-prioritize_result"@,
            Seq::<(Seq<char>, Seq<char>)>::empty(),
            250,
            350,
        ),
        domain_agent_view(
            "a-road-publish"@,
            "发布"@,
            PROMPT_PROD_ROADMAP_A_ROAD_PUBLISH@,
            Seq::<ToolV>::empty(),
            Some("opc-cpo-cpo-product-manager"@),
            "a-road-publish_result"@,
            Seq::<(Seq<char>, Seq<char>)>::empty(),
            250,
            550,
        ),
        end_view(250, 750),
    ]);
    let edges = vec![
        edge("e-trigger-a-road-collect", "trigger", "a-road-collect"),
        edge("e-a-road-collect-a-road-prioritize", "a-road-collect", "a-road-prioritize"),
        edge("e-a-road-prioritize-a-road-publish", "a-road-prioritize", "a-road-publish"),
        edge("e-a-road-publish-end", "a-road-publish", "end"),
    ];
    assert(edges_view(edges@) =~= seq![
        direct_edge("e-trigger-a-road-collect"@, "trigger"@, "a-road-collect"@),
        direct_edge("e-a-road-collect-a-road-prioritize"@, "a-road-collect"@, "a-road-prioritize"@),
        direct_edge("e-a-road-prioritize-a-road-publish"@, "a-road-prioritize"@, "a-road-publish"@),
        direct_edge("e-a-road-publish-end"@, "a-road-publish"@, "end"@),
    ]);
    let tags: Vec<String> = vec![string_of("opc"), string_of("product")];
    assert(seq_view(tags@) =~= seq!["opc"@, "product"@]);
    build_domain_template_at(
        "wf-prod-roadmap",
        "产品路线图",
        "制定季度产品路线图",
        "🗺️",
        tags,
        "opc-cpo-cpo-product-manager",
        nodes,
        edges,
        now,
    )
}

/// Prompt of node `a-spec-req` of `wf-prod-spec`.
pub const PROMPT_PROD_SPEC_A_SPEC_REQ: &'static str = "分析用户故事和功能需求";

/// Prompt of node `a-spec-write` of `wf-prod-spec`.
pub const PROMPT_PROD_SPEC_A_SPEC_WRITE: &'static str = "编写功能规格和验收标准";

/// Prompt of node `a-spec-review` of `wf-prod-spec`.
pub const PROMPT_PROD_SPEC_A_SPEC_REVIEW: &'static str = "与技术团队评审可行性";

/// `wf-prod-spec` (产品规格书) as stamped at `now`.
pub open spec fn prod_spec_view(now: i64) -> TemplateV {
    domain_template_view(
        "wf-prod-spec"@,
        "产品规格书"@,
        "编写功能规格和验收标准"@,
        "📄"@,
        seq!["opc"@, "product"@],
        seq![
            trigger_view(250, 0),
            domain_agent_view(
                "a-spec-req"@,
                "需求分析"@,
                PROMPT_PROD_SPEC_A_SPEC_REQ@,
                Seq::<ToolV>::empty(),
                Some("opc-cpo-cpo-product-manager"@),
                "a-spec-req_result"@,
                Seq::<(Seq<char>, Seq<char>)>::empty(),
                250,
                150,
            ),
            domain_agent_view(
                "a-spec-write"@,
                "编写"@,
                PROMPT_PROD_SPEC_A_SPEC_WRITE@,
                Seq::<ToolV>::empty(),
                Some("opc-cpo-cpo-product-manager"@),
                "a-spec-write_result"@,
                Seq::<(Seq<char>, Seq<char>)>::empty(),
                250,
                350,
            ),
            domain_agent_view(
                "a-spec-review"@,
                "评审"@,
                PROMPT_PROD_SPEC_A_SPEC_REVIEW@,
                Seq::<ToolV>::empty(),
                Some("opc-cpo-cpo-product-manager"@),
                "a-spec-review_result"@,
                Seq::<(Seq<char>, Seq<char>)>::empty(),
                250,
                550,
            ),
            end_view(250, 750),
        ],
        seq![
            direct_edge("e-trigger-a-spec-req"@, "trigger"@, "a-spec-req"@),
            direct_edge("e-a-spec-req-a-spec-write"@, "a-spec-req"@, "a-spec-write"@),
            direct_edge("e-a-spec-write-a-spec-review"@, "a-spec-write"@, "a-spec-review"@),
            direct_edge("e-a-spec-review-end"@, "a-spec-review"@, "end"@),
        ],
        now,
    )
}

fn prod_spec(now: i64) -> (t: WorkflowTemplate)
    ensures
        t.view() == prod_spec_view(now),
{
    let n0 = make_trigger(250, 0);
    let t1: Vec<ToolDef> = vec![];
    assert(tools_view(t1@) =~= Seq::<ToolV>::empty());
    let n1 = make_agent_node(
        "a-spec-req",
        "需求分析",
        PROMPT_PROD_SPEC_A_SPEC_REQ,
        t1,
        Some("opc-cpo-cpo-product-manager"),
        "a-spec-req_result",
        250,
        150,
    );
    let t2: Vec<ToolDef> = vec![];
    assert(tools_view(t2@) =~= Seq::<ToolV>::empty());
    let n2 = make_agent_node(
        "a-spec-write",
        "编写",
        PROMPT_PROD_SPEC_A_SPEC_WRITE,
        t2,
        Some("opc-cpo-cpo-product-manager"),
        "a-spec-write_result",
        250,
        350,
    );
    let t3: Vec<ToolDef> = vec![];
    assert(tools_view(t3@) =~= Seq::<ToolV>::empty());
    let n3 = make_agent_node(
        "a-spec-review",
        "评审",
        PROMPT_PROD_SPEC_A_SPEC_REVIEW,
        t3,
        Some("opc-cpo-cpo-product-manager"),
        "a-spec-review_result",
        250,
        550,
    );
    let n4 = make_end(250, 750);
    let nodes = vec![n0, n1, n2, n3, n4];
    assert(nodes_view(nodes@) =~= seq![
        trigger_view(250, 0),
        domain_agent_view(
            "a-spec-req"@,
            "需求分析"@,
            PROMPT_PROD_SPEC_A_SPEC_REQ@,
            Seq::<ToolV>::empty(),
            Some("opc-cpo-cpo-product-manager"@),
            "a-spec-req_result"@,
            Seq::<(Seq<char>, Seq<char>)>::empty(),
            250,
            150,
        ),
        domain_agent_view(
            "a-spec-write"@,
            "编写"@,
            PROMPT_PROD_SPEC_A_SPEC_WRITE@,
            Seq::<ToolV>::empty(),
            Some("opc-cpo-cpo-product-manager"@),
            "a-spec-write_result"@,
            Seq::<(Seq<char>, Seq<char>)>::empty(),
            250,
            350,
        ),
        domain_agent_view(
            "a-spec-review"@,
            "评审"@,
            PROMPT_PROD_SPEC_A_SPEC_REVIEW@,
            Seq::<ToolV>::empty(),
            Some("opc-cpo-cpo-product-manager"@),
            "a-spec-review_result"@,
            Seq::<(Seq<char>, Seq<char>)>::empty(),
            250,
            550,
        ),
        end_view(250, 750),
    ]);
    let edges = vec![
        edge("e-trigger-a-spec-req", "trigger", "a-spec-req"),
        edge("e-a-spec-req-a-spec-write", "a-spec-req", "a-spec-write"),
        edge("e-a-spec-write-a-spec-review", "a-spec-write", "a-spec-review"),
        edge("e-a-spec-review-end", "a-spec-review", "end"),
    ];
    assert(edges_view(edges@) =~= seq![
        direct_edge("e-trigger-a-spec-req"@, "trigger"@, "a-spec-req"@),
        direct_edge("e-a-spec-req-a-spec-write"@, "a-spec-req"@, "a-spec-write"@),
        direct_edge("e-a-spec-write-a-spec-review"@, "a-spec-write"@, "a-spec-review"@),
        direct_edge("e-a-spec-review-end"@, "a-spec-review"@, "end"@),
    ]);
    let tags: Vec<String> = vec![string_of("opc"), string_of("product")];
    assert(seq_view(tags@) =~= seq!["opc"@, "product"@]);
    build_domain_template_at(
        "wf-prod-spec",
        "产品规格书",
        "编写功能规格和验收标准",
        "📄",
        tags,
        "opc-cpo-cpo-product-manager",
        nodes,
        edges,
        now,
    )
}

/// The hand-built workflows of the product domain, stamped `now`, in order.
pub fn product_domain_templates(now: i64) -> (ts: Vec<WorkflowTemplate>)
    ensures
        templates_view(ts@) == seq![prod_launch_view(now), prod_roadmap_view(now), prod_spec_view(now)],
{
    let ts = vec![prod_launch(now), prod_roadmap(now), prod_spec(now)];
    assert(templates_view(ts@) =~= seq![prod_launch_view(now), prod_roadmap_view(now), prod_spec_view(now)]);
    ts
}

} // verus!
