use vstd::prelude::*;
use crate::domain_seed::{
    build_domain_template_at, direct_edge, domain_agent_view, domain_template_view, end_view, make_agent_node,
    make_agent_node_with_inputs, make_end, make_trigger, name_tool, templates_view, trigger_view,
};
use crate::text::string_of;
use crate::workflow::{
    edge, edges_view, nodes_view, pair_seq_view, seq_view, td, tools_view, TemplateV, ToolDef, ToolV, WorkflowTemplate,
};

verus! {

/// Prompt of node `a-lit-search` of `wf-acd-literature`.
pub const PROMPT_ACD_LITERATURE_A_LIT_SEARCH: &'static str = "搜索目标领域的关键文献";

/// Prompt of node `a-lit-review` of `wf-acd-literature`.
pub const PROMPT_ACD_LITERATURE_A_LIT_REVIEW: &'static str = "阅读文献并提取关键信息";

/// Prompt of node `a-lit-synthesize` of `wf-acd-literature`.
pub const PROMPT_ACD_LITERATURE_A_LIT_SYNTHESIZE: &'static str = "撰写文献综述和发现";

/// `wf-acd-literature` (文献综述) as stamped at `now`.
pub open spec fn acd_literature_view(now: i64) -> TemplateV {
    domain_template_view(
        "wf-acd-literature"@,
        "文献综述"@,
        "系统性地综述学术文献"@,
        "📚"@,
        seq!["opc"@, "academic"@],
        seq![
            trigger_view(250, 0),
            domain_agent_view(
                "a-lit-search"@,
                "文献搜索"@,
                PROMPT_ACD_LITERATURE_A_LIT_SEARCH@,
                Seq::<ToolV>::empty(),
                Some("opc-ceo-ceo-business-strategist"@),
                "a-lit-search_result"@,
                Seq::<(Seq<char>, Seq<char>)>::empty(),
                250,
                150,
            ),
            domain_agent_view(
                "a-lit-review"@,
                "文献阅读"@,
                PROMPT_ACD_LITERATURE_A_LIT_REVIEW@,
                Seq::<ToolV>::empty(),
                Some("opc-ceo-ceo-business-strategist"@),
                "a-lit-review_result"@,
                Seq::<(Seq<char>, Seq<char>)>::empty(),
                250,
                350,
            ),
            domain_agent_view(
                "a-lit-synthesize"@,
                "综述撰写"@,
                PROMPT_ACD_LITERATURE_A_LIT_SYNTHESIZE@,
                Seq::<ToolV>::empty(),
                Some("opc-ceo-ceo-business-strategist"@),
                "a-lit-synthesize_result"@,
                Seq::<(Seq<char>, Seq<char>)>::empty(),
                250,
                550,
            ),
            end_view(250, 750),
        ],
        seq![
            direct_edge("e-trigger-a-lit-search"@, "trigger"@, "a-lit-search"@),
            direct_edge("e-a-lit-search-a-lit-review"@, "a-lit-search"@, "a-lit-review"@),
            direct_edge("e-a-lit-review-a-lit-synthesize"@, "a-lit-review"@, "a-lit-synthesize"@),
            direct_edge("e-a-lit-synthesize-end"@, "a-lit-synthesize"@, "end"@),
        ],
        now,
    )
}

fn acd_literature(now: i64) -> (t: WorkflowTemplate)
    ensures
        t.view() == acd_literature_view(now),
{
    let n0 = make_trigger(250, 0);
    let t1: Vec<ToolDef> = vec![];
    assert(tools_view(t1@) =~= Seq::<ToolV>::empty());
    let n1 = make_agent_node(
        "a-lit-search",
        "文献搜索",
        PROMPT_ACD_LITERATURE_A_LIT_SEARCH,
        t1,
        Some("opc-ceo-ceo-business-strategist"),
        "a-lit-search_result",
        250,
        150,
    );
    let t2: Vec<ToolDef> = vec![];
    assert(tools_view(t2@) =~= Seq::<ToolV>::empty());
    let n2 = make_agent_node(
        "a-lit-review",
        "文献阅读",
        PROMPT_ACD_LITERATURE_A_LIT_REVIEW,
        t2,
        Some("opc-ceo-ceo-business-strategist"),
        "a-lit-review_result",
        250,
        350,
    );
    let t3: Vec<ToolDef> = vec![];
    assert(tools_view(t3@) =~= Seq::<ToolV>::empty());
    let n3 = make_agent_node(
        "a-lit-synthesize",
        "综述撰写",
        PROMPT_ACD_LITERATURE_A_LIT_SYNTHESIZE,
        t3,
        Some("opc-ceo-ceo-business-strategist"),
        "a-lit-synthesize_result",
        250,
        550,
    );
    let n4 = make_end(250, 750);
    let nodes = vec![n0, n1, n2, n3, n4];
    assert(nodes_view(nodes@) =~= seq![
        trigger_view(250, 0),
        domain_agent_view(
            "a-lit-search"@,
            "文献搜索"@,
            PROMPT_ACD_LITERATURE_A_LIT_SEARCH@,
            Seq::<ToolV>::empty(),
            Some("opc-ceo-ceo-business-strategist"@),
            "a-lit-search_result"@,
            Seq::<(Seq<char>, Seq<char>)>::empty(),
            250,
            150,
        ),
        domain_agent_view(
            "a-lit-review"@,
            "文献阅读"@,
            PROMPT_ACD_LITERATURE_A_LIT_REVIEW@,
            Seq::<ToolV>::empty(),
            Some("opc-ceo-ceo-business-strategist"@),
            "a-lit-review_result"@,
            Seq::<(Seq<char>, Seq<char>)>::empty(),
            250,
            350,
        ),
        domain_agent_view(
            "a-lit-synthesize"@,
            "综述撰写"@,
            PROMPT_ACD_LITERATURE_A_LIT_SYNTHESIZE@,
            Seq::<ToolV>::empty(),
            Some("opc-ceo-ceo-business-strategist"@),
            "a-lit-synthesize_result"@,
            Seq::<(Seq<char>, Seq<char>)>::empty(),
            250,
            550,
        ),
        end_view(250, 750),
    ]);
    let edges = vec![
        edge("e-trigger-a-lit-search", "trigger", "a-lit-search"),
        edge("e-a-lit-search-a-lit-review", "a-lit-search", "a-lit-review"),
        edge("e-a-lit-review-a-lit-synthesize", "a-lit-review", "a-lit-synthesize"),
        edge("e-a-lit-synthesize-end", "a-lit-synthesize", "end"),
    ];
    assert(edges_view(edges@) =~= seq![
        direct_edge("e-trigger-a-lit-search"@, "trigger"@, "a-lit-search"@),
        direct_edge("e-a-lit-search-a-lit-review"@, "a-lit-search"@, "a-lit-review"@),
        direct_edge("e-a-lit-review-a-lit-synthesize"@, "a-lit-review"@, "a-lit-synthesize"@),
        direct_edge("e-a-lit-synthesize-end"@, "a-lit-synthesize"@, "end"@),
    ]);
    let tags: Vec<String> = vec![string_of("opc"), string_of("academic")];
    assert(seq_view(tags@) =~= seq!["opc"@, "academic"@]);
    build_domain_template_at(
        "wf-acd-literature",
        "文献综述",
        "系统性地综述学术文献",
        "📚",
        tags,
        "opc-ceo-ceo-business-strategist",
        nodes,
        edges,
        now,
    )
}

/// Prompt of node `a-research-question` of `wf-acd-research`.
pub const PROMPT_ACD_RESEARCH_A_RESEARCH_QUESTION: &'static str = "定义研究问题和假设";

/// Prompt of node `a-research-method` of `wf-acd-research`.
pub const PROMPT_ACD_RESEARCH_A_RESEARCH_METHOD: &'static str = "设计研究方法和数据采集方案";

/// Prompt of node `a-research-plan` of `wf-acd-research`.
pub const PROMPT_ACD_RESEARCH_A_RESEARCH_PLAN: &'static str = "制定时间表和资源计划";

/// `wf-acd-research` (研究方案) as stamped at `now`.
pub open spec fn acd_research_view(now: i64) -> TemplateV {
    domain_template_view(
        "wf-acd-research"@,
        "研究方案"@,
        "设计学术研究方案和方法论"@,
        "🔬"@,
        seq!["opc"@, "academic"@],
        seq![
            trigger_view(250, 0),
            domain_agent_view(
                "a-research-question"@,
                "研究问题"@,
                PROMPT_ACD_RESEARCH_A_RESEARCH_QUESTION@,
                Seq::<ToolV>::empty(),
                Some("opc-ceo-ceo-business-strategist"@),
                "a-research-question_result"@,
                Seq::<(Seq<char>, Seq<char>)>::empty(),
                250,
                150,
            ),
            domain_agent_view(
                "a-research-method"@,
                "方法论"@,
                PROMPT_ACD_RESEARCH_A_RESEARCH_METHOD@,
                Seq::<ToolV>::empty(),
                Some("opc-ceo-ceo-business-strategist"@),
                "a-research-method_result"@,
                Seq::<(Seq<char>, Seq<char>)>::empty(),
                250,
                350,
            ),
            domain_agent_view(
                "a-research-plan"@,
                "研究计划"@,
                PROMPT_ACD_RESEARCH_A_RESEARCH_PLAN@,
                Seq::<ToolV>::empty(),
                Some("opc-ceo-ceo-business-strategist"@),
                "a-research-plan_result"@,
                Seq::<(Seq<char>, Seq<char>)>::empty(),
                250,
                550,
            ),
            end_view(250, 750),
        ],
        seq![
            direct_edge("e-trigger-a-research-question"@, "trigger"@, "a-research-question"@),
            direct_edge("e-a-research-question-a-research-method"@, "a-research-question"@, "a-research-method"@),
            direct_edge("e-a-research-method-a-research-plan"@, "a-research-method"@, "a-research-plan"@),
            direct_edge("e-a-research-plan-end"@, "a-research-plan"@, "end"@),
        ],
        now,
    )
}

fn acd_research(now: i64) -> (t: WorkflowTemplate)
    ensures
        t.view() == acd_research_view(now),
{
    let n0 = make_trigger(250, 0);
    let t1: Vec<ToolDef> = vec![];
    assert(tools_view(t1@) =~= Seq::<ToolV>::empty());
    let n1 = make_agent_node(
        "a-research-question",
        "研究问题",
        PROMPT_ACD_RESEARCH_A_RESEARCH_QUESTION,
        t1,
        Some("opc-ceo-ceo-business-strategist"),
        "a-research-question_result",
        250,
        150,
    );
    let t2: Vec<ToolDef> = vec![];
    assert(tools_view(t2@) =~= Seq::<ToolV>::empty());
    let n2 = make_agent_node(
        "a-research-method",
        "方法论",
        PROMPT_ACD_RESEARCH_A_RESEARCH_METHOD,
        t2,
        Some("opc-ceo-ceo-business-strategist"),
        "a-research-method_result",
        250,
        350,
    );
    let t3: Vec<ToolDef> = vec![];
    assert(tools_view(t3@) =~= Seq::<ToolV>::empty());
    let n3 = make_agent_node(
        "a-research-plan",
        "研究计划",
        PROMPT_ACD_RESEARCH_A_RESEARCH_PLAN,
        t3,
        Some("opc-ceo-ceo-business-strategist"),
        "a-research-plan_result",
        250,
        550,
    );
    let n4 = make_end(250, 750);
    let nodes = vec![n0, n1, n2, n3, n4];
    assert(nodes_view(nodes@) =~= seq![
        trigger_view(250, 0),
        domain_agent_view(
            "a-research-question"@,
            "研究问题"@,
            PROMPT_ACD_RESEARCH_A_RESEARCH_QUESTION@,
            Seq::<ToolV>::empty(),
            Some("opc-ceo-ceo-business-strategist"@),
            "a-research-question_result"@,
            Seq::<(Seq<char>, Seq<char>)>::empty(),
            250,
            150,
        ),
        domain_agent_view(
            "a-research-method"@,
            "方法论"@,
            PROMPT_ACD_RESEARCH_A_RESEARCH_METHOD@,
            Seq::<ToolV>::empty(),
            Some("opc-ceo-ceo-business-strategist"@),
            "a-research-method_result"@,
            Seq::<(Seq<char>, Seq<char>)>::empty(),
            250,
            350,
        ),
        domain_agent_view(
            "a-research-plan"@,
            "研究计划"@,
            PROMPT_ACD_RESEARCH_A_RESEARCH_PLAN@,
            Seq::<ToolV>::empty(),
            Some("opc-ceo-ceo-business-strategist"@),
            "a-research-plan_result"@,
            Seq::<(Seq<char>, Seq<char>)>::empty(),
            250,
            550,
        ),
        end_view(250, 750),
    ]);
    let edges = vec![
        edge("e-trigger-a-research-question", "trigger", "a-research-question"),
        edge("e-a-research-question-a-research-method", "a-research-question", "a-research-method"),
        edge("e-a-research-method-a-research-plan", "a-research-method", "a-research-plan"),
        edge("e-a-research-plan-end", "a-research-plan", "end"),
    ];
    assert(edges_view(edges@) =~= seq![
        direct_edge("e-trigger-a-research-question"@, "trigger"@, "a-research-question"@),
        direct_edge("e-a-research-question-a-research-method"@, "a-research-question"@, "a-research-method"@),
        direct_edge("e-a-research-method-a-research-plan"@, "a-research-method"@, "a-research-plan"@),
        direct_edge("e-a-research-plan-end"@, "a-research-plan"@, "end"@),
    ]);
    let tags: Vec<String> = vec![string_of("opc"), string_of("academic")];
    assert(seq_view(tags@) =~= seq!["opc"@, "academic"@]);
    build_domain_template_at(
        "wf-acd-research",
        "研究方案",
        "设计学术研究方案和方法论",
        "🔬",
        tags,
        "opc-ceo-ceo-business-strategist",
        nodes,
        edges,
        now,
    )
}

/// The hand-built workflows of the academic domain, stamped `now`, in order.
pub fn academic_domain_templates(now: i64) -> (ts: Vec<WorkflowTemplate>)
    ensures
        templates_view(ts@) == seq![acd_literature_view(now), acd_research_view(now)],
{
    let ts = vec![acd_literature(now), acd_research(now)];
    assert(templates_view(ts@) =~= seq![acd_literature_view(now), acd_research_view(now)]);
    ts
}

} // verus!
