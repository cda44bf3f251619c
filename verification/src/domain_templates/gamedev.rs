use vstd::prelude::*;
use crate::domain_seed::{
    build_domain_template_at, direct_edge, domain_agent_view, domain_template_view, end_view, make_agent_node,
    make_agent_node_with_inputs, make_end, make_trigger, name_tool, templates_view, trigger_view,
};
use crate::text::string_of;
use crate::workflow::{
    edge, edges_view, nodes_view, pair_seq_view, seq_view, td, tools_view, TemplateV, ToolDef, ToolV, WorkflowTemplate,
};

verus! {

/// Prompt of node `a-gd-idea` of `wf-gd-concept`.
pub const PROMPT_GD_CONCEPT_A_GD_IDEA: &'static str = "生成游戏核心玩法和概念";

/// Prompt of node `a-gd-design` of `wf-gd-concept`.
pub const PROMPT_GD_CONCEPT_A_GD_DESIGN: &'static str = "设计游戏机制、关卡、角色";

/// Prompt of node `a-gd-doc` of `wf-gd-concept`.
pub const PROMPT_GD_CONCEPT_A_GD_DOC: &'static str = "编写游戏设计文档";

/// `wf-gd-concept` (游戏概念设计) as stamped at `now`.
pub open spec fn gd_concept_view(now: i64) -> TemplateV {
    domain_template_view(
        "wf-gd-concept"@,
        "游戏概念设计"@,
        "从想法到完整的游戏设计文档"@,
        "🎮"@,
        seq!["opc"@, "gamedev"@],
        seq![
            trigger_view(250, 0),
            domain_agent_view(
                "a-gd-idea"@,
                "概念生成"@,
                PROMPT_GD_CONCEPT_A_GD_IDEA@,
                Seq::<ToolV>::empty(),
                Some("opc-cto-cto-ai-engineer"@),
                "a-gd-idea_result"@,
                Seq::<(Seq<char>, Seq<char>)>::empty(),
                250,
                150,
            ),
            domain_agent_view(
                "a-gd-design"@,
                "游戏设计"@,
                PROMPT_GD_CONCEPT_A_GD_DESIGN@,
                Seq::<ToolV>::empty(),
                Some("opc-cto-cto-ai-engineer"@),
                "a-gd-design_result"@,
                Seq::<(Seq<char>, Seq<char>)>::empty(),
                250,
                350,
            ),
            domain_agent_view(
                "a-gd-doc"@,
                "文档"@,
                PROMPT_GD_CONCEPT_A_GD_DOC@,
                Seq::<ToolV>::empty(),
                Some("opc-cto-cto-ai-engineer"@),
                "a-gd-doc_result"@,
                Seq::<(Seq<char>, Seq<char>)>::empty(),
                250,
                550,
            ),
            end_view(250, 750),
        ],
        seq![
            direct_edge("e-trigger-a-gd-idea"@, "trigger"@, "a-gd-idea"@),
            direct_edge("e-a-gd-idea-a-gd-design"@, "a-gd-idea"@, "a-gd-design"@),
            direct_edge("e-a-gd-design-a-gd-doc"@, "a-gd-design"@, "a-gd-doc"@),
            direct_edge("e-a-gd-doc-end"@, "a-gd-doc"@, "end"@),
        ],
        now,
    )
}

fn gd_concept(now: i64) -> (t: WorkflowTemplate)
    ensures
        t.view() == gd_concept_view(now),
{
    let n0 = make_trigger(250, 0);
    let t1: Vec<ToolDef> = vec![];
    assert(tools_view(t1@) =~= Seq::<ToolV>::empty());
    let n1 = make_agent_node(
        "a-gd-idea",
        "概念生成",
        PROMPT_GD_CONCEPT_A_GD_IDEA,
        t1,
        Some("opc-cto-cto-ai-engineer"),
        "a-gd-idea_result",
        250,
        150,
    );
    let t2: Vec<ToolDef> = vec![];
    assert(tools_view(t2@) =~= Seq::<ToolV>::empty());
    let n2 = make_agent_node(
        "a-gd-design",
        "游戏设计",
        PROMPT_GD_CONCEPT_A_GD_DESIGN,
        t2,
        Some("opc-cto-cto-ai-engineer"),
        "a-gd-design_result",
        250,
        350,
    );
    let t3: Vec<ToolDef> = vec![];
    assert(tools_view(t3@) =~= Seq::<ToolV>::empty());
    let n3 = make_agent_node(
        "a-gd-doc",
        "文档",
        PROMPT_GD_CONCEPT_A_GD_DOC,
        t3,
        Some("opc-cto-cto-ai-engineer"),
        "a-gd-doc_result",
        250,
        550,
    );
    let n4 = make_end(250, 750);
    let nodes = vec![n0, n1, n2, n3, n4];
    assert(nodes_view(nodes@) =~= seq![
        trigger_view(250, 0),
        domain_agent_view(
            "a-gd-idea"@,
            "概念生成"@,
            PROMPT_GD_CONCEPT_A_GD_IDEA@,
            Seq::<ToolV>::empty(),
            Some("opc-cto-cto-ai-engineer"@),
            "a-gd-idea_result"@,
            Seq::<(Seq<char>, Seq<char>)>::empty(),
            250,
            150,
        ),
        domain_agent_view(
            "a-gd-design"@,
            "游戏设计"@,
            PROMPT_GD_CONCEPT_A_GD_DESIGN@,
            Seq::<ToolV>::empty(),
            Some("opc-cto-cto-ai-engineer"@),
            "a-gd-design_result"@,
            Seq::<(Seq<char>, Seq<char>)>::empty(),
            250,
            350,
        ),
        domain_agent_view(
            "a-gd-doc"@,
            "文档"@,
            PROMPT_GD_CONCEPT_A_GD_DOC@,
            Seq::<ToolV>::empty(),
            Some("opc-cto-cto-ai-engineer"@),
            "a-gd-doc_result"@,
            Seq::<(Seq<char>, Seq<char>)>::empty(),
            250,
            550,
        ),
        end_view(250, 750),
    ]);
    let edges = vec![
        edge("e-trigger-a-gd-idea", "trigger", "a-gd-idea"),
        edge("e-a-gd-idea-a-gd-design", "a-gd-idea", "a-gd-design"),
        edge("e-a-gd-design-a-gd-doc", "a-gd-design", "a-gd-doc"),
        edge("e-a-gd-doc-end", "a-gd-doc", "end"),
    ];
    assert(edges_view(edges@) =~= seq![
        direct_edge("e-trigger-a-gd-idea"@, "trigger"@, "a-gd-idea"@),
        direct_edge("e-a-gd-idea-a-gd-design"@, "a-gd-idea"@, "a-gd-design"@),
        direct_edge("e-a-gd-design-a-gd-doc"@, "a-gd-design"@, "a-gd-doc"@),
        direct_edge("e-a-gd-doc-end"@, "a-gd-doc"@, "end"@),
    ]);
    let tags: Vec<String> = vec![string_of("opc"), string_of("gamedev")];
    assert(seq_view(tags@) =~= seq!["opc"@, "gamedev"@]);
    build_domain_template_at(
        "wf-gd-concept",
        "游戏概念设计",
        "从想法到完整的游戏设计文档",
        "🎮",
        tags,
        "opc-cto-cto-ai-engineer",
        nodes,
        edges,
        now,
    )
}

/// Prompt of node `a-gd-proto-core` of `wf-gd-prototype`.
pub const PROMPT_GD_PROTOTYPE_A_GD_PROTO_CORE: &'static str = "实现核心玩法和控制";

/// Prompt of node `a-gd-proto-test` of `wf-gd-prototype`.
pub const PROMPT_GD_PROTOTYPE_A_GD_PROTO_TEST: &'static str = "测试核心机制可玩性";

/// Prompt of node `a-gd-proto-iterate` of `wf-gd-prototype`.
pub const PROMPT_GD_PROTOTYPE_A_GD_PROTO_ITERATE: &'static str = "根据测试反馈优化";

/// `wf-gd-prototype` (游戏原型) as stamped at `now`.
pub open spec fn gd_prototype_view(now: i64) -> TemplateV {
    domain_template_view(
        "wf-gd-prototype"@,
        "游戏原型"@,
        "快速搭建可玩原型验证核心机制"@,
        "🎮"@,
        seq!["opc"@, "gamedev"@],
        seq![
            trigger_view(250, 0),
            domain_agent_view(
                "a-gd-proto-core"@,
                "核心机制"@,
                PROMPT_GD_PROTOTYPE_A_GD_PROTO_CORE@,
                Seq::<ToolV>::empty(),
                Some("opc-cto-cto-ai-engineer"@),
                "a-gd-proto-core_result"@,
                Seq::<(Seq<char>, Seq<char>)>::empty(),
                250,
                150,
            ),
            domain_agent_view(
                "a-gd-proto-test"@,
                "玩法测试"@,
                PROMPT_GD_PROTOTYPE_A_GD_PROTO_TEST@,
                Seq::<ToolV>::empty(),
                Some("opc-cto-cto-ai-engineer"@),
                "a-gd-proto-test_result"@,
                Seq::<(Seq<char>, Seq<char>)>::empty(),
                250,
                350,
            ),
            domain_agent_view(
                "a-gd-proto-iterate"@,
                "迭代"@,
                PROMPT_GD_PROTOTYPE_A_GD_PROTO_ITERATE@,
                Seq::<ToolV>::empty(),
                Some("opc-cto-cto-ai-engineer"@),
                "a-gd-proto-iterate_result"@,
                Seq::<(Seq<char>, Seq<char>)>::empty(),
                250,
                550,
            ),
            end_view(250, 750),
        ],
        seq![
            direct_edge("e-trigger-a-gd-proto-core"@, "trigger"@, "a-gd-proto-core"@),
            direct_edge("e-a-gd-proto-core-a-gd-proto-test"@, "a-gd-proto-core"@, "a-gd-proto-test"@),
            direct_edge("e-a-gd-proto-test-a-gd-proto-iterate"@, "a-gd-proto-test"@, "a-gd-proto-iterate"@),
            direct_edge("e-a-gd-proto-iterate-end"@, "a-gd-proto-iterate"@, "end"@),
        ],
        now,
    )
}

fn gd_prototype(now: i64) -> (t: WorkflowTemplate)
    ensures
        t.view() == gd_prototype_view(now),
{
    let n0 = make_trigger(250, 0);
    let t1: Vec<ToolDef> = vec![];
    assert(tools_view(t1@) =~= Seq::<ToolV>::empty());
    let n1 = make_agent_node(
        "a-gd-proto-core",
        "核心机制",
        PROMPT_GD_PROTOTYPE_A_GD_PROTO_CORE,
        t1,
        Some("opc-cto-cto-ai-engineer"),
        "a-gd-proto-core_result",
        250,
        150,
    );
    let t2: Vec<ToolDef> = vec![];
    assert(tools_view(t2@) =~= Seq::<ToolV>::empty());
    let n2 = make_agent_node(
        "a-gd-proto-test",
        "玩法测试",
        PROMPT_GD_PROTOTYPE_A_GD_PROTO_TEST,
        t2,
        Some("opc-cto-cto-ai-engineer"),
        "a-gd-proto-test_result",
        250,
        350,
    );
    let t3: Vec<ToolDef> = vec![];
    assert(tools_view(t3@) =~= Seq::<ToolV>::empty());
    let n3 = make_agent_node(
        "a-gd-proto-iterate",
        "迭代",
        PROMPT_GD_PROTOTYPE_A_GD_PROTO_ITERATE,
        t3,
        Some("opc-cto-cto-ai-engineer"),
        "a-gd-proto-iterate_result",
        250,
        550,
    );
    let n4 = make_end(250, 750);
    let nodes = vec![n0, n1, n2, n3, n4];
    assert(nodes_view(nodes@) =~= seq![
        trigger_view(250, 0),
        domain_agent_view(
            "a-gd-proto-core"@,
            "核心机制"@,
            PROMPT_GD_PROTOTYPE_A_GD_PROTO_CORE@,
            Seq::<ToolV>::empty(),
            Some("opc-cto-cto-ai-engineer"@),
            "a-gd-proto-core_result"@,
            Seq::<(Seq<char>, Seq<char>)>::empty(),
            250,
            150,
        ),
        domain_agent_view(
            "a-gd-proto-test"@,
            "玩法测试"@,
            PROMPT_GD_PROTOTYPE_A_GD_PROTO_TEST@,
            Seq::<ToolV>::empty(),
            Some("opc-cto-cto-ai-engineer"@),
            "a-gd-proto-test_result"@,
            Seq::<(Seq<char>, Seq<char>)>::empty(),
            250,
            350,
        ),
        domain_agent_view(
            "a-gd-proto-iterate"@,
            "迭代"@,
            PROMPT_GD_PROTOTYPE_A_GD_PROTO_ITERATE@,
            Seq::<ToolV>::empty(),
            Some("opc-cto-cto-ai-engineer"@),
            "a-gd-proto-iterate_result"@,
            Seq::<(Seq<char>, Seq<char>)>::empty(),
            250,
            550,
        ),
        end_view(250, 750),
    ]);
    let edges = vec![
        edge("e-trigger-a-gd-proto-core", "trigger", "a-gd-proto-core"),
        edge("e-a-gd-proto-core-a-gd-proto-test", "a-gd-proto-core", "a-gd-proto-test"),
        edge("e-a-gd-proto-test-a-gd-proto-iterate", "a-gd-proto-test", "a-gd-proto-iterate"),
        edge("e-a-gd-proto-iterate-end", "a-gd-proto-iterate", "end"),
    ];
    assert(edges_view(edges@) =~= seq![
        direct_edge("e-trigger-a-gd-proto-core"@, "trigger"@, "a-gd-proto-core"@),
        direct_edge("e-a-gd-proto-core-a-gd-proto-test"@, "a-gd-proto-core"@, "a-gd-proto-test"@),
        direct_edge("e-a-gd-proto-test-a-gd-proto-iterate"@, "a-gd-proto-test"@, "a-gd-proto-iterate"@),
        direct_edge("e-a-gd-proto-iterate-end"@, "a-gd-proto-iterate"@, "end"@),
    ]);
    let tags: Vec<String> = vec![string_of("opc"), string_of("gamedev")];
    assert(seq_view(tags@) =~= seq!["opc"@, "gamedev"@]);
    build_domain_template_at(
        "wf-gd-prototype",
        "游戏原型",
        "快速搭建可玩原型验证核心机制",
        "🎮",
        tags,
        "opc-cto-cto-ai-engineer",
        nodes,
        edges,
        now,
    )
}

/// Prompt of node `a-gd-qa-functional` of `wf-gd-qa`.
pub const PROMPT_GD_QA_A_GD_QA_FUNCTIONAL: &'static str = "测试游戏功能和系统";

/// Prompt of node `a-gd-qa-balance` of `wf-gd-qa`.
pub const PROMPT_GD_QA_A_GD_QA_BALANCE: &'static str = "测试数值平衡和难度曲线";

/// Prompt of node `a-gd-qa-ux` of `wf-gd-qa`.
pub const PROMPT_GD_QA_A_GD_QA_UX: &'static str = "测试用户体验和引导";

/// `wf-gd-qa` (游戏测试) as stamped at `now`.
pub open spec fn gd_qa_view(now: i64) -> TemplateV {
    domain_template_view(
        "wf-gd-qa"@,
        "游戏测试"@,
        "全面测试游戏功能和体验"@,
        "🎮"@,
        seq!["opc"@, "gamedev"@],
        seq![
            trigger_view(250, 0),
            domain_agent_view(
                "a-gd-qa-functional"@,
                "功能测试"@,
                PROMPT_GD_QA_A_GD_QA_FUNCTIONAL@,
                Seq::<ToolV>::empty(),
                Some("opc-cto-cto-ai-engineer"@),
                "a-gd-qa-functional_result"@,
                Seq::<(Seq<char>, Seq<char>)>::empty(),
                250,
                150,
            ),
            domain_agent_view(
                "a-gd-qa-balance"@,
                "平衡测试"@,
                PROMPT_GD_QA_A_GD_QA_BALANCE@,
                Seq::<ToolV>::empty(),
                Some("opc-cto-cto-ai-engineer"@),
                "a-gd-qa-balance_result"@,
                Seq::<(Seq<char>, Seq<char>)>::empty(),
                250,
                350,
            ),
            domain_agent_view(
                "a-gd-qa-ux"@,
                "体验测试"@,
                PROMPT_GD_QA_A_GD_QA_UX@,
                Seq::<ToolV>::empty(),
                Some("opc-cto-cto-ai-engineer"@),
                "a-gd-qa-ux_result"@,
                Seq::<(Seq<char>, Seq<char>)>::empty(),
                250,
                550,
            ),
            end_view(250, 750),
        ],
        seq![
            direct_edge("e-trigger-a-gd-qa-functional"@, "trigger"@, "a-gd-qa-functional"@),
            direct_edge("e-a-gd-qa-functional-a-gd-qa-balance"@, "a-gd-qa-functional"@, "a-gd-qa-balance"@),
            direct_edge("e-a-gd-qa-balance-a-gd-qa-ux"@, "a-gd-qa-balance"@, "a-gd-qa-ux"@),
            direct_edge("e-a-gd-qa-ux-end"@, "a-gd-qa-ux"@, "end"@),
        ],
        now,
    )
}

fn gd_qa(now: i64) -> (t: WorkflowTemplate)
    ensures
        t.view() == gd_qa_view(now),
{
    let n0 = make_trigger(250, 0);
    let t1: Vec<ToolDef> = vec![];
    assert(tools_view(t1@) =~= Seq::<ToolV>::empty());
    let n1 = make_agent_node(
        "a-gd-qa-functional",
        "功能测试",
        PROMPT_GD_QA_A_GD_QA_FUNCTIONAL,
        t1,
        Some("opc-cto-cto-ai-engineer"),
        "a-gd-qa-functional_result",
        250,
        150,
    );
    let t2: Vec<ToolDef> = vec![];
    assert(tools_view(t2@) =~= Seq::<ToolV>::empty());
    let n2 = make_agent_node(
        "a-gd-qa-balance",
        "平衡测试",
        PROMPT_GD_QA_A_GD_QA_BALANCE,
        t2,
        Some("opc-cto-cto-ai-engineer"),
        "a-gd-qa-balance_result",
        250,
        350,
    );
    let t3: Vec<ToolDef> = vec![];
    assert(tools_view(t3@) =~= Seq::<ToolV>::empty());
    let n3 = make_agent_node(
        "a-gd-qa-ux",
        "体验测试",
        PROMPT_GD_QA_A_GD_QA_UX,
        t3,
        Some("opc-cto-cto-ai-engineer"),
        "a-gd-qa-ux_result",
        250,
        550,
    );
    let n4 = make_end(250, 750);
    let nodes = vec![n0, n1, n2, n3, n4];
    assert(nodes_view(nodes@) =~= seq![
        trigger_view(250, 0),
        domain_agent_view(
            "a-gd-qa-functional"@,
            "功能测试"@,
            PROMPT_GD_QA_A_GD_QA_FUNCTIONAL@,
            Seq::<ToolV>::empty(),
            Some("opc-cto-cto-ai-engineer"@),
            "a-gd-qa-functional_result"@,
            Seq::<(Seq<char>, Seq<char>)>::empty(),
            250,
            150,
        ),
        domain_agent_view(
            "a-gd-qa-balance"@,
            "平衡测试"@,
            PROMPT_GD_QA_A_GD_QA_BALANCE@,
            Seq::<ToolV>::empty(),
            Some("opc-cto-cto-ai-engineer"@),
            "a-gd-qa-balance_result"@,
            Seq::<(Seq<char>, Seq<char>)>::empty(),
            250,
            350,
        ),
        domain_agent_view(
            "a-gd-qa-ux"@,
            "体验测试"@,
            PROMPT_GD_QA_A_GD_QA_UX@,
            Seq::<ToolV>::empty(),
            Some("opc-cto-cto-ai-engineer"@),
            "a-gd-qa-ux_result"@,
            Seq::<(Seq<char>, Seq<char>)>::empty(),
            250,
            550,
        ),
        end_view(250, 750),
    ]);
    let edges = vec![
        edge("e-trigger-a-gd-qa-functional", "trigger", "a-gd-qa-functional"),
        edge("e-a-gd-qa-functional-a-gd-qa-balance", "a-gd-qa-functional", "a-gd-qa-balance"),
        edge("e-a-gd-qa-balance-a-gd-qa-ux", "a-gd-qa-balance", "a-gd-qa-ux"),
        edge("e-a-gd-qa-ux-end", "a-gd-qa-ux", "end"),
    ];
    assert(edges_view(edges@) =~= seq![
        direct_edge("e-trigger-a-gd-qa-functional"@, "trigger"@, "a-gd-qa-functional"@),
        direct_edge("e-a-gd-qa-functional-a-gd-qa-balance"@, "a-gd-qa-functional"@, "a-gd-qa-balance"@),
        direct_edge("e-a-gd-qa-balance-a-gd-qa-ux"@, "a-gd-qa-balance"@, "a-gd-qa-ux"@),
        direct_edge("e-a-gd-qa-ux-end"@, "a-gd-qa-ux"@, "end"@),
    ]);
    let tags: Vec<String> = vec![string_of("opc"), string_of("gamedev")];
    assert(seq_view(tags@) =~= seq!["opc"@, "gamedev"@]);
    build_domain_template_at(
        "wf-gd-qa",
        "游戏测试",
        "全面测试游戏功能和体验",
        "🎮",
        tags,
        "opc-cto-cto-ai-engineer",
        nodes,
        edges,
        now,
    )
}

/// The hand-built workflows of the game development domain, stamped `now`, in order.
pub fn gamedev_domain_templates(now: i64) -> (ts: Vec<WorkflowTemplate>)
    ensures
        templates_view(ts@) == seq![gd_concept_view(now), gd_prototype_view(now), gd_qa_view(now)],
{
    let ts = vec![gd_concept(now), gd_prototype(now), gd_qa(now)];
    assert(templates_view(ts@) =~= seq![gd_concept_view(now), gd_prototype_view(now), gd_qa_view(now)]);
    ts
}

} // verus!
