use vstd::prelude::*;
use crate::domain_seed::{
    build_domain_template_at, direct_edge, domain_agent_view, domain_template_view, end_view, make_agent_node,
    make_agent_node_with_inputs, make_end, make_trigger, name_tool, templates_view, trigger_view,
};
use crate::text::string_of;
use crate::workflow::{
    edge, edges_view, nodes_view, pair_seq_view, seq_view, td, tools_view, TemplateV, ToolDef, ToolV, WorkflowTemplate,
};

verus! {

/// Prompt of node `a-faq-collect` of `wf-sup-faq`.
pub const PROMPT_SUP_FAQ_A_FAQ_COLLECT: &'static str = "采集高频客户问题和解决方案";

/// Prompt of node `a-faq-write` of `wf-sup-faq`.
pub const PROMPT_SUP_FAQ_A_FAQ_WRITE: &'static str = "编写清晰的FAQ文档";

/// Prompt of node `a-faq-publish` of `wf-sup-faq`.
pub const PROMPT_SUP_FAQ_A_FAQ_PUBLISH: &'static str = "审核并发布到知识库";

/// `wf-sup-faq` (FAQ知识库) as stamped at `now`.
pub open spec fn sup_faq_view(now: i64) -> TemplateV {
    domain_template_view(
        "wf-sup-faq"@,
        "FAQ知识库"@,
        "从客户问题提取和更新知识库"@,
        "📚"@,
        seq!["opc"@, "support"@],
        seq![
            trigger_view(250, 0),
            domain_agent_view(
                "a-faq-collect"@,
                "收集"@,
                PROMPT_SUP_FAQ_A_FAQ_COLLECT@,
                Seq::<ToolV>::empty(),
                Some("opc-coo-coo-operations-manager"@),
                "a-faq-collect_result"@,
                Seq::<(Seq<char>, Seq<char>)>::empty(),
                250,
                150,
            ),
            domain_agent_view(
                "a-faq-write"@,
                "编写"@,
                PROMPT_SUP_FAQ_A_FAQ_WRITE@,
                Seq::<ToolV>::empty(),
                Some("opc-coo-coo-operations-manager"@),
                "a-faq-write_result"@,
                Seq::<(Seq<char>, Seq<char>)>::empty(),
                250,
                350,
            ),
            domain_agent_view(
                "a-faq-publish"@,
                "发布"@,
                PROMPT_SUP_FAQ_A_FAQ_PUBLISH@,
                Seq::<ToolV>::empty(),
                Some("opc-coo-coo-operations-manager"@),
                "a-faq-publish_result"@,
                Seq::<(Seq<char>, Seq<char>)>::empty(),
                250,
                550,
            ),
            end_view(250, 750),
        ],
        seq![
            direct_edge("e-trigger-a-faq-collect"@, "trigger"@, "a-faq-collect"@),
            direct_edge("e-a-faq-collect-a-faq-write"@, "a-faq-collect"@, "a-faq-write"@),
            direct_edge("e-a-faq-write-a-faq-publish"@, "a-faq-write"@, "a-faq-publish"@),
            direct_edge("e-a-faq-publish-end"@, "a-faq-publish"@, "end"@),
        ],
        now,
    )
}

fn sup_faq(now: i64) -> (t: WorkflowTemplate)
    ensures
        t.view() == sup_faq_view(now),
{
    let n0 = make_trigger(250, 0);
    let t1: Vec<ToolDef> = vec![];
    assert(tools_view(t1@) =~= Seq::<ToolV>::empty());
    let n1 = make_agent_node(
        "a-faq-collect",
        "收集",
        PROMPT_SUP_FAQ_A_FAQ_COLLECT,
        t1,
        Some("opc-coo-coo-operations-manager"),
        "a-faq-collect_result",
        250,
        150,
    );
    let t2: Vec<ToolDef> = vec![];
    assert(tools_view(t2@) =~= Seq::<ToolV>::empty());
    let n2 = make_agent_node(
        "a-faq-write",
        "编写",
        PROMPT_SUP_FAQ_A_FAQ_WRITE,
        t2,
        Some("opc-coo-coo-operations-manager"),
        "a-faq-write_result",
        250,
        350,
    );
    let t3: Vec<ToolDef> = vec![];
    assert(tools_view(t3@) =~= Seq::<ToolV>::empty());
    let n3 = make_agent_node(
        "a-faq-publish",
        "发布",
        PROMPT_SUP_FAQ_A_FAQ_PUBLISH,
        t3,
        Some("opc-coo-coo-operations-manager"),
        "a-faq-publish_result",
        250,
        550,
    );
    let n4 = make_end(250, 750);
    let nodes = vec![n0, n1, n2, n3, n4];
    assert(nodes_view(nodes@) =~= seq![
        trigger_view(250, 0),
        domain_agent_view(
            "a-faq-collect"@,
            "收集"@,
            PROMPT_SUP_FAQ_A_FAQ_COLLECT@,
            Seq::<ToolV>::empty(),
            Some("opc-coo-coo-operations-manager"@),
            "a-faq-collect_result"@,
            Seq::<(Seq<char>, Seq<char>)>::empty(),
            250,
            150,
        ),
        domain_agent_view(
            "a-faq-write"@,
            "编写"@,
            PROMPT_SUP_FAQ_A_FAQ_WRITE@,
            Seq::<ToolV>::empty(),
            Some("opc-coo-coo-operations-manager"@),
            "a-faq-write_result"@,
            Seq::<(Seq<char>, Seq<char>)>::empty(),
            250,
            350,
        ),
        domain_agent_view(
            "a-faq-publish"@,
            "发布"@,
            PROMPT_SUP_FAQ_A_FAQ_PUBLISH@,
            Seq::<ToolV>::empty(),
            Some("opc-coo-coo-operations-manager"@),
            "a-faq-publish_result"@,
            Seq::<(Seq<char>, Seq<char>)>::empty(),
            250,
            550,
        ),
        end_view(250, 750),
    ]);
    let edges = vec![
        edge("e-trigger-a-faq-collect", "trigger", "a-faq-collect"),
        edge("e-a-faq-collect-a-faq-write", "a-faq-collect", "a-faq-write"),
        edge("e-a-faq-write-a-faq-publish", "a-faq-write", "a-faq-publish"),
        edge("e-a-faq-publish-end", "a-faq-publish", "end"),
    ];
    assert(edges_view(edges@) =~= seq![
        direct_edge("e-trigger-a-faq-collect"@, "trigger"@, "a-faq-collect"@),
        direct_edge("e-a-faq-collect-a-faq-write"@, "a-faq-collect"@, "a-faq-write"@),
        direct_edge("e-a-faq-write-a-faq-publish"@, "a-faq-write"@, "a-faq-publish"@),
        direct_edge("e-a-faq-publish-end"@, "a-faq-publish"@, "end"@),
    ]);
    let tags: Vec<String> = vec![string_of("opc"), string_of("support")];
    assert(seq_view(tags@) =~= seq!["opc"@, "support"@]);
    build_domain_template_at(
        "wf-sup-faq",
        "FAQ知识库",
        "从客户问题提取和更新知识库",
        "📚",
        tags,
        "opc-coo-coo-operations-manager",
        nodes,
        edges,
        now,
    )
}

/// Prompt of node `a-sat-design` of `wf-sup-satisfaction`.
pub const PROMPT_SUP_SATISFACTION_A_SAT_DESIGN: &'static str = "设计调查问卷和评分体系";

/// Prompt of node `a-sat-send` of `wf-sup-satisfaction`.
pub const PROMPT_SUP_SATISFACTION_A_SAT_SEND: &'static str = "选择样本并发送调查";

/// Prompt of node `a-sat-analyze` of `wf-sup-satisfaction`.
pub const PROMPT_SUP_SATISFACTION_A_SAT_ANALYZE: &'static str = "分析结果并制定改进计划";

/// `wf-sup-satisfaction` (客户满意度调查) as stamped at `now`.
pub open spec fn sup_satisfaction_view(now: i64) -> TemplateV {
    domain_template_view(
        "wf-sup-satisfaction"@,
        "客户满意度调查"@,
        "设计、发送和分析满意度调查"@,
        "📊"@,
        seq!["opc"@, "support"@],
        seq![
            trigger_view(250, 0),
            domain_agent_view(
                "a-sat-design"@,
                "设计"@,
                PROMPT_SUP_SATISFACTION_A_SAT_DESIGN@,
                Seq::<ToolV>::empty(),
                Some("opc-coo-coo-operations-manager"@),
                "a-sat-design_result"@,
                Seq::<(Seq<char>, Seq<char>)>::empty(),
                250,
                150,
            ),
            domain_agent_view(
                "a-sat-send"@,
                "发送"@,
                PROMPT_SUP_SATISFACTION_A_SAT_SEND@,
                Seq::<ToolV>::empty(),
                Some("opc-coo-coo-operations-manager"@),
                "a-sat-send_result"@,
                Seq::<(Seq<char>, Seq<char>)>::empty(),
                250,
                350,
            ),
            domain_agent_view(
                "a-sat-analyze"@,
                "分析"@,
                PROMPT_SUP_SATISFACTION_A_SAT_ANALYZE@,
                Seq::<ToolV>::empty(),
                Some("opc-coo-coo-operations-manager"@),
                "a-sat-analyze_result"@,
                Seq::<(Seq<char>, Seq<char>)>::empty(),
                250,
                550,
            ),
            end_view(250, 750),
        ],
        seq![
            direct_edge("e-trigger-a-sat-design"@, "trigger"@, "a-sat-design"@),
            direct_edge("e-a-sat-design-a-sat-send"@, "a-sat-design"@, "a-sat-send"@),
            direct_edge("e-a-sat-send-a-sat-analyze"@, "a-sat-send"@, "a-sat-analyze"@),
            direct_edge("e-a-sat-analyze-end"@, "a-sat-analyze"@, "end"@),
        ],
        now,
    )
}

fn sup_satisfaction(now: i64) -> (t: WorkflowTemplate)
    ensures
        t.view() == sup_satisfaction_view(now),
{
    let n0 = make_trigger(250, 0);
    let t1: Vec<ToolDef> = vec![];
    assert(tools_view(t1@) =~= Seq::<ToolV>::empty());
    let n1 = make_agent_node(
        "a-sat-design",
        "设计",
        PROMPT_SUP_SATISFACTION_A_SAT_DESIGN,
        t1,
        Some("opc-coo-coo-operations-manager"),
        "a-sat-design_result",
        250,
        150,
    );
    let t2: Vec<ToolDef> = vec![];
    assert(tools_view(t2@) =~= Seq::<ToolV>::empty());
    let n2 = make_agent_node(
        "a-sat-send",
        "发送",
        PROMPT_SUP_SATISFACTION_A_SAT_SEND,
        t2,
        Some("opc-coo-coo-operations-manager"),
        "a-sat-send_result",
        250,
        350,
    );
    let t3: Vec<ToolDef> = vec![];
    assert(tools_view(t3@) =~= Seq::<ToolV>::empty());
    let n3 = make_agent_node(
        "a-sat-analyze",
        "分析",
        PROMPT_SUP_SATISFACTION_A_SAT_ANALYZE,
        t3,
        Some("opc-coo-coo-operations-manager"),
        "a-sat-analyze_result",
        250,
        550,
    );
    let n4 = make_end(250, 750);
    let nodes = vec![n0, n1, n2, n3, n4];
    assert(nodes_view(nodes@) =~= seq![
        trigger_view(250, 0),
        domain_agent_view(
            "a-sat-design"@,
            "设计"@,
            PROMPT_SUP_SATISFACTION_A_SAT_DESIGN@,
            Seq::<ToolV>::empty(),
            Some("opc-coo-coo-operations-manager"@),
            "a-sat-design_result"@,
            Seq::<(Seq<char>, Seq<char>)>::empty(),
            250,
            150,
        ),
        domain_agent_view(
            "a-sat-send"@,
            "发送"@,
            PROMPT_SUP_SATISFACTION_A_SAT_SEND@,
            Seq::<ToolV>::empty(),
            Some("opc-coo-coo-operations-manager"@),
            "a-sat-send_result"@,
            Seq::<(Seq<char>, Seq<char>)>::empty(),
            250,
            350,
        ),
        domain_agent_view(
            "a-sat-analyze"@,
            "分析"@,
            PROMPT_SUP_SATISFACTION_A_SAT_ANALYZE@,
            Seq::<ToolV>::empty(),
            Some("opc-coo-coo-operations-manager"@),
            "a-sat-analyze_result"@,
            Seq::<(Seq<char>, Seq<char>)>::empty(),
            250,
            550,
        ),
        end_view(250, 750),
    ]);
    let edges = vec![
        edge("e-trigger-a-sat-design", "trigger", "a-sat-design"),
        edge("e-a-sat-design-a-sat-send", "a-sat-design", "a-sat-send"),
        edge("e-a-sat-send-a-sat-analyze", "a-sat-send", "a-sat-analyze"),
        edge("e-a-sat-analyze-end", "a-sat-analyze", "end"),
    ];
    assert(edges_view(edges@) =~= seq![
        direct_edge("e-trigger-a-sat-design"@, "trigger"@, "a-sat-design"@),
        direct_edge("e-a-sat-design-a-sat-send"@, "a-sat-design"@, "a-sat-send"@),
        direct_edge("e-a-sat-send-a-sat-analyze"@, "a-sat-send"@, "a-sat-analyze"@),
        direct_edge("e-a-sat-analyze-end"@, "a-sat-analyze"@, "end"@),
    ]);
    let tags: Vec<String> = vec![string_of("opc"), string_of("support")];
    assert(seq_view(tags@) =~= seq!["opc"@, "support"@]);
    build_domain_template_at(
        "wf-sup-satisfaction",
        "客户满意度调查",
        "设计、发送和分析满意度调查",
        "📊",
        tags,
        "opc-coo-coo-operations-manager",
        nodes,
        edges,
        now,
    )
}

/// Prompt of node `a-ticket-categorize` of `wf-sup-ticket`.
pub const PROMPT_SUP_TICKET_A_TICKET_CATEGORIZE: &'static str = "分类工单类型和紧急程度";

/// Prompt of node `a-ticket-solve` of `wf-sup-ticket`.
pub const PROMPT_SUP_TICKET_A_TICKET_SOLVE: &'static str = "排查问题并给出解决方案";

/// Prompt of node `a-ticket-follow` of `wf-sup-ticket`.
pub const PROMPT_SUP_TICKET_A_TICKET_FOLLOW: &'static str = "确认客户满意并关闭工单";

/// `wf-sup-ticket` (客户工单处理) as stamped at `now`.
pub open spec fn sup_ticket_view(now: i64) -> TemplateV {
    domain_template_view(
        "wf-sup-ticket"@,
        "客户工单处理"@,
        "接收、分类、处理和关闭客户工单"@,
        "🎫"@,
        seq!["opc"@, "support"@],
        seq![
            trigger_view(250, 0),
            domain_agent_view(
                "a-ticket-categorize"@,
                "分类"@,
                PROMPT_SUP_TICKET_A_TICKET_CATEGORIZE@,
                Seq::<ToolV>::empty(),
                Some("opc-coo-coo-operations-manager"@),
                "a-ticket-categorize_result"@,
                Seq::<(Seq<char>, Seq<char>)>::empty(),
                250,
                150,
            ),
            domain_agent_view(
                "a-ticket-solve"@,
                "解决"@,
                PROMPT_SUP_TICKET_A_TICKET_SOLVE@,
                Seq::<ToolV>::empty(),
                Some("opc-coo-coo-operations-manager"@),
                "a-ticket-solve_result"@,
                Seq::<(Seq<char>, Seq<char>)>::empty(),
                250,
                350,
            ),
            domain_agent_view(
                "a-ticket-follow"@,
                "跟进"@,
                PROMPT_SUP_TICKET_A_TICKET_FOLLOW@,
                Seq::<ToolV>::empty(),
                Some("opc-coo-coo-operations-manager"@),
                "a-ticket-follow_result"@,
                Seq::<(Seq<char>, Seq<char>)>::empty(),
                250,
                550,
            ),
            end_view(250, 750),
        ],
        seq![
            direct_edge("e-trigger-a-ticket-categorize"@, "trigger"@, "a-ticket-categorize"@),
            direct_edge("e-a-ticket-categorize-a-ticket-solve"@, "a-ticket-categorize"@, "a-ticket-solve"@),
            direct_edge("e-a-ticket-solve-a-ticket-follow"@, "a-ticket-solve"@, "a-ticket-follow"@),
            direct_edge("e-a-ticket-follow-end"@, "a-ticket-follow"@, "end"@),
        ],
        now,
    )
}

fn sup_ticket(now: i64) -> (t: WorkflowTemplate)
    ensures
        t.view() == sup_ticket_view(now),
{
    let n0 = make_trigger(250, 0);
    let t1: Vec<ToolDef> = vec![];
    assert(tools_view(t1@) =~= Seq::<ToolV>::empty());
    let n1 = make_agent_node(
        "a-ticket-categorize",
        "分类",
        PROMPT_SUP_TICKET_A_TICKET_CATEGORIZE,
        t1,
        Some("opc-coo-coo-operations-manager"),
        "a-ticket-categorize_result",
        250,
        150,
    );
    let t2: Vec<ToolDef> = vec![];
    assert(tools_view(t2@) =~= Seq::<ToolV>::empty());
    let n2 = make_agent_node(
        "a-ticket-solve",
        "解决",
        PROMPT_SUP_TICKET_A_TICKET_SOLVE,
        t2,
        Some("opc-coo-coo-operations-manager"),
        "a-ticket-solve_result",
        250,
        350,
    );
    let t3: Vec<ToolDef> = vec![];
    assert(tools_view(t3@) =~= Seq::<ToolV>::empty());
    let n3 = make_agent_node(
        "a-ticket-follow",
        "跟进",
        PROMPT_SUP_TICKET_A_TICKET_FOLLOW,
        t3,
        Some("opc-coo-coo-operations-manager"),
        "a-ticket-follow_result",
        250,
        550,
    );
    let n4 = make_end(250, 750);
    let nodes = vec![n0, n1, n2, n3, n4];
    assert(nodes_view(nodes@) =~= seq![
        trigger_view(250, 0),
        domain_agent_view(
            "a-ticket-categorize"@,
            "分类"@,
            PROMPT_SUP_TICKET_A_TICKET_CATEGORIZE@,
            Seq::<ToolV>::empty(),
            Some("opc-coo-coo-operations-manager"@),
            "a-ticket-categorize_result"@,
            Seq::<(Seq<char>, Seq<char>)>::empty(),
            250,
            150,
        ),
        domain_agent_view(
            "a-ticket-solve"@,
            "解决"@,
            PROMPT_SUP_TICKET_A_TICKET_SOLVE@,
            Seq::<ToolV>::empty(),
            Some("opc-coo-coo-operations-manager"@),
            "a-ticket-solve_result"@,
            Seq::<(Seq<char>, Seq<char>)>::empty(),
            250,
            350,
        ),
        domain_agent_view(
            "a-ticket-follow"@,
            "跟进"@,
            PROMPT_SUP_TICKET_A_TICKET_FOLLOW@,
            Seq::<ToolV>::empty(),
            Some("opc-coo-coo-operations-manager"@),
            "a-ticket-follow_result"@,
            Seq::<(Seq<char>, Seq<char>)>::empty(),
            250,
            550,
        ),
        end_view(250, 750),
    ]);
    let edges = vec![
        edge("e-trigger-a-ticket-categorize", "trigger", "a-ticket-categorize"),
        edge("e-a-ticket-categorize-a-ticket-solve", "a-ticket-categorize", "a-ticket-solve"),
        edge("e-a-ticket-solve-a-ticket-follow", "a-ticket-solve", "a-ticket-follow"),
        edge("e-a-ticket-follow-end", "a-ticket-follow", "end"),
    ];
    assert(edges_view(edges@) =~= seq![
        direct_edge("e-trigger-a-ticket-categorize"@, "trigger"@, "a-ticket-categorize"@),
        direct_edge("e-a-ticket-categorize-a-ticket-solve"@, "a-ticket-categorize"@, "a-ticket-solve"@),
        direct_edge("e-a-ticket-solve-a-ticket-follow"@, "a-ticket-solve"@, "a-ticket-follow"@),
        direct_edge("e-a-ticket-follow-end"@, "a-ticket-follow"@, "end"@),
    ]);
    let tags: Vec<String> = vec![string_of("opc"), string_of("support")];
    assert(seq_view(tags@) =~= seq!["opc"@, "support"@]);
    build_domain_template_at(
        "wf-sup-ticket",
        "客户工单处理",
        "接收、分类、处理和关闭客户工单",
        "🎫",
        tags,
        "opc-coo-coo-operations-manager",
        nodes,
        edges,
        now,
    )
}

/// The hand-built workflows of the support domain, stamped `now`, in order.
pub fn support_domain_templates(now: i64) -> (ts: Vec<WorkflowTemplate>)
    ensures
        templates_view(ts@) == seq![sup_faq_view(now), sup_satisfaction_view(now), sup_ticket_view(now)],
{
    let ts = vec![sup_faq(now), sup_satisfaction(now), sup_ticket(now)];
    assert(templates_view(ts@) =~= seq![sup_faq_view(now), sup_satisfaction_view(now), sup_ticket_view(now)]);
    ts
}

} // verus!
