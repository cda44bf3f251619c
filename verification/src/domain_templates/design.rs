use vstd::prelude::*;
use crate::domain_seed::{
    build_domain_template_at, direct_edge, domain_agent_view, domain_template_view, end_view, make_agent_node,
    make_agent_node_with_inputs, make_end, make_trigger, name_tool, templates_view, trigger_view,
};
use crate::text::string_of;
use crate::workflow::{
    edge, edges_view, nodes_view, pair_seq_view, seq_view, td, tools_view, TemplateV, ToolDef, ToolV, WorkflowTemplate,
};

verus! {

/// Prompt of node `a-a11y-scan` of `wf-des-accessibility`.
pub const PROMPT_DES_ACCESSIBILITY_A_A11Y_SCAN: &'static str = "使用工具扫描无障碍问题";

/// Prompt of node `a-a11y-report` of `wf-des-accessibility`.
pub const PROMPT_DES_ACCESSIBILITY_A_A11Y_REPORT: &'static str = "分类报告问题严重程度";

/// Prompt of node `a-a11y-fix` of `wf-des-accessibility`.
pub const PROMPT_DES_ACCESSIBILITY_A_A11Y_FIX: &'static str = "优先级修复关键无障碍问题";

/// `wf-des-accessibility` (无障碍审计) as stamped at `now`.
pub open spec fn des_accessibility_view(now: i64) -> TemplateV {
    domain_template_view(
        "wf-des-accessibility"@,
        "无障碍审计"@,
        "审计和修复产品无障碍问题"@,
        "♿"@,
        seq!["opc"@, "design"@],
        seq![
            trigger_view(250, 0),
            domain_agent_view(
                "a-a11y-scan"@,
                "扫描"@,
                PROMPT_DES_ACCESSIBILITY_A_A11Y_SCAN@,
                Seq::<ToolV>::empty(),
                Some("opc-cpo-cpo-product-manager"@),
                "a-a11y-scan_result"@,
                Seq::<(Seq<char>, Seq<char>)>::empty(),
                250,
                150,
            ),
            domain_agent_view(
                "a-a11y-report"@,
                "报告"@,
                PROMPT_DES_ACCESSIBILITY_A_A11Y_REPORT@,
                Seq::<ToolV>::empty(),
                Some("opc-cpo-cpo-product-manager"@),
                "a-a11y-report_result"@,
                Seq::<(Seq<char>, Seq<char>)>::empty(),
                250,
                350,
            ),
            domain_agent_view(
                "a-a11y-fix"@,
                "修复"@,
                PROMPT_DES_ACCESSIBILITY_A_A11Y_FIX@,
                Seq::<ToolV>::empty(),
                Some("opc-cpo-cpo-product-manager"@),
                "a-a11y-fix_result"@,
                Seq::<(Seq<char>, Seq<char>)>::empty(),
                250,
                550,
            ),
            end_view(250, 750),
        ],
        seq![
            direct_edge("e-trigger-a-a11y-scan"@, "trigger"@, "a-a11y-scan"@),
            direct_edge("e-a-a11y-scan-a-a11y-report"@, "a-a11y-scan"@, "a-a11y-report"@),
            direct_edge("e-a-a11y-report-a-a11y-fix"@, "a-a11y-report"@, "a-a11y-fix"@),
            direct_edge("e-a-a11y-fix-end"@, "a-a11y-fix"@, "end"@),
        ],
        now,
    )
}

fn des_accessibility(now: i64) -> (t: WorkflowTemplate)
    ensures
        t.view() == des_accessibility_view(now),
{
    let n0 = make_trigger(250, 0);
    let t1: Vec<ToolDef> = vec![];
    assert(tools_view(t1@) =~= Seq::<ToolV>::empty());
    let n1 = make_agent_node(
        "a-a11y-scan",
        "扫描",
        PROMPT_DES_ACCESSIBILITY_A_A11Y_SCAN,
        t1,
        Some("opc-cpo-cpo-product-manager"),
        "a-a11y-scan_result",
        250,
        150,
    );
    let t2: Vec<ToolDef> = vec![];
    assert(tools_view(t2@) =~= Seq::<ToolV>::empty());
    let n2 = make_agent_node(
        "a-a11y-report",
        "报告",
        PROMPT_DES_ACCESSIBILITY_A_A11Y_REPORT,
        t2,
        Some("opc-cpo-cpo-product-manager"),
        "a-a11y-report_result",
        250,
        350,
    );
    let t3: Vec<ToolDef> = vec![];
    assert(tools_view(t3@) =~= Seq::<ToolV>::empty());
    let n3 = make_agent_node(
        "a-a11y-fix",
        "修复",
        PROMPT_DES_ACCESSIBILITY_A_A11Y_FIX,
        t3,
        Some("opc-cpo-cpo-product-manager"),
        "a-a11y-fix_result",
        250,
        550,
    );
    let n4 = make_end(250, 750);
    let nodes = vec![n0, n1, n2, n3, n4];
    assert(nodes_view(nodes@) =~= seq![
        trigger_view(250, 0),
        domain_agent_view(
            "a-a11y-scan"@,
            "扫描"@,
            PROMPT_DES_ACCESSIBILITY_A_A11Y_SCAN@,
            Seq::<ToolV>::empty(),
            Some("opc-cpo-cpo-product-manager"@),
            "a-a11y-scan_result"@,
            Seq::<(Seq<char>, Seq<char>)>::empty(),
            250,
            150,
        ),
        domain_agent_view(
            "a-a11y-report"@,
            "报告"@,
            PROMPT_DES_ACCESSIBILITY_A_A11Y_REPORT@,
            Seq::<ToolV>::empty(),
            Some("opc-cpo-cpo-product-manager"@),
            "a-a11y-report_result"@,
            Seq::<(Seq<char>, Seq<char>)>::empty(),
            250,
            350,
        ),
        domain_agent_view(
            "a-a11y-fix"@,
            "修复"@,
            PROMPT_DES_ACCESSIBILITY_A_A11Y_FIX@,
            Seq::<ToolV>::empty(),
            Some("opc-cpo-cpo-product-manager"@),
            "a-a11y-fix_result"@,
            Seq::<(Seq<char>, Seq<char>)>::empty(),
            250,
            550,
        ),
        end_view(250, 750),
    ]);
    let edges = vec![
        edge("e-trigger-a-a11y-scan", "trigger", "a-a11y-scan"),
        edge("e-a-a11y-scan-a-a11y-report", "a-a11y-scan", "a-a11y-report"),
        edge("e-a-a11y-report-a-a11y-fix", "a-a11y-report", "a-a11y-fix"),
        edge("e-a-a11y-fix-end", "a-a11y-fix", "end"),
    ];
    assert(edges_view(edges@) =~= seq![
        direct_edge("e-trigger-a-a11y-scan"@, "trigger"@, "a-a11y-scan"@),
        direct_edge("e-a-a11y-scan-a-a11y-report"@, "a-a11y-scan"@, "a-a11y-report"@),
        direct_edge("e-a-a11y-report-a-a11y-fix"@, "a-a11y-report"@, "a-a11y-fix"@),
        direct_edge("e-a-a11y-fix-end"@, "a-a11y-fix"@, "end"@),
    ]);
    let tags: Vec<String> = vec![string_of("opc"), string_of("design")];
    assert(seq_view(tags@) =~= seq!["opc"@, "design"@]);
    build_domain_template_at(
        "wf-des-accessibility",
        "无障碍审计",
        "审计和修复产品无障碍问题",
        "♿",
        tags,
        "opc-cpo-cpo-product-manager",
        nodes,
        edges,
        now,
    )
}

/// Prompt of node `a-ds-audit` of `wf-des-design-system`.
pub const PROMPT_DES_DESIGN_SYSTEM_A_DS_AUDIT: &'static str = "审计现有设计元件和模式";

/// Prompt of node `a-ds-components` of `wf-des-design-system`.
pub const PROMPT_DES_DESIGN_SYSTEM_A_DS_COMPONENTS: &'static str = "构建核心组件库和规范文档";

/// Prompt of node `a-ds-doc` of `wf-des-design-system`.
pub const PROMPT_DES_DESIGN_SYSTEM_A_DS_DOC: &'static str = "输出设计系统使用文档";

/// `wf-des-design-system` (设计系统) as stamped at `now`.
pub open spec fn des_design_system_view(now: i64) -> TemplateV {
    domain_template_view(
        "wf-des-design-system"@,
        "设计系统"@,
        "搭建和维护统一的设计系统"@,
        "📐"@,
        seq!["opc"@, "design"@],
        seq![
            trigger_view(250, 0),
            domain_agent_view(
                "a-ds-audit"@,
                "审计"@,
                PROMPT_DES_DESIGN_SYSTEM_A_DS_AUDIT@,
                Seq::<ToolV>::empty(),
                Some("opc-cpo-cpo-product-manager"@),
                "a-ds-audit_result"@,
                Seq::<(Seq<char>, Seq<char>)>::empty(),
                250,
                150,
            ),
            domain_agent_view(
                "a-ds-components"@,
                "组件库"@,
                PROMPT_DES_DESIGN_SYSTEM_A_DS_COMPONENTS@,
                Seq::<ToolV>::empty(),
                Some("opc-cpo-cpo-product-manager"@),
                "a-ds-components_result"@,
                Seq::<(Seq<char>, Seq<char>)>::empty(),
                250,
                350,
            ),
            domain_agent_view(
                "a-ds-doc"@,
                "文档"@,
                PROMPT_DES_DESIGN_SYSTEM_A_DS_DOC@,
                Seq::<ToolV>::empty(),
                Some("opc-cpo-cpo-product-manager"@),
                "a-ds-doc_result"@,
                Seq::<(Seq<char>, Seq<char>)>::empty(),
                250,
                550,
            ),
            end_view(250, 750),
        ],
        seq![
            direct_edge("e-trigger-a-ds-audit"@, "trigger"@, "a-ds-audit"@),
            direct_edge("e-a-ds-audit-a-ds-components"@, "a-ds-audit"@, "a-ds-components"@),
            direct_edge("e-a-ds-components-a-ds-doc"@, "a-ds-components"@, "a-ds-doc"@),
            direct_edge("e-a-ds-doc-end"@, "a-ds-doc"@, "end"@),
        ],
        now,
    )
}

fn des_design_system(now: i64) -> (t: WorkflowTemplate)
    ensures
        t.view() == des_design_system_view(now),
{
    let n0 = make_trigger(250, 0);
    let t1: Vec<ToolDef> = vec![];
    assert(tools_view(t1@) =~= Seq::<ToolV>::empty());
    let n1 = make_agent_node(
        "a-ds-audit",
        "审计",
        PROMPT_DES_DESIGN_SYSTEM_A_DS_AUDIT,
        t1,
        Some("opc-cpo-cpo-product-manager"),
        "a-ds-audit_result",
        250,
        150,
    );
    let t2: Vec<ToolDef> = vec![];
    assert(tools_view(t2@) =~= Seq::<ToolV>::empty());
    let n2 = make_agent_node(
        "a-ds-components",
        "组件库",
        PROMPT_DES_DESIGN_SYSTEM_A_DS_COMPONENTS,
        t2,
        Some("opc-cpo-cpo-product-manager"),
        "a-ds-components_result",
        250,
        350,
    );
    let t3: Vec<ToolDef> = vec![];
    assert(tools_view(t3@) =~= Seq::<ToolV>::empty());
    let n3 = make_agent_node(
        "a-ds-doc",
        "文档",
        PROMPT_DES_DESIGN_SYSTEM_A_DS_DOC,
        t3,
        Some("opc-cpo-cpo-product-manager"),
        "a-ds-doc_result",
        250,
        550,
    );
    let n4 = make_end(250, 750);
    let nodes = vec![n0, n1, n2, n3, n4];
    assert(nodes_view(nodes@) =~= seq![
        trigger_view(250, 0),
        domain_agent_view(
            "a-ds-audit"@,
            "审计"@,
            PROMPT_DES_DESIGN_SYSTEM_A_DS_AUDIT@,
            Seq::<ToolV>::empty(),
            Some("opc-cpo-cpo-product-manager"@),
            "a-ds-audit_result"@,
            Seq::<(Seq<char>, Seq<char>)>::empty(),
            250,
            150,
        ),
        domain_agent_view(
            "a-ds-components"@,
            "组件库"@,
            PROMPT_DES_DESIGN_SYSTEM_A_DS_COMPONENTS@,
            Seq::<ToolV>::empty(),
            Some("opc-cpo-cpo-product-manager"@),
            "a-ds-components_result"@,
            Seq::<(Seq<char>, Seq<char>)>::empty(),
            250,
            350,
        ),
        domain_agent_view(
            "a-ds-doc"@,
            "文档"@,
            PROMPT_DES_DESIGN_SYSTEM_A_DS_DOC@,
            Seq::<ToolV>::empty(),
            Some("opc-cpo-cpo-product-manager"@),
            "a-ds-doc_result"@,
            Seq::<(Seq<char>, Seq<char>)>::empty(),
            250,
            550,
        ),
        end_view(250, 750),
    ]);
    let edges = vec![
        edge("e-trigger-a-ds-audit", "trigger", "a-ds-audit"),
        edge("e-a-ds-audit-a-ds-components", "a-ds-audit", "a-ds-components"),
        edge("e-a-ds-components-a-ds-doc", "a-ds-components", "a-ds-doc"),
        edge("e-a-ds-doc-end", "a-ds-doc", "end"),
    ];
    assert(edges_view(edges@) =~= seq![
        direct_edge("e-trigger-a-ds-audit"@, "trigger"@, "a-ds-audit"@),
        direct_edge("e-a-ds-audit-a-ds-components"@, "a-ds-audit"@, "a-ds-components"@),
        direct_edge("e-a-ds-components-a-ds-doc"@, "a-ds-components"@, "a-ds-doc"@),
        direct_edge("e-a-ds-doc-end"@, "a-ds-doc"@, "end"@),
    ]);
    let tags: Vec<String> = vec![string_of("opc"), string_of("design")];
    assert(seq_view(tags@) =~= seq!["opc"@, "design"@]);
    build_domain_template_at(
        "wf-des-design-system",
        "设计系统",
        "搭建和维护统一的设计系统",
        "📐",
        tags,
        "opc-cpo-cpo-product-manager",
        nodes,
        edges,
        now,
    )
}

/// Prompt of node `a-proto-wireframe` of `wf-des-prototype`.
pub const PROMPT_DES_PROTOTYPE_A_PROTO_WIREFRAME: &'static str = "绘制页面结构和布局线框图";

/// Prompt of node `a-proto-mockup` of `wf-des-prototype`.
pub const PROMPT_DES_PROTOTYPE_A_PROTO_MOCKUP: &'static str = "设计高保真模型和设计稿";

/// Prompt of node `a-proto-interact` of `wf-des-prototype`.
pub const PROMPT_DES_PROTOTYPE_A_PROTO_INTERACT: &'static str = "制作可点击交互原型";

/// `wf-des-prototype` (原型设计) as stamped at `now`.
pub open spec fn des_prototype_view(now: i64) -> TemplateV {
    domain_template_view(
        "wf-des-prototype"@,
        "原型设计"@,
        "从线框图到交互原型"@,
        "🎨"@,
        seq!["opc"@, "design"@],
        seq![
            trigger_view(250, 0),
            domain_agent_view(
                "a-proto-wireframe"@,
                "线框图"@,
                PROMPT_DES_PROTOTYPE_A_PROTO_WIREFRAME@,
                Seq::<ToolV>::empty(),
                Some("opc-cpo-cpo-product-manager"@),
                "a-proto-wireframe_result"@,
                Seq::<(Seq<char>, Seq<char>)>::empty(),
                250,
                150,
            ),
            domain_agent_view(
                "a-proto-mockup"@,
                "高保真"@,
                PROMPT_DES_PROTOTYPE_A_PROTO_MOCKUP@,
                Seq::<ToolV>::empty(),
                Some("opc-cpo-cpo-product-manager"@),
                "a-proto-mockup_result"@,
                Seq::<(Seq<char>, Seq<char>)>::empty(),
                250,
                350,
            ),
            domain_agent_view(
                "a-proto-interact"@,
                "交互原型"@,
                PROMPT_DES_PROTOTYPE_A_PROTO_INTERACT@,
                Seq::<ToolV>::empty(),
                Some("opc-cpo-cpo-product-manager"@),
                "a-proto-interact_result"@,
                Seq::<(Seq<char>, Seq<char>)>::empty(),
                250,
                550,
            ),
            end_view(250, 750),
        ],
        seq![
            direct_edge("e-trigger-a-proto-wireframe"@, "trigger"@, "a-proto-wireframe"@),
            direct_edge("e-a-proto-wireframe-a-proto-mockup"@, "a-proto-wireframe"@, "a-proto-mockup"@),
            direct_edge("e-a-proto-mockup-a-proto-interact"@, "a-proto-mockup"@, "a-proto-interact"@),
            direct_edge("e-a-proto-interact-end"@, "a-proto-interact"@, "end"@),
        ],
        now,
    )
}

fn des_prototype(now: i64) -> (t: WorkflowTemplate)
    ensures
        t.view() == des_prototype_view(now),
{
    let n0 = make_trigger(250, 0);
    let t1: Vec<ToolDef> = vec![];
    assert(tools_view(t1@) =~= Seq::<ToolV>::empty());
    let n1 = make_agent_node(
        "a-proto-wireframe",
        "线框图",
        PROMPT_DES_PROTOTYPE_A_PROTO_WIREFRAME,
        t1,
        Some("opc-cpo-cpo-product-manager"),
        "a-proto-wireframe_result",
        250,
        150,
    );
    let t2: Vec<ToolDef> = vec![];
    assert(tools_view(t2@) =~= Seq::<ToolV>::empty());
    let n2 = make_agent_node(
        "a-proto-mockup",
        "高保真",
        PROMPT_DES_PROTOTYPE_A_PROTO_MOCKUP,
        t2,
        Some("opc-cpo-cpo-product-manager"),
        "a-proto-mockup_result",
        250,
        350,
    );
    let t3: Vec<ToolDef> = vec![];
    assert(tools_view(t3@) =~= Seq::<ToolV>::empty());
    let n3 = make_agent_node(
        "a-proto-interact",
        "交互原型",
        PROMPT_DES_PROTOTYPE_A_PROTO_INTERACT,
        t3,
        Some("opc-cpo-cpo-product-manager"),
        "a-proto-interact_result",
        250,
        550,
    );
    let n4 = make_end(250, 750);
    let nodes = vec![n0, n1, n2, n3, n4];
    assert(nodes_view(nodes@) =~= seq![
        trigger_view(250, 0),
        domain_agent_view(
            "a-proto-wireframe"@,
            "线框图"@,
            PROMPT_DES_PROTOTYPE_A_PROTO_WIREFRAME@,
            Seq::<ToolV>::empty(),
            Some("opc-cpo-cpo-product-manager"@),
            "a-proto-wireframe_result"@,
            Seq::<(Seq<char>, Seq<char>)>::empty(),
            250,
            150,
        ),
        domain_agent_view(
            "a-proto-mockup"@,
            "高保真"@,
            PROMPT_DES_PROTOTYPE_A_PROTO_MOCKUP@,
            Seq::<ToolV>::empty(),
            Some("opc-cpo-cpo-product-manager"@),
            "a-proto-mockup_result"@,
            Seq::<(Seq<char>, Seq<char>)>::empty(),
            250,
            350,
        ),
        domain_agent_view(
            "a-proto-interact"@,
            "交互原型"@,
            PROMPT_DES_PROTOTYPE_A_PROTO_INTERACT@,
            Seq::<ToolV>::empty(),
            Some("opc-cpo-cpo-product-manager"@),
            "a-proto-interact_result"@,
            Seq::<(Seq<char>, Seq<char>)>::empty(),
            250,
            550,
        ),
        end_view(250, 750),
    ]);
    let edges = vec![
        edge("e-trigger-a-proto-wireframe", "trigger", "a-proto-wireframe"),
        edge("e-a-proto-wireframe-a-proto-mockup", "a-proto-wireframe", "a-proto-mockup"),
        edge("e-a-proto-mockup-a-proto-interact", "a-proto-mockup", "a-proto-interact"),
        edge("e-a-proto-interact-end", "a-proto-interact", "end"),
    ];
    assert(edges_view(edges@) =~= seq![
        direct_edge("e-trigger-a-proto-wireframe"@, "trigger"@, "a-proto-wireframe"@),
        direct_edge("e-a-proto-wireframe-a-proto-mockup"@, "a-proto-wireframe"@, "a-proto-mockup"@),
        direct_edge("e-a-proto-mockup-a-proto-interact"@, "a-proto-mockup"@, "a-proto-interact"@),
        direct_edge("e-a-proto-interact-end"@, "a-proto-interact"@, "end"@),
    ]);
    let tags: Vec<String> = vec![string_of("opc"), string_of("design")];
    assert(seq_view(tags@) =~= seq!["opc"@, "design"@]);
    build_domain_template_at(
        "wf-des-prototype",
        "原型设计",
        "从线框图到交互原型",
        "🎨",
        tags,
        "opc-cpo-cpo-product-manager",
        nodes,
        edges,
        now,
    )
}

/// Prompt of node `a-ux-plan` of `wf-des-ux-research`.
pub const PROMPT_DES_UX_RESEARCH_A_UX_PLAN: &'static str = "确定研究目标和用户招募标准";

/// Prompt of node `a-ux-conduct` of `wf-des-ux-research`.
pub const PROMPT_DES_UX_RESEARCH_A_UX_CONDUCT: &'static str = "执行用户访谈或可用性测试";

/// Prompt of node `a-ux-report` of `wf-des-ux-research`.
pub const PROMPT_DES_UX_RESEARCH_A_UX_REPORT: &'static str = "输出研究洞察和设计建议";

/// `wf-des-ux-research` (用户研究) as stamped at `now`.
pub open spec fn des_ux_research_view(now: i64) -> TemplateV {
    domain_template_view(
        "wf-des-ux-research"@,
        "用户研究"@,
        "用户访谈、可用性测试和洞察"@,
        "👥"@,
        seq!["opc"@, "design"@],
        seq![
            trigger_view(250, 0),
            domain_agent_view(
                "a-ux-plan"@,
                "研究计划"@,
                PROMPT_DES_UX_RESEARCH_A_UX_PLAN@,
                Seq::<ToolV>::empty(),
                Some("opc-cpo-cpo-product-manager"@),
                "a-ux-plan_result"@,
                Seq::<(Seq<char>, Seq<char>)>::empty(),
                250,
                150,
            ),
            domain_agent_view(
                "a-ux-conduct"@,
                "执行"@,
                PROMPT_DES_UX_RESEARCH_A_UX_CONDUCT@,
                Seq::<ToolV>::empty(),
                Some("opc-cpo-cpo-product-manager"@),
                "a-ux-conduct_result"@,
                Seq::<(Seq<char>, Seq<char>)>::empty(),
                250,
                350,
            ),
            domain_agent_view(
                "a-ux-report"@,
                "研究报告"@,
                PROMPT_DES_UX_RESEARCH_A_UX_REPORT@,
                Seq::<ToolV>::empty(),
                Some("opc-cpo-cpo-product-manager"@),
                "a-ux-report_result"@,
                Seq::<(Seq<char>, Seq<char>)>::empty(),
                250,
                550,
            ),
            end_view(250, 750),
        ],
        seq![
            direct_edge("e-trigger-a-ux-plan"@, "trigger"@, "a-ux-plan"@),
            direct_edge("e-a-ux-plan-a-ux-conduct"@, "a-ux-plan"@, "a-ux-conduct"@),
            direct_edge("e-a-ux-conduct-a-ux-report"@, "a-ux-conduct"@, "a-ux-report"@),
            direct_edge("e-a-ux-report-end"@, "a-ux-report"@, "end"@),
        ],
        now,
    )
}

fn des_ux_research(now: i64) -> (t: WorkflowTemplate)
    ensures
        t.view() == des_ux_research_view(now),
{
    let n0 = make_trigger(250, 0);
    let t1: Vec<ToolDef> = vec![];
    assert(tools_view(t1@) =~= Seq::<ToolV>::empty());
    let n1 = make_agent_node(
        "a-ux-plan",
        "研究计划",
        PROMPT_DES_UX_RESEARCH_A_UX_PLAN,
        t1,
        Some("opc-cpo-cpo-product-manager"),
        "a-ux-plan_result",
        250,
        150,
    );
    let t2: Vec<ToolDef> = vec![];
    assert(tools_view(t2@) =~= Seq::<ToolV>::empty());
    let n2 = make_agent_node(
        "a-ux-conduct",
        "执行",
        PROMPT_DES_UX_RESEARCH_A_UX_CONDUCT,
        t2,
        Some("opc-cpo-cpo-product-manager"),
        "a-ux-conduct_result",
        250,
        350,
    );
    let t3: Vec<ToolDef> = vec![];
    assert(tools_view(t3@) =~= Seq::<ToolV>::empty());
    let n3 = make_agent_node(
        "a-ux-report",
        "研究报告",
        PROMPT_DES_UX_RESEARCH_A_UX_REPORT,
        t3,
        Some("opc-cpo-cpo-product-manager"),
        "a-ux-report_result",
        250,
        550,
    );
    let n4 = make_end(250, 750);
    let nodes = vec![n0, n1, n2, n3, n4];
    assert(nodes_view(nodes@) =~= seq![
        trigger_view(250, 0),
        domain_agent_view(
            "a-ux-plan"@,
            "研究计划"@,
            PROMPT_DES_UX_RESEARCH_A_UX_PLAN@,
            Seq::<ToolV>::empty(),
            Some("opc-cpo-cpo-product-manager"@),
            "a-ux-plan_result"@,
            Seq::<(Seq<char>, Seq<char>)>::empty(),
            250,
            150,
        ),
        domain_agent_view(
            "a-ux-conduct"@,
            "执行"@,
            PROMPT_DES_UX_RESEARCH_A_UX_CONDUCT@,
            Seq::<ToolV>::empty(),
            Some("opc-cpo-cpo-product-manager"@),
            "a-ux-conduct_result"@,
            Seq::<(Seq<char>, Seq<char>)>::empty(),
            250,
            350,
        ),
        domain_agent_view(
            "a-ux-report"@,
            "研究报告"@,
            PROMPT_DES_UX_RESEARCH_A_UX_REPORT@,
            Seq::<ToolV>::empty(),
            Some("opc-cpo-cpo-product-manager"@),
            "a-ux-report_result"@,
            Seq::<(Seq<char>, Seq<char>)>::empty(),
            250,
            550,
        ),
        end_view(250, 750),
    ]);
    let edges = vec![
        edge("e-trigger-a-ux-plan", "trigger", "a-ux-plan"),
        edge("e-a-ux-plan-a-ux-conduct", "a-ux-plan", "a-ux-conduct"),
        edge("e-a-ux-conduct-a-ux-report", "a-ux-conduct", "a-ux-report"),
        edge("e-a-ux-report-end", "a-ux-report", "end"),
    ];
    assert(edges_view(edges@) =~= seq![
        direct_edge("e-trigger-a-ux-plan"@, "trigger"@, "a-ux-plan"@),
        direct_edge("e-a-ux-plan-a-ux-conduct"@, "a-ux-plan"@, "a-ux-conduct"@),
        direct_edge("e-a-ux-conduct-a-ux-report"@, "a-ux-conduct"@, "a-ux-report"@),
        direct_edge("e-a-ux-report-end"@, "a-ux-report"@, "end"@),
    ]);
    let tags: Vec<String> = vec![string_of("opc"), string_of("design")];
    assert(seq_view(tags@) =~= seq!["opc"@, "design"@]);
    build_domain_template_at(
        "wf-des-ux-research",
        "用户研究",
        "用户访谈、可用性测试和洞察",
        "👥",
        tags,
        "opc-cpo-cpo-product-manager",
        nodes,
        edges,
        now,
    )
}

/// The hand-built workflows of the design domain, stamped `now`, in order.
pub fn design_domain_templates(now: i64) -> (ts: Vec<WorkflowTemplate>)
    ensures
        templates_view(ts@) == seq![des_accessibility_view(now), des_design_system_view(now), des_prototype_view(now), des_ux_research_view(now)],
{
    let ts = vec![des_accessibility(now), des_design_system(now), des_prototype(now), des_ux_research(now)];
    assert(templates_view(ts@) =~= seq![des_accessibility_view(now), des_design_system_view(now), des_prototype_view(now), des_ux_research_view(now)]);
    ts
}

} // verus!
