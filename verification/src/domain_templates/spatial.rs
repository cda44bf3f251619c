use vstd::prelude::*;
use crate::domain_seed::{
    build_domain_template_at, direct_edge, domain_agent_view, domain_template_view, end_view, make_agent_node,
    make_agent_node_with_inputs, make_end, make_trigger, name_tool, templates_view, trigger_view,
};
use crate::text::string_of;
use crate::workflow::{
    edge, edges_view, nodes_view, pair_seq_view, seq_view, td, tools_view, TemplateV, ToolDef, ToolV, WorkflowTemplate,
};

verus! {

/// Prompt of node `a-ar-concept` of `wf-spatial-ar`.
pub const PROMPT_SPATIAL_AR_A_AR_CONCEPT: &'static str = "设计AR应用核心交互模式";

/// Prompt of node `a-ar-ux` of `wf-spatial-ar`.
pub const PROMPT_SPATIAL_AR_A_AR_UX: &'static str = "设计3D空间用户界面和手势";

/// Prompt of node `a-ar-prototype` of `wf-spatial-ar`.
pub const PROMPT_SPATIAL_AR_A_AR_PROTOTYPE: &'static str = "搭建AR原型验证可行性";

/// `wf-spatial-ar` (AR应用设计) as stamped at `now`.
pub open spec fn spatial_ar_view(now: i64) -> TemplateV {
    domain_template_view(
        "wf-spatial-ar"@,
        "AR应用设计"@,
        "增强现实应用概念和交互设计"@,
        "🥽"@,
        seq!["opc"@, "spatial"@],
        seq![
            trigger_view(250, 0),
            domain_agent_view(
                "a-ar-concept"@,
                "概念设计"@,
                PROMPT_SPATIAL_AR_A_AR_CONCEPT@,
                Seq::<ToolV>::empty(),
                Some("opc-cto-cto-ai-engineer"@),
                "a-ar-concept_result"@,
                Seq::<(Seq<char>, Seq<char>)>::empty(),
                250,
                150,
            ),
            domain_agent_view(
                "a-ar-ux"@,
                "空间UI设计"@,
                PROMPT_SPATIAL_AR_A_AR_UX@,
                Seq::<ToolV>::empty(),
                Some("opc-cto-cto-ai-engineer"@),
                "a-ar-ux_result"@,
                Seq::<(Seq<char>, Seq<char>)>::empty(),
                250,
                350,
            ),
            domain_agent_view(
                "a-ar-prototype"@,
                "原型验证"@,
                PROMPT_SPATIAL_AR_A_AR_PROTOTYPE@,
                Seq::<ToolV>::empty(),
                Some("opc-cto-cto-ai-engineer"@),
                "a-ar-prototype_result"@,
                Seq::<(Seq<char>, Seq<char>)>::empty(),
                250,
                550,
            ),
            end_view(250, 750),
        ],
        seq![
            direct_edge("e-trigger-a-ar-concept"@, "trigger"@, "a-ar-concept"@),
            direct_edge("e-a-ar-concept-a-ar-ux"@, "a-ar-concept"@, "a-ar-ux"@),
            direct_edge("e-a-ar-ux-a-ar-prototype"@, "a-ar-ux"@, "a-ar-prototype"@),
            direct_edge("e-a-ar-prototype-end"@, "a-ar-prototype"@, "end"@),
        ],
        now,
    )
}

fn spatial_ar(now: i64) -> (t: WorkflowTemplate)
    ensures
        t.view() == spatial_ar_view(now),
{
    let n0 = make_trigger(250, 0);
    let t1: Vec<ToolDef> = vec![];
    assert(tools_view(t1@) =~= Seq::<ToolV>::empty());
    let n1 = make_agent_node(
        "a-ar-concept",
        "概念设计",
        PROMPT_SPATIAL_AR_A_AR_CONCEPT,
        t1,
        Some("opc-cto-cto-ai-engineer"),
        "a-ar-concept_result",
        250,
        150,
    );
    let t2: Vec<ToolDef> = vec![];
    assert(tools_view(t2@) =~= Seq::<ToolV>::empty());
    let n2 = make_agent_node(
        "a-ar-ux",
        "空间UI设计",
        PROMPT_SPATIAL_AR_A_AR_UX,
        t2,
        Some("opc-cto-cto-ai-engineer"),
        "a-ar-ux_result",
        250,
        350,
    );
    let t3: Vec<ToolDef> = vec![];
    assert(tools_view(t3@) =~= Seq::<ToolV>::empty());
    let n3 = make_agent_node(
        "a-ar-prototype",
        "原型验证",
        PROMPT_SPATIAL_AR_A_AR_PROTOTYPE,
        t3,
        Some("opc-cto-cto-ai-engineer"),
        "a-ar-prototype_result",
        250,
        550,
    );
    let n4 = make_end(250, 750);
    let nodes = vec![n0, n1, n2, n3, n4];
    assert(nodes_view(nodes@) =~= seq![
        trigger_view(250, 0),
        domain_agent_view(
            "a-ar-concept"@,
            "概念设计"@,
            PROMPT_SPATIAL_AR_A_AR_CONCEPT@,
            Seq::<ToolV>::empty(),
            Some("opc-cto-cto-ai-engineer"@),
            "a-ar-concept_result"@,
            Seq::<(Seq<char>, Seq<char>)>::empty(),
            250,
            150,
        ),
        domain_agent_view(
            "a-ar-ux"@,
            "空间UI设计"@,
            PROMPT_SPATIAL_AR_A_AR_UX@,
            Seq::<ToolV>::empty(),
            Some("opc-cto-cto-ai-engineer"@),
            "a-ar-ux_result"@,
            Seq::<(Seq<char>, Seq<char>)>::empty(),
            250,
            350,
        ),
        domain_agent_view(
            "a-ar-prototype"@,
            "原型验证"@,
            PROMPT_SPATIAL_AR_A_AR_PROTOTYPE@,
            Seq::<ToolV>::empty(),
            Some("opc-cto-cto-ai-engineer"@),
            "a-ar-prototype_result"@,
            Seq::<(Seq<char>, Seq<char>)>::empty(),
            250,
            550,
        ),
        end_view(250, 750),
    ]);
    let edges = vec![
        edge("e-trigger-a-ar-concept", "trigger", "a-ar-concept"),
        edge("e-a-ar-concept-a-ar-ux", "a-ar-concept", "a-ar-ux"),
        edge("e-a-ar-ux-a-ar-prototype", "a-ar-ux", "a-ar-prototype"),
        edge("e-a-ar-prototype-end", "a-ar-prototype", "end"),
    ];
    assert(edges_view(edges@) =~= seq![
        direct_edge("e-trigger-a-ar-concept"@, "trigger"@, "a-ar-concept"@),
        direct_edge("e-a-ar-concept-a-ar-ux"@, "a-ar-concept"@, "a-ar-ux"@),
        direct_edge("e-a-ar-ux-a-ar-prototype"@, "a-ar-ux"@, "a-ar-prototype"@),
        direct_edge("e-a-ar-prototype-end"@, "a-ar-prototype"@, "end"@),
    ]);
    let tags: Vec<String> = vec![string_of("opc"), string_of("spatial")];
    assert(seq_view(tags@) =~= seq!["opc"@, "spatial"@]);
    build_domain_template_at(
        "wf-spatial-ar",
        "AR应用设计",
        "增强现实应用概念和交互设计",
        "🥽",
        tags,
        "opc-cto-cto-ai-engineer",
        nodes,
        edges,
        now,
    )
}

/// Prompt of node `a-scene-layout` of `wf-spatial-scene`.
pub const PROMPT_SPATIAL_SCENE_A_SCENE_LAYOUT: &'static str = "规划空间布局和交互区域";

/// Prompt of node `a-scene-build` of `wf-spatial-scene`.
pub const PROMPT_SPATIAL_SCENE_A_SCENE_BUILD: &'static str = "构建3D场景和光照";

/// Prompt of node `a-scene-optimize` of `wf-spatial-scene`.
pub const PROMPT_SPATIAL_SCENE_A_SCENE_OPTIMIZE: &'static str = "优化性能和用户体验";

/// `wf-spatial-scene` (空间场景) as stamped at `now`.
pub open spec fn spatial_scene_view(now: i64) -> TemplateV {
    domain_template_view(
        "wf-spatial-scene"@,
        "空间场景"@,
        "构建沉浸式3D空间场景"@,
        "🏠"@,
        seq!["opc"@, "spatial"@],
        seq![
            trigger_view(250, 0),
            domain_agent_view(
                "a-scene-layout"@,
                "场景规划"@,
                PROMPT_SPATIAL_SCENE_A_SCENE_LAYOUT@,
                Seq::<ToolV>::empty(),
                Some("opc-cto-cto-ai-engineer"@),
                "a-scene-layout_result"@,
                Seq::<(Seq<char>, Seq<char>)>::empty(),
                250,
                150,
            ),
            domain_agent_view(
                "a-scene-build"@,
                "场景构建"@,
                PROMPT_SPATIAL_SCENE_A_SCENE_BUILD@,
                Seq::<ToolV>::empty(),
                Some("opc-cto-cto-ai-engineer"@),
                "a-scene-build_result"@,
                Seq::<(Seq<char>, Seq<char>)>::empty(),
                250,
                350,
            ),
            domain_agent_view(
                "a-scene-optimize"@,
                "优化"@,
                PROMPT_SPATIAL_SCENE_A_SCENE_OPTIMIZE@,
                Seq::<ToolV>::empty(),
                Some("opc-cto-cto-ai-engineer"@),
                "a-scene-optimize_result"@,
                Seq::<(Seq<char>, Seq<char>)>::empty(),
                250,
                550,
            ),
            end_view(250, 750),
        ],
        seq![
            direct_edge("e-trigger-a-scene-layout"@, "trigger"@, "a-scene-layout"@),
            direct_edge("e-a-scene-layout-a-scene-build"@, "a-scene-layout"@, "a-scene-build"@),
            direct_edge("e-a-scene-build-a-scene-optimize"@, "a-scene-build"@, "a-scene-optimize"@),
            direct_edge("e-a-scene-optimize-end"@, "a-scene-optimize"@, "end"@),
        ],
        now,
    )
}

fn spatial_scene(now: i64) -> (t: WorkflowTemplate)
    ensures
        t.view() == spatial_scene_view(now),
{
    let n0 = make_trigger(250, 0);
    let t1: Vec<ToolDef> = vec![];
    assert(tools_view(t1@) =~= Seq::<ToolV>::empty());
    let n1 = make_agent_node(
        "a-scene-layout",
        "场景规划",
        PROMPT_SPATIAL_SCENE_A_SCENE_LAYOUT,
        t1,
        Some("opc-cto-cto-ai-engineer"),
        "a-scene-layout_result",
        250,
        150,
    );
    let t2: Vec<ToolDef> = vec![];
    assert(tools_view(t2@) =~= Seq::<ToolV>::empty());
    let n2 = make_agent_node(
        "a-scene-build",
        "场景构建",
        PROMPT_SPATIAL_SCENE_A_SCENE_BUILD,
        t2,
        Some("opc-cto-cto-ai-engineer"),
        "a-scene-build_result",
        250,
        350,
    );
    let t3: Vec<ToolDef> = vec![];
    assert(tools_view(t3@) =~= Seq::<ToolV>::empty());
    let n3 = make_agent_node(
        "a-scene-optimize",
        "优化",
        PROMPT_SPATIAL_SCENE_A_SCENE_OPTIMIZE,
        t3,
        Some("opc-cto-cto-ai-engineer"),
        "a-scene-optimize_result",
        250,
        550,
    );
    let n4 = make_end(250, 750);
    let nodes = vec![n0, n1, n2, n3, n4];
    assert(nodes_view(nodes@) =~= seq![
        trigger_view(250, 0),
        domain_agent_view(
            "a-scene-layout"@,
            "场景规划"@,
            PROMPT_SPATIAL_SCENE_A_SCENE_LAYOUT@,
            Seq::<ToolV>::empty(),
            Some("opc-cto-cto-ai-engineer"@),
            "a-scene-layout_result"@,
            Seq::<(Seq<char>, Seq<char>)>::empty(),
            250,
            150,
        ),
        domain_agent_view(
            "a-scene-build"@,
            "场景构建"@,
            PROMPT_SPATIAL_SCENE_A_SCENE_BUILD@,
            Seq::<ToolV>::empty(),
            Some("opc-cto-cto-ai-engineer"@),
            "a-scene-build_result"@,
            Seq::<(Seq<char>, Seq<char>)>::empty(),
            250,
            350,
        ),
        domain_agent_view(
            "a-scene-optimize"@,
            "优化"@,
            PROMPT_SPATIAL_SCENE_A_SCENE_OPTIMIZE@,
            Seq::<ToolV>::empty(),
            Some("opc-cto-cto-ai-engineer"@),
            "a-scene-optimize_result"@,
            Seq::<(Seq<char>, Seq<char>)>::empty(),
            250,
            550,
        ),
        end_view(250, 750),
    ]);
    let edges = vec![
        edge("e-trigger-a-scene-layout", "trigger", "a-scene-layout"),
        edge("e-a-scene-layout-a-scene-build", "a-scene-layout", "a-scene-build"),
        edge("e-a-scene-build-a-scene-optimize", "a-scene-build", "a-scene-optimize"),
        edge("e-a-scene-optimize-end", "a-scene-optimize", "end"),
    ];
    assert(edges_view(edges@) =~= seq![
        direct_edge("e-trigger-a-scene-layout"@, "trigger"@, "a-scene-layout"@),
        direct_edge("e-a-scene-layout-a-scene-build"@, "a-scene-layout"@, "a-scene-build"@),
        direct_edge("e-a-scene-build-a-scene-optimize"@, "a-scene-build"@, "a-scene-optimize"@),
        direct_edge("e-a-scene-optimize-end"@, "a-scene-optimize"@, "end"@),
    ]);
    let tags: Vec<String> = vec![string_of("opc"), string_of("spatial")];
    assert(seq_view(tags@) =~= seq!["opc"@, "spatial"@]);
    build_domain_template_at(
        "wf-spatial-scene",
        "空间场景",
        "构建沉浸式3D空间场景",
        "🏠",
        tags,
        "opc-cto-cto-ai-engineer",
        nodes,
        edges,
        now,
    )
}

/// The hand-built workflows of the spatial computing domain, stamped `now`, in order.
pub fn spatial_domain_templates(now: i64) -> (ts: Vec<WorkflowTemplate>)
    ensures
        templates_view(ts@) == seq![spatial_ar_view(now), spatial_scene_view(now)],
{
    let ts = vec![spatial_ar(now), spatial_scene(now)];
    assert(templates_view(ts@) =~= seq![spatial_ar_view(now), spatial_scene_view(now)]);
    ts
}

} // verus!
