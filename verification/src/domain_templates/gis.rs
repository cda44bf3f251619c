use vstd::prelude::*;
use crate::domain_seed::{
    build_domain_template_at, direct_edge, domain_agent_view, domain_template_view, end_view, make_agent_node,
    make_agent_node_with_inputs, make_end, make_trigger, name_tool, templates_view, trigger_view,
};
use crate::text::string_of;
use crate::workflow::{
    edge, edges_view, nodes_view, pair_seq_view, seq_view, td, tools_view, TemplateV, ToolDef, ToolV, WorkflowTemplate,
};

verus! {

/// Prompt of node `a-3d-data` of `wf-gis-3d-scene`.
pub const PROMPT_GIS_3D_SCENE_A_3D_DATA: &'static str = "采集地形、影像和模型数据";

/// Prompt of node `a-3d-scene` of `wf-gis-3d-scene`.
pub const PROMPT_GIS_3D_SCENE_A_3D_SCENE: &'static str = "构建三维场景和光照";

/// Prompt of node `a-3d-publish` of `wf-gis-3d-scene`.
pub const PROMPT_GIS_3D_SCENE_A_3D_PUBLISH: &'static str = "发布交互式三维场景";

/// `wf-gis-3d-scene` (三维场景) as stamped at `now`.
pub open spec fn gis_3d_scene_view(now: i64) -> TemplateV {
    domain_template_view(
        "wf-gis-3d-scene"@,
        "三维场景"@,
        "构建三维地理场景和可视化"@,
        "🏔️"@,
        seq!["opc"@, "gis"@],
        seq![
            trigger_view(250, 0),
            domain_agent_view(
                "a-3d-data"@,
                "数据采集"@,
                PROMPT_GIS_3D_SCENE_A_3D_DATA@,
                Seq::<ToolV>::empty(),
                Some("opc-ceo-ceo-business-strategist"@),
                "a-3d-data_result"@,
                Seq::<(Seq<char>, Seq<char>)>::empty(),
                250,
                150,
            ),
            domain_agent_view(
                "a-3d-scene"@,
                "场景搭建"@,
                PROMPT_GIS_3D_SCENE_A_3D_SCENE@,
                Seq::<ToolV>::empty(),
                Some("opc-ceo-ceo-business-strategist"@),
                "a-3d-scene_result"@,
                Seq::<(Seq<char>, Seq<char>)>::empty(),
                250,
                350,
            ),
            domain_agent_view(
                "a-3d-publish"@,
                "发布"@,
                PROMPT_GIS_3D_SCENE_A_3D_PUBLISH@,
                Seq::<ToolV>::empty(),
                Some("opc-ceo-ceo-business-strategist"@),
                "a-3d-publish_result"@,
                Seq::<(Seq<char>, Seq<char>)>::empty(),
                250,
                550,
            ),
            end_view(250, 750),
        ],
        seq![
            direct_edge("e-trigger-a-3d-data"@, "trigger"@, "a-3d-data"@),
            direct_edge("e-a-3d-data-a-3d-scene"@, "a-3d-data"@, "a-3d-scene"@),
            direct_edge("e-a-3d-scene-a-3d-publish"@, "a-3d-scene"@, "a-3d-publish"@),
            direct_edge("e-a-3d-publish-end"@, "a-3d-publish"@, "end"@),
        ],
        now,
    )
}

fn gis_3d_scene(now: i64) -> (t: WorkflowTemplate)
    ensures
        t.view() == gis_3d_scene_view(now),
{
    let n0 = make_trigger(250, 0);
    let t1: Vec<ToolDef> = vec![];
    assert(tools_view(t1@) =~= Seq::<ToolV>::empty());
    let n1 = make_agent_node(
        "a-3d-data",
        "数据采集",
        PROMPT_GIS_3D_SCENE_A_3D_DATA,
        t1,
        Some("opc-ceo-ceo-business-strategist"),
        "a-3d-data_result",
        250,
        150,
    );
    let t2: Vec<ToolDef> = vec![];
    assert(tools_view(t2@) =~= Seq::<ToolV>::empty());
    let n2 = make_agent_node(
        "a-3d-scene",
        "场景搭建",
        PROMPT_GIS_3D_SCENE_A_3D_SCENE,
        t2,
        Some("opc-ceo-ceo-business-strategist"),
        "a-3d-scene_result",
        250,
        350,
    );
    let t3: Vec<ToolDef> = vec![];
    assert(tools_view(t3@) =~= Seq::<ToolV>::empty());
    let n3 = make_agent_node(
        "a-3d-publish",
        "发布",
        PROMPT_GIS_3D_SCENE_A_3D_PUBLISH,
        t3,
        Some("opc-ceo-ceo-business-strategist"),
        "a-3d-publish_result",
        250,
        550,
    );
    let n4 = make_end(250, 750);
    let nodes = vec![n0, n1, n2, n3, n4];
    assert(nodes_view(nodes@) =~= seq![
        trigger_view(250, 0),
        domain_agent_view(
            "a-3d-data"@,
            "数据采集"@,
            PROMPT_GIS_3D_SCENE_A_3D_DATA@,
            Seq::<ToolV>::empty(),
            Some("opc-ceo-ceo-business-strategist"@),
            "a-3d-data_result"@,
            Seq::<(Seq<char>, Seq<char>)>::empty(),
            250,
            150,
        ),
        domain_agent_view(
            "a-3d-scene"@,
            "场景搭建"@,
            PROMPT_GIS_3D_SCENE_A_3D_SCENE@,
            Seq::<ToolV>::empty(),
            Some("opc-ceo-ceo-business-strategist"@),
            "a-3d-scene_result"@,
            Seq::<(Seq<char>, Seq<char>)>::empty(),
            250,
            350,
        ),
        domain_agent_view(
            "a-3d-publish"@,
            "发布"@,
            PROMPT_GIS_3D_SCENE_A_3D_PUBLISH@,
            Seq::<ToolV>::empty(),
            Some("opc-ceo-ceo-business-strategist"@),
            "a-3d-publish_result"@,
            Seq::<(Seq<char>, Seq<char>)>::empty(),
            250,
            550,
        ),
        end_view(250, 750),
    ]);
    let edges = vec![
        edge("e-trigger-a-3d-data", "trigger", "a-3d-data"),
        edge("e-a-3d-data-a-3d-scene", "a-3d-data", "a-3d-scene"),
        edge("e-a-3d-scene-a-3d-publish", "a-3d-scene", "a-3d-publish"),
        edge("e-a-3d-publish-end", "a-3d-publish", "end"),
    ];
    assert(edges_view(edges@) =~= seq![
        direct_edge("e-trigger-a-3d-data"@, "trigger"@, "a-3d-data"@),
        direct_edge("e-a-3d-data-a-3d-scene"@, "a-3d-data"@, "a-3d-scene"@),
        direct_edge("e-a-3d-scene-a-3d-publish"@, "a-3d-scene"@, "a-3d-publish"@),
        direct_edge("e-a-3d-publish-end"@, "a-3d-publish"@, "end"@),
    ]);
    let tags: Vec<String> = vec![string_of("opc"), string_of("gis")];
    assert(seq_view(tags@) =~= seq!["opc"@, "gis"@]);
    build_domain_template_at(
        "wf-gis-3d-scene",
        "三维场景",
        "构建三维地理场景和可视化",
        "🏔️",
        tags,
        "opc-ceo-ceo-business-strategist",
        nodes,
        edges,
        now,
    )
}

/// Prompt of node `a-gis-data` of `wf-gis-analysis`.
pub const PROMPT_GIS_ANALYSIS_A_GIS_DATA: &'static str = "收集和预处理空间数据";

/// Prompt of node `a-gis-analyze` of `wf-gis-analysis`.
pub const PROMPT_GIS_ANALYSIS_A_GIS_ANALYZE: &'static str = "执行空间分析: 缓冲、叠加、网络";

/// Prompt of node `a-gis-viz` of `wf-gis-analysis`.
pub const PROMPT_GIS_ANALYSIS_A_GIS_VIZ: &'static str = "生成地图和分析报告";

/// `wf-gis-analysis` (空间分析) as stamped at `now`.
pub open spec fn gis_analysis_view(now: i64) -> TemplateV {
    domain_template_view(
        "wf-gis-analysis"@,
        "空间分析"@,
        "地理空间数据分析和可视化"@,
        "🗺️"@,
        seq!["opc"@, "gis"@],
        seq![
            trigger_view(250, 0),
            domain_agent_view(
                "a-gis-data"@,
                "数据准备"@,
                PROMPT_GIS_ANALYSIS_A_GIS_DATA@,
                Seq::<ToolV>::empty(),
                Some("opc-ceo-ceo-business-strategist"@),
                "a-gis-data_result"@,
                Seq::<(Seq<char>, Seq<char>)>::empty(),
                250,
                150,
            ),
            domain_agent_view(
                "a-gis-analyze"@,
                "分析"@,
                PROMPT_GIS_ANALYSIS_A_GIS_ANALYZE@,
                Seq::<ToolV>::empty(),
                Some("opc-ceo-ceo-business-strategist"@),
                "a-gis-analyze_result"@,
                Seq::<(Seq<char>, Seq<char>)>::empty(),
                250,
                350,
            ),
            domain_agent_view(
                "a-gis-viz"@,
                "可视化"@,
                PROMPT_GIS_ANALYSIS_A_GIS_VIZ@,
                Seq::<ToolV>::empty(),
                Some("opc-ceo-ceo-business-strategist"@),
                "a-gis-viz_result"@,
                Seq::<(Seq<char>, Seq<char>)>::empty(),
                250,
                550,
            ),
            end_view(250, 750),
        ],
        seq![
            direct_edge("e-trigger-a-gis-data"@, "trigger"@, "a-gis-data"@),
            direct_edge("e-a-gis-data-a-gis-analyze"@, "a-gis-data"@, "a-gis-analyze"@),
            direct_edge("e-a-gis-analyze-a-gis-viz"@, "a-gis-analyze"@, "a-gis-viz"@),
            direct_edge("e-a-gis-viz-end"@, "a-gis-viz"@, "end"@),
        ],
        now,
    )
}

fn gis_analysis(now: i64) -> (t: WorkflowTemplate)
    ensures
        t.view() == gis_analysis_view(now),
{
    let n0 = make_trigger(250, 0);
    let t1: Vec<ToolDef> = vec![];
    assert(tools_view(t1@) =~= Seq::<ToolV>::empty());
    let n1 = make_agent_node(
        "a-gis-data",
        "数据准备",
        PROMPT_GIS_ANALYSIS_A_GIS_DATA,
        t1,
        Some("opc-ceo-ceo-business-strategist"),
        "a-gis-data_result",
        250,
        150,
    );
    let t2: Vec<ToolDef> = vec![];
    assert(tools_view(t2@) =~= Seq::<ToolV>::empty());
    let n2 = make_agent_node(
        "a-gis-analyze",
        "分析",
        PROMPT_GIS_ANALYSIS_A_GIS_ANALYZE,
        t2,
        Some("opc-ceo-ceo-business-strategist"),
        "a-gis-analyze_result",
        250,
        350,
    );
    let t3: Vec<ToolDef> = vec![];
    assert(tools_view(t3@) =~= Seq::<ToolV>::empty());
    let n3 = make_agent_node(
        "a-gis-viz",
        "可视化",
        PROMPT_GIS_ANALYSIS_A_GIS_VIZ,
        t3,
        Some("opc-ceo-ceo-business-strategist"),
        "a-gis-viz_result",
        250,
        550,
    );
    let n4 = make_end(250, 750);
    let nodes = vec![n0, n1, n2, n3, n4];
    assert(nodes_view(nodes@) =~= seq![
        trigger_view(250, 0),
        domain_agent_view(
            "a-gis-data"@,
            "数据准备"@,
            PROMPT_GIS_ANALYSIS_A_GIS_DATA@,
            Seq::<ToolV>::empty(),
            Some("opc-ceo-ceo-business-strategist"@),
            "a-gis-data_result"@,
            Seq::<(Seq<char>, Seq<char>)>::empty(),
            250,
            150,
        ),
        domain_agent_view(
            "a-gis-analyze"@,
            "分析"@,
            PROMPT_GIS_ANALYSIS_A_GIS_ANALYZE@,
            Seq::<ToolV>::empty(),
            Some("opc-ceo-ceo-business-strategist"@),
            "a-gis-analyze_result"@,
            Seq::<(Seq<char>, Seq<char>)>::empty(),
            250,
            350,
        ),
        domain_agent_view(
            "a-gis-viz"@,
            "可视化"@,
            PROMPT_GIS_ANALYSIS_A_GIS_VIZ@,
            Seq::<ToolV>::empty(),
            Some("opc-ceo-ceo-business-strategist"@),
            "a-gis-viz_result"@,
            Seq::<(Seq<char>, Seq<char>)>::empty(),
            250,
            550,
        ),
        end_view(250, 750),
    ]);
    let edges = vec![
        edge("e-trigger-a-gis-data", "trigger", "a-gis-data"),
        edge("e-a-gis-data-a-gis-analyze", "a-gis-data", "a-gis-analyze"),
        edge("e-a-gis-analyze-a-gis-viz", "a-gis-analyze", "a-gis-viz"),
        edge("e-a-gis-viz-end", "a-gis-viz", "end"),
    ];
    assert(edges_view(edges@) =~= seq![
        direct_edge("e-trigger-a-gis-data"@, "trigger"@, "a-gis-data"@),
        direct_edge("e-a-gis-data-a-gis-analyze"@, "a-gis-data"@, "a-gis-analyze"@),
        direct_edge("e-a-gis-analyze-a-gis-viz"@, "a-gis-analyze"@, "a-gis-viz"@),
        direct_edge("e-a-gis-viz-end"@, "a-gis-viz"@, "end"@),
    ]);
    let tags: Vec<String> = vec![string_of("opc"), string_of("gis")];
    assert(seq_view(tags@) =~= seq!["opc"@, "gis"@]);
    build_domain_template_at(
        "wf-gis-analysis",
        "空间分析",
        "地理空间数据分析和可视化",
        "🗺️",
        tags,
        "opc-ceo-ceo-business-strategist",
        nodes,
        edges,
        now,
    )
}

/// Prompt of node `a-drone-plan` of `wf-gis-drone`.
pub const PROMPT_GIS_DRONE_A_DRONE_PLAN: &'static str = "规划飞行路线和采集参数";

/// Prompt of node `a-drone-process` of `wf-gis-drone`.
pub const PROMPT_GIS_DRONE_A_DRONE_PROCESS: &'static str = "处理航拍影像生成正射影像和DSM";

/// Prompt of node `a-drone-analyze` of `wf-gis-drone`.
pub const PROMPT_GIS_DRONE_A_DRONE_ANALYZE: &'static str = "从测绘数据提取信息";

/// `wf-gis-drone` (无人机测绘) as stamped at `now`.
pub open spec fn gis_drone_view(now: i64) -> TemplateV {
    domain_template_view(
        "wf-gis-drone"@,
        "无人机测绘"@,
        "无人机航拍数据处理和分析"@,
        "🛸"@,
        seq!["opc"@, "gis"@],
        seq![
            trigger_view(250, 0),
            domain_agent_view(
                "a-drone-plan"@,
                "飞行规划"@,
                PROMPT_GIS_DRONE_A_DRONE_PLAN@,
                Seq::<ToolV>::empty(),
                Some("opc-ceo-ceo-business-strategist"@),
                "a-drone-plan_result"@,
                Seq::<(Seq<char>, Seq<char>)>::empty(),
                250,
                150,
            ),
            domain_agent_view(
                "a-drone-process"@,
                "数据处理"@,
                PROMPT_GIS_DRONE_A_DRONE_PROCESS@,
                Seq::<ToolV>::empty(),
                Some("opc-ceo-ceo-business-strategist"@),
                "a-drone-process_result"@,
                Seq::<(Seq<char>, Seq<char>)>::empty(),
                250,
                350,
            ),
            domain_agent_view(
                "a-drone-analyze"@,
                "分析"@,
                PROMPT_GIS_DRONE_A_DRONE_ANALYZE@,
                Seq::<ToolV>::empty(),
                Some("opc-ceo-ceo-business-strategist"@),
                "a-drone-analyze_result"@,
                Seq::<(Seq<char>, Seq<char>)>::empty(),
                250,
                550,
            ),
            end_view(250, 750),
        ],
        seq![
            direct_edge("e-trigger-a-drone-plan"@, "trigger"@, "a-drone-plan"@),
            direct_edge("e-a-drone-plan-a-drone-process"@, "a-drone-plan"@, "a-drone-process"@),
            direct_edge("e-a-drone-process-a-drone-analyze"@, "a-drone-process"@, "a-drone-analyze"@),
            direct_edge("e-a-drone-analyze-end"@, "a-drone-analyze"@, "end"@),
        ],
        now,
    )
}

fn gis_drone(now: i64) -> (t: WorkflowTemplate)
    ensures
        t.view() == gis_drone_view(now),
{
    let n0 = make_trigger(250, 0);
    let t1: Vec<ToolDef> = vec![];
    assert(tools_view(t1@) =~= Seq::<ToolV>::empty());
    let n1 = make_agent_node(
        "a-drone-plan",
        "飞行规划",
        PROMPT_GIS_DRONE_A_DRONE_PLAN,
        t1,
        Some("opc-ceo-ceo-business-strategist"),
        "a-drone-plan_result",
        250,
        150,
    );
    let t2: Vec<ToolDef> = vec![];
    assert(tools_view(t2@) =~= Seq::<ToolV>::empty());
    let n2 = make_agent_node(
        "a-drone-process",
        "数据处理",
        PROMPT_GIS_DRONE_A_DRONE_PROCESS,
        t2,
        Some("opc-ceo-ceo-business-strategist"),
        "a-drone-process_result",
        250,
        350,
    );
    let t3: Vec<ToolDef> = vec![];
    assert(tools_view(t3@) =~= Seq::<ToolV>::empty());
    let n3 = make_agent_node(
        "a-drone-analyze",
        "分析",
        PROMPT_GIS_DRONE_A_DRONE_ANALYZE,
        t3,
        Some("opc-ceo-ceo-business-strategist"),
        "a-drone-analyze_result",
        250,
        550,
    );
    let n4 = make_end(250, 750);
    let nodes = vec![n0, n1, n2, n3, n4];
    assert(nodes_view(nodes@) =~= seq![
        trigger_view(250, 0),
        domain_agent_view(
            "a-drone-plan"@,
            "飞行规划"@,
            PROMPT_GIS_DRONE_A_DRONE_PLAN@,
            Seq::<ToolV>::empty(),
            Some("opc-ceo-ceo-business-strategist"@),
            "a-drone-plan_result"@,
            Seq::<(Seq<char>, Seq<char>)>::empty(),
            250,
            150,
        ),
        domain_agent_view(
            "a-drone-process"@,
            "数据处理"@,
            PROMPT_GIS_DRONE_A_DRONE_PROCESS@,
            Seq::<ToolV>::empty(),
            Some("opc-ceo-ceo-business-strategist"@),
            "a-drone-process_result"@,
            Seq::<(Seq<char>, Seq<char>)>::empty(),
            250,
            350,
        ),
        domain_agent_view(
            "a-drone-analyze"@,
            "分析"@,
            PROMPT_GIS_DRONE_A_DRONE_ANALYZE@,
            Seq::<ToolV>::empty(),
            Some("opc-ceo-ceo-business-strategist"@),
            "a-drone-analyze_result"@,
            Seq::<(Seq<char>, Seq<char>)>::empty(),
            250,
            550,
        ),
        end_view(250, 750),
    ]);
    let edges = vec![
        edge("e-trigger-a-drone-plan", "trigger", "a-drone-plan"),
        edge("e-a-drone-plan-a-drone-process", "a-drone-plan", "a-drone-process"),
        edge("e-a-drone-process-a-drone-analyze", "a-drone-process", "a-drone-analyze"),
        edge("e-a-drone-analyze-end", "a-drone-analyze", "end"),
    ];
    assert(edges_view(edges@) =~= seq![
        direct_edge("e-trigger-a-drone-plan"@, "trigger"@, "a-drone-plan"@),
        direct_edge("e-a-drone-plan-a-drone-process"@, "a-drone-plan"@, "a-drone-process"@),
        direct_edge("e-a-drone-process-a-drone-analyze"@, "a-drone-process"@, "a-drone-analyze"@),
        direct_edge("e-a-drone-analyze-end"@, "a-drone-analyze"@, "end"@),
    ]);
    let tags: Vec<String> = vec![string_of("opc"), string_of("gis")];
    assert(seq_view(tags@) =~= seq!["opc"@, "gis"@]);
    build_domain_template_at(
        "wf-gis-drone",
        "无人机测绘",
        "无人机航拍数据处理和分析",
        "🛸",
        tags,
        "opc-ceo-ceo-business-strategist",
        nodes,
        edges,
        now,
    )
}

/// Prompt of node `a-map-data` of `wf-gis-mapping`.
pub const PROMPT_GIS_MAPPING_A_MAP_DATA: &'static str = "准备基础地理数据和要素";

/// Prompt of node `a-map-design` of `wf-gis-mapping`.
pub const PROMPT_GIS_MAPPING_A_MAP_DESIGN: &'static str = "设计地图样式、符号和标注";

/// Prompt of node `a-map-export` of `wf-gis-mapping`.
pub const PROMPT_GIS_MAPPING_A_MAP_EXPORT: &'static str = "导出地图成品";

/// `wf-gis-mapping` (地图制作) as stamped at `now`.
pub open spec fn gis_mapping_view(now: i64) -> TemplateV {
    domain_template_view(
        "wf-gis-mapping"@,
        "地图制作"@,
        "专业地图制图和符号设计"@,
        "🗺️"@,
        seq!["opc"@, "gis"@],
        seq![
            trigger_view(250, 0),
            domain_agent_view(
                "a-map-data"@,
                "数据准备"@,
                PROMPT_GIS_MAPPING_A_MAP_DATA@,
                Seq::<ToolV>::empty(),
                Some("opc-ceo-ceo-business-strategist"@),
                "a-map-data_result"@,
                Seq::<(Seq<char>, Seq<char>)>::empty(),
                250,
                150,
            ),
            domain_agent_view(
                "a-map-design"@,
                "地图设计"@,
                PROMPT_GIS_MAPPING_A_MAP_DESIGN@,
                Seq::<ToolV>::empty(),
                Some("opc-ceo-ceo-business-strategist"@),
                "a-map-design_result"@,
                Seq::<(Seq<char>, Seq<char>)>::empty(),
                250,
                350,
            ),
            domain_agent_view(
                "a-map-export"@,
                "输出"@,
                PROMPT_GIS_MAPPING_A_MAP_EXPORT@,
                Seq::<ToolV>::empty(),
                Some("opc-ceo-ceo-business-strategist"@),
                "a-map-export_result"@,
                Seq::<(Seq<char>, Seq<char>)>::empty(),
                250,
                550,
            ),
            end_view(250, 750),
        ],
        seq![
            direct_edge("e-trigger-a-map-data"@, "trigger"@, "a-map-data"@),
            direct_edge("e-a-map-data-a-map-design"@, "a-map-data"@, "a-map-design"@),
            direct_edge("e-a-map-design-a-map-export"@, "a-map-design"@, "a-map-export"@),
            direct_edge("e-a-map-export-end"@, "a-map-export"@, "end"@),
        ],
        now,
    )
}

fn gis_mapping(now: i64) -> (t: WorkflowTemplate)
    ensures
        t.view() == gis_mapping_view(now),
{
    let n0 = make_trigger(250, 0);
    let t1: Vec<ToolDef> = vec![];
    assert(tools_view(t1@) =~= Seq::<ToolV>::empty());
    let n1 = make_agent_node(
        "a-map-data",
        "数据准备",
        PROMPT_GIS_MAPPING_A_MAP_DATA,
        t1,
        Some("opc-ceo-ceo-business-strategist"),
        "a-map-data_result",
        250,
        150,
    );
    let t2: Vec<ToolDef> = vec![];
    assert(tools_view(t2@) =~= Seq::<ToolV>::empty());
    let n2 = make_agent_node(
        "a-map-design",
        "地图设计",
        PROMPT_GIS_MAPPING_A_MAP_DESIGN,
        t2,
        Some("opc-ceo-ceo-business-strategist"),
        "a-map-design_result",
        250,
        350,
    );
    let t3: Vec<ToolDef> = vec![];
    assert(tools_view(t3@) =~= Seq::<ToolV>::empty());
    let n3 = make_agent_node(
        "a-map-export",
        "输出",
        PROMPT_GIS_MAPPING_A_MAP_EXPORT,
        t3,
        Some("opc-ceo-ceo-business-strategist"),
        "a-map-export_result",
        250,
        550,
    );
    let n4 = make_end(250, 750);
    let nodes = vec![n0, n1, n2, n3, n4];
    assert(nodes_view(nodes@) =~= seq![
        trigger_view(250, 0),
        domain_agent_view(
            "a-map-data"@,
            "数据准备"@,
            PROMPT_GIS_MAPPING_A_MAP_DATA@,
            Seq::<ToolV>::empty(),
            Some("opc-ceo-ceo-business-strategist"@),
            "a-map-data_result"@,
            Seq::<(Seq<char>, Seq<char>)>::empty(),
            250,
            150,
        ),
        domain_agent_view(
            "a-map-design"@,
            "地图设计"@,
            PROMPT_GIS_MAPPING_A_MAP_DESIGN@,
            Seq::<ToolV>::empty(),
            Some("opc-ceo-ceo-business-strategist"@),
            "a-map-design_result"@,
            Seq::<(Seq<char>, Seq<char>)>::empty(),
            250,
            350,
        ),
        domain_agent_view(
            "a-map-export"@,
            "输出"@,
            PROMPT_GIS_MAPPING_A_MAP_EXPORT@,
            Seq::<ToolV>::empty(),
            Some("opc-ceo-ceo-business-strategist"@),
            "a-map-export_result"@,
            Seq::<(Seq<char>, Seq<char>)>::empty(),
            250,
            550,
        ),
        end_view(250, 750),
    ]);
    let edges = vec![
        edge("e-trigger-a-map-data", "trigger", "a-map-data"),
        edge("e-a-map-data-a-map-design", "a-map-data", "a-map-design"),
        edge("e-a-map-design-a-map-export", "a-map-design", "a-map-export"),
        edge("e-a-map-export-end", "a-map-export", "end"),
    ];
    assert(edges_view(edges@) =~= seq![
        direct_edge("e-trigger-a-map-data"@, "trigger"@, "a-map-data"@),
        direct_edge("e-a-map-data-a-map-design"@, "a-map-data"@, "a-map-design"@),
        direct_edge("e-a-map-design-a-map-export"@, "a-map-design"@, "a-map-export"@),
        direct_edge("e-a-map-export-end"@, "a-map-export"@, "end"@),
    ]);
    let tags: Vec<String> = vec![string_of("opc"), string_of("gis")];
    assert(seq_view(tags@) =~= seq!["opc"@, "gis"@]);
    build_domain_template_at(
        "wf-gis-mapping",
        "地图制作",
        "专业地图制图和符号设计",
        "🗺️",
        tags,
        "opc-ceo-ceo-business-strategist",
        nodes,
        edges,
        now,
    )
}

/// The hand-built workflows of the GIS domain, stamped `now`, in order.
pub fn gis_domain_templates(now: i64) -> (ts: Vec<WorkflowTemplate>)
    ensures
        templates_view(ts@) == seq![gis_3d_scene_view(now), gis_analysis_view(now), gis_drone_view(now), gis_mapping_view(now)],
{
    let ts = vec![gis_3d_scene(now), gis_analysis(now), gis_drone(now), gis_mapping(now)];
    assert(templates_view(ts@) =~= seq![gis_3d_scene_view(now), gis_analysis_view(now), gis_drone_view(now), gis_mapping_view(now)]);
    ts
}

} // verus!
