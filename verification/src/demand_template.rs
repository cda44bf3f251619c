use vstd::prelude::*;
use crate::domain_seed::direct_edge;
use crate::opc_setup::{tool_prompt, tool_prompt_text, DEMAND_TEMPLATE_ID, DEMAND_TEMPLATE_VERSION};
use crate::text::{push_str, string_of};
use crate::workflow::{edge, edges_view, make_base, opt_view, pair_seq_view, seq_view, BaseV, NodeBase, WorkflowEdge};

verus! {

/// The kinds of node the demand-discovery template uses.
#[derive(PartialEq, Eq, Structural, Clone, Copy, Debug)]
pub enum DemandNodeKind {
    Trigger,
    /// Fetches data with one tool.
    Tool,
    Agent,
    /// A container whose branches run side by side.
    Parallel,
    Notification,
    End,
}

/// Retry settings (exponential backoff): attempts and, where set, the
/// delays; unset delays are the engine's defaults.
#[derive(PartialEq, Eq, Structural, Clone, Copy, Debug)]
pub struct RetryPolicy {
    pub max_retries: u32,
    pub base_delay_ms: Option<u64>,
    pub max_delay_ms: Option<u64>,
}

/// A branch of a parallel container: the nodes it runs, in order.
#[derive(Debug)]
pub struct ParallelBranch {
    pub id: String,
    pub title: String,
    pub steps: Vec<String>,
}

/// A node of the demand-discovery template; the fields a kind does not
/// use are empty. Agents also run at temperature 0.3, which the host sets.
#[derive(Debug)]
pub struct DemandNode {
    pub kind: DemandNodeKind,
    pub base: NodeBase,
    pub parent_id: Option<String>,
    /// `None`: the engine's default retry.
    pub retry: Option<RetryPolicy>,
    pub timeout_secs: Option<u64>,
    pub tool_name: Option<String>,
    /// Input name and where it is read from (a map: no name twice).
    pub input_mapping: Vec<(String, String)>,
    pub output_var: Option<String>,
    pub system_prompt: String,
    pub context_sources: Vec<String>,
    /// The tools an agent may call, by name.
    pub tools: Vec<String>,
    pub agent_profile_id: Option<String>,
    pub model_role: Option<String>,
    pub max_tokens: Option<u32>,
    pub max_tool_rounds: Option<u32>,
    pub stream_chunk_timeout_secs: Option<u64>,
    pub branches: Vec<ParallelBranch>,
    pub channel: Option<String>,
    pub message: Option<String>,
    pub recipients: Vec<String>,
    pub subject: Option<String>,
}

/// One property of an object schema.
#[derive(Debug)]
pub struct SchemaProperty {
    pub name: String,
    pub prop_type: String,
    pub description: String,
    pub default: Option<String>,
}

/// An object schema: its properties and the required ones.
#[derive(Debug)]
pub struct ObjectSchema {
    pub description: Option<String>,
    pub properties: Vec<SchemaProperty>,
    pub required: Vec<String>,
}

/// A tool the template's agents may call.
#[derive(Debug)]
pub struct DemandToolDef {
    pub name: String,
    pub description: String,
    pub parameters: ObjectSchema,
}

/// A template variable and its starting value.
#[derive(Debug)]
pub struct TemplateVariable {
    pub name: String,
    pub description: String,
    pub value: String,
    pub var_type: String,
}

/// The demand-discovery workflow template.
#[derive(Debug)]
pub struct DemandTemplate {
    pub id: String,
    pub name: String,
    pub description: String,
    pub icon: String,
    pub tags: Vec<String>,
    pub version: i32,
    pub is_preset: bool,
    pub is_editable: bool,
    pub is_public: bool,
    /// The manual trigger's description template.
    pub trigger_description: String,
    pub nodes: Vec<DemandNode>,
    pub edges: Vec<WorkflowEdge>,
    pub tool_defs: Vec<DemandToolDef>,
    pub input_schema: ObjectSchema,
    pub output_schema: ObjectSchema,
    pub variables: Vec<TemplateVariable>,
    /// The error policy as JSON text.
    pub error_config: String,
    pub created_at: i64,
    pub updated_at: i64,
}

pub struct DemandNodeV {
    pub kind: DemandNodeKind,
    pub base: BaseV,
    pub parent_id: Option<Seq<char>>,
    pub retry: Option<RetryPolicy>,
    pub timeout_secs: Option<u64>,
    pub tool_name: Option<Seq<char>>,
    pub input_mapping: Seq<(Seq<char>, Seq<char>)>,
    pub output_var: Option<Seq<char>>,
    pub system_prompt: Seq<char>,
    pub context_sources: Seq<Seq<char>>,
    pub tools: Seq<Seq<char>>,
    pub agent_profile_id: Option<Seq<char>>,
    pub model_role: Option<Seq<char>>,
    pub max_tokens: Option<u32>,
    pub max_tool_rounds: Option<u32>,
    pub stream_chunk_timeout_secs: Option<u64>,
    pub branches: Seq<(Seq<char>, Seq<char>, Seq<Seq<char>>)>,
    pub channel: Option<Seq<char>>,
    pub message: Option<Seq<char>>,
    pub recipients: Seq<Seq<char>>,
    pub subject: Option<Seq<char>>,
}

pub open spec fn branches_view(bs: Seq<ParallelBranch>) -> Seq<(Seq<char>, Seq<char>, Seq<Seq<char>>)> {
    bs.map_values(|b: ParallelBranch| (b.id@, b.title@, seq_view(b.steps@)))
}

impl DemandNode {
    pub open spec fn view(&self) -> DemandNodeV {
        DemandNodeV {
            kind: self.kind,
            base: self.base.view(),
            parent_id: opt_view(self.parent_id),
            retry: self.retry,
            timeout_secs: self.timeout_secs,
            tool_name: opt_view(self.tool_name),
            input_mapping: pair_seq_view(self.input_mapping@),
            output_var: opt_view(self.output_var),
            system_prompt: self.system_prompt@,
            context_sources: seq_view(self.context_sources@),
            tools: seq_view(self.tools@),
            agent_profile_id: opt_view(self.agent_profile_id),
            model_role: opt_view(self.model_role),
            max_tokens: self.max_tokens,
            max_tool_rounds: self.max_tool_rounds,
            stream_chunk_timeout_secs: self.stream_chunk_timeout_secs,
            branches: branches_view(self.branches@),
            channel: opt_view(self.channel),
            message: opt_view(self.message),
            recipients: seq_view(self.recipients@),
            subject: opt_view(self.subject),
        }
    }
}

pub open spec fn props_view(ps: Seq<SchemaProperty>) -> Seq<(Seq<char>, Seq<char>, Seq<char>, Option<Seq<char>>)> {
    ps.map_values(|p: SchemaProperty| (p.name@, p.prop_type@, p.description@, opt_view(p.default)))
}

pub struct SchemaV {
    pub description: Option<Seq<char>>,
    pub properties: Seq<(Seq<char>, Seq<char>, Seq<char>, Option<Seq<char>>)>,
    pub required: Seq<Seq<char>>,
}

impl ObjectSchema {
    pub open spec fn view(&self) -> SchemaV {
        SchemaV {
            description: opt_view(self.description),
            properties: props_view(self.properties@),
            required: seq_view(self.required@),
        }
    }
}

pub open spec fn tool_defs_view(ts: Seq<DemandToolDef>) -> Seq<(Seq<char>, Seq<char>, SchemaV)> {
    ts.map_values(|t: DemandToolDef| (t.name@, t.description@, t.parameters.view()))
}

pub open spec fn variables_view(vs: Seq<TemplateVariable>) -> Seq<(Seq<char>, Seq<char>, Seq<char>, Seq<char>)> {
    vs.map_values(|v: TemplateVariable| (v.name@, v.description@, v.value@, v.var_type@))
}

pub open spec fn demand_nodes_view(ns: Seq<DemandNode>) -> Seq<DemandNodeV> {
    ns.map_values(|n: DemandNode| n.view())
}

pub struct DemandTemplateV {
    pub id: Seq<char>,
    pub name: Seq<char>,
    pub description: Seq<char>,
    pub icon: Seq<char>,
    pub tags: Seq<Seq<char>>,
    pub version: i32,
    pub is_preset: bool,
    pub is_editable: bool,
    pub is_public: bool,
    pub trigger_description: Seq<char>,
    pub nodes: Seq<DemandNodeV>,
    pub edges: Seq<crate::workflow::EdgeV>,
    pub tool_defs: Seq<(Seq<char>, Seq<char>, SchemaV)>,
    pub input_schema: SchemaV,
    pub output_schema: SchemaV,
    pub variables: Seq<(Seq<char>, Seq<char>, Seq<char>, Seq<char>)>,
    pub error_config: Seq<char>,
    pub created_at: i64,
    pub updated_at: i64,
}

impl DemandTemplate {
    pub open spec fn view(&self) -> DemandTemplateV {
        DemandTemplateV {
            id: self.id@,
            name: self.name@,
            description: self.description@,
            icon: self.icon@,
            tags: seq_view(self.tags@),
            version: self.version,
            is_preset: self.is_preset,
            is_editable: self.is_editable,
            is_public: self.is_public,
            trigger_description: self.trigger_description@,
            nodes: demand_nodes_view(self.nodes@),
            edges: edges_view(self.edges@),
            tool_defs: tool_defs_view(self.tool_defs@),
            input_schema: self.input_schema.view(),
            output_schema: self.output_schema.view(),
            variables: variables_view(self.variables@),
            error_config: self.error_config@,
            created_at: self.created_at,
            updated_at: self.updated_at,
        }
    }
}

fn strings(v: Vec<&str>) -> (r: Vec<String>)
    ensures
        seq_view(r@) == v@.map_values(|s: &str| s@),
{
    let mut r: Vec<String> = Vec::new();
    let mut i: usize = 0;
    while i < v.len()
        invariant
            i <= v.len(),
            seq_view(r@) == v@.take(i as int).map_values(|s: &str| s@),
        decreases v.len() - i,
    {
        let ghost before = r@;
        r.push(string_of(v[i]));
        assert(seq_view(r@) =~= seq_view(before).push(v@[i as int]@));
        assert(v@.take(i + 1).map_values(|s: &str| s@) =~= v@.take(i as int).map_values(|s: &str| s@).push(v@[i as int]@));
        i = i + 1;
    }
    assert(v@.take(v.len() as int) =~= v@);
    r
}

fn opt_string(o: Option<&str>) -> (r: Option<String>)
    ensures
        opt_view(r) == match o {
            Some(s) => Some(s@),
            None => None,
        },
{
    match o {
        Some(s) => Some(string_of(s)),
        None => None,
    }
}

fn prop(name: &str, prop_type: &str, description: &str, default: Option<&str>) -> (p: SchemaProperty)
    ensures
        p.name@ == name@,
        p.prop_type@ == prop_type@,
        p.description@ == description@,
        opt_view(p.default) == match default {
            Some(s) => Some(s@),
            None => None,
        },
{
    SchemaProperty {
        name: string_of(name),
        prop_type: string_of(prop_type),
        description: string_of(description),
        default: opt_string(default),
    }
}

/// Analyst `i` of the demand template: the tool column is `x`, its agent
/// sits 240 to the right, rows are 180 apart from y = 100, three per row.
pub open spec fn analyst_x(i: int) -> int {
    if i % 3 == 0 {
        40
    } else if i % 3 == 1 {
        520
    } else {
        1000
    }
}

pub open spec fn analyst_y(i: int) -> int {
    100 + (i / 3) * 180
}


/// The fixed part of the prompt of agent `a-cmo-analysis` (the tools line follows).
pub const DEMAND_PROMPT_A_CMO_ANALYSIS: &'static str = "你的任务: 营销增长分析\n\n重要原则：\n1. 如果上游数据节点返回为空，请主动调用可用工具获取补充数据。\n2. 如果经过补充获取仍然无法获得某些数据，请在分析报告中诚实标记该维度数据获取失败的状态，并评估该缺失对分析结论的影响程度。\n3. 始终针对需求给出明确的观点和论据。\n你的任务：分析当前市场机会和增长方向。\n\n重要原则：\n1. 基于现有客户数据和内容表现，识别市场趋势\n2. 分析客户画像，识别未满足的需求\n3. 评估现有内容渠道的ROI，给出优化建议\n4. 输出结构化的增长分析报告\n\n输出格式：\n- 市场趋势判断\n- 目标客户画像\n- 增长机会点\n- 优先级建议（P0/P1/P2）";

/// The fixed part of the prompt of agent `a-cpo-analysis` (the tools line follows).
pub const DEMAND_PROMPT_A_CPO_ANALYSIS: &'static str = "你的任务: 产品需求分析\n\n重要原则：\n1. 如果上游数据节点返回为空，请主动调用可用工具获取补充数据。\n2. 如果经过补充获取仍然无法获得某些数据，请在分析报告中诚实标记该维度数据获取失败的状态，并评估该缺失对分析结论的影响程度。\n3. 始终针对需求给出明确的观点和论据。\n你的任务：分析产品方向和需求优先级。\n\n重要原则：\n1. 基于现有项目进度和客户反馈，识别产品缺口\n2. 分析用户故事和使用场景，提炼核心需求\n3. 评估需求优先级（价值/成本/风险）\n4. 输出产品路线图建议\n\n输出格式：\n- 需求清单（用户故事）\n- 优先级矩阵\n- MVP 范围建议\n- 技术依赖关系";

/// The fixed part of the prompt of agent `a-cto-analysis` (the tools line follows).
pub const DEMAND_PROMPT_A_CTO_ANALYSIS: &'static str = "你的任务: 技术可行性评估\n\n重要原则：\n1. 如果上游数据节点返回为空，请主动调用可用工具获取补充数据。\n2. 如果经过补充获取仍然无法获得某些数据，请在分析报告中诚实标记该维度数据获取失败的状态，并评估该缺失对分析结论的影响程度。\n3. 始终针对需求给出明确的观点和论据。\n你的任务：评估技术实现可行性和风险。\n\n重要原则：\n1. 分析现有技术栈和项目依赖\n2. 评估新技术需求的实现复杂度\n3. 识别技术风险和约束\n4. 给出技术方案建议\n\n输出格式：\n- 技术可行性评估\n- 实现路径建议\n- 风险清单\n- 工时估算";

/// The fixed part of the prompt of agent `a-cfo-analysis` (the tools line follows).
pub const DEMAND_PROMPT_A_CFO_ANALYSIS: &'static str = "你的任务: 财务可行性评估\n\n重要原则：\n1. 如果上游数据节点返回为空，请主动调用可用工具获取补充数据。\n2. 如果经过补充获取仍然无法获得某些数据，请在分析报告中诚实标记该维度数据获取失败的状态，并评估该缺失对分析结论的影响程度。\n3. 始终针对需求给出明确的观点和论据。\n你的任务：评估财务可行性和投资回报。\n\n重要原则：\n1. 基于现有财务数据和经营状况，评估资金可用性\n2. 估算新项目的收入预测和成本结构\n3. 计算关键财务指标（ROI、回收期、盈亏平衡点）\n4. 给出财务决策建议\n\n输出格式：\n- 财务可行性评估\n- 投资回报分析\n- 现金流预测\n- 财务风险清单";

/// The fixed part of the prompt of agent `a-coo-analysis` (the tools line follows).
pub const DEMAND_PROMPT_A_COO_ANALYSIS: &'static str = "你的任务: 运营可行性评估\n\n重要原则：\n1. 如果上游数据节点返回为空，请主动调用可用工具获取补充数据。\n2. 如果经过补充获取仍然无法获得某些数据，请在分析报告中诚实标记该维度数据获取失败的状态，并评估该缺失对分析结论的影响程度。\n3. 始终针对需求给出明确的观点和论据。\n你的任务：评估运营可行性和交付能力。\n\n重要原则：\n1. 分析现有项目负载和资源占用\n2. 评估新项目对运营资源的影响\n3. 识别运营瓶颈和风险\n4. 给出运营调整建议\n\n输出格式：\n- 运营资源评估\n- 交付能力分析\n- 运营风险清单\n- 资源调整建议";

/// The fixed part of the prompt of agent `a-ceo-analysis` (the tools line follows).
pub const DEMAND_PROMPT_A_CEO_ANALYSIS: &'static str = "你的任务: 综合分析\n\n重要原则：\n1. 如果上游数据节点返回为空，请主动调用可用工具获取补充数据。\n2. 如果经过补充获取仍然无法获得某些数据，请在分析报告中诚实标记该维度数据获取失败的状态，并评估该缺失对分析结论的影响程度。\n3. 始终针对需求给出明确的观点和论据。\n你的任务：综合所有维度分析结果，给出战略建议。\n\n重要原则：\n1. 汇总各维度分析结论（营销/产品/技术/财务/运营）\n2. 识别各维度的关键洞察和矛盾点\n3. 从战略层面评估需求的商业价值\n4. 给出优先级建议和资源分配方案\n\n输出格式：\n- 战略价值评估\n- 关键成功因素\n- 资源需求清单\n- 优先级建议";

/// The fixed part of the prompt of agent `a-ceo-decision` (the tools line follows).
pub const DEMAND_PROMPT_A_CEO_DECISION: &'static str = "你的任务: 综合决策\n\n重要原则：\n1. 汇总各维度分析结论（营销/产品/技术/财务/运营）\n2. 识别各维度的关键洞察和矛盾点\n3. 做出 go/no-go 决策，明确支持条件\n4. 输出行动计划和责任分配\n你的任务：综合所有分析结果，做出最终决策。\n\n重要原则：\n1. 汇总各维度分析结论（营销/产品/技术/财务/运营）\n2. 识别各维度的关键洞察和矛盾点\n3. 做出 go/no-go 决策，明确支持条件\n4. 输出行动计划和责任分配\n\n输出格式：\n- 决策结论（GO/NO-GO/CONDITIONAL GO）\n- 关键决策因素\n- 行动清单（按优先级）\n- 责任分配和时间线\n- 风险缓解措施";

/// Node `trigger` of the demand template.
pub open spec fn demand_node_0_view() -> DemandNodeV {
    DemandNodeV {
        kind: DemandNodeKind::Trigger,
        base: BaseV { id: "trigger"@, title: "开始需求发现"@, description: "手动触发需求发现流程"@, x: 520, y: 0 },
        parent_id: None,
        retry: None,
        timeout_secs: None,
        tool_name: None,
        input_mapping: Seq::<(Seq<char>, Seq<char>)>::empty(),
        output_var: None,
        system_prompt: Seq::<char>::empty(),
        context_sources: Seq::<Seq<char>>::empty(),
        tools: Seq::<Seq<char>>::empty(),
        agent_profile_id: None,
        model_role: None,
        max_tokens: None,
        max_tool_rounds: None,
        stream_chunk_timeout_secs: None,
        branches: Seq::<(Seq<char>, Seq<char>, Seq<Seq<char>>)>::empty(),
        channel: None,
        message: None,
        recipients: Seq::<Seq<char>>::empty(),
        subject: None,
    }
}

fn demand_node_0() -> (n: DemandNode)
    ensures
        n.view() == demand_node_0_view(),
{
    let base = make_base("trigger", "开始需求发现", "手动触发需求发现流程", 520, 0);
    let tools: Vec<String> = Vec::new();
    assert(seq_view(tools@) =~= Seq::<Seq<char>>::empty());
    let system_prompt = String::new();
    let input_mapping: Vec<(String, String)> = vec![];
    assert(pair_seq_view(input_mapping@) =~= Seq::<(Seq<char>, Seq<char>)>::empty());
    let context_sources = strings(vec![]);
    assert(seq_view(context_sources@) =~= Seq::<Seq<char>>::empty());
    let recipients = strings(vec![]);
    assert(seq_view(recipients@) =~= Seq::<Seq<char>>::empty());
    let branches: Vec<ParallelBranch> = vec![];
    assert(branches_view(branches@) =~= Seq::<(Seq<char>, Seq<char>, Seq<Seq<char>>)>::empty());
    DemandNode {
        kind: DemandNodeKind::Trigger,
        base,
        parent_id: opt_string(None),
        retry: None,
        timeout_secs: None,
        tool_name: opt_string(None),
        input_mapping,
        output_var: opt_string(None),
        system_prompt,
        context_sources,
        tools,
        agent_profile_id: opt_string(None),
        model_role: opt_string(None),
        max_tokens: None,
        max_tool_rounds: None,
        stream_chunk_timeout_secs: None,
        branches,
        channel: opt_string(None),
        message: opt_string(None),
        recipients,
        subject: opt_string(None),
    }
}

/// Node `t-customers-data` of the demand template.
pub open spec fn demand_node_1_view() -> DemandNodeV {
    DemandNodeV {
        kind: DemandNodeKind::Tool,
        base: BaseV { id: "t-customers-data"@, title: "获取客户数据"@, description: "获取数据: OpcListCustomers"@, x: 40, y: 100 },
        parent_id: Some("p-analysts"@),
        retry: Some(RetryPolicy { max_retries: 2u32, base_delay_ms: Some(1000u64), max_delay_ms: Some(10000u64) }),
        timeout_secs: None,
        tool_name: Some("OpcListCustomers"@),
        input_mapping: seq![("status"@, "all"@)],
        output_var: Some("t-customers-data"@),
        system_prompt: Seq::<char>::empty(),
        context_sources: Seq::<Seq<char>>::empty(),
        tools: Seq::<Seq<char>>::empty(),
        agent_profile_id: None,
        model_role: None,
        max_tokens: None,
        max_tool_rounds: None,
        stream_chunk_timeout_secs: None,
        branches: Seq::<(Seq<char>, Seq<char>, Seq<Seq<char>>)>::empty(),
        channel: None,
        message: None,
        recipients: Seq::<Seq<char>>::empty(),
        subject: None,
    }
}

fn demand_node_1() -> (n: DemandNode)
    ensures
        n.view() == demand_node_1_view(),
{
    let base = make_base("t-customers-data", "获取客户数据", "获取数据: OpcListCustomers", 40, 100);
    let tools: Vec<String> = Vec::new();
    assert(seq_view(tools@) =~= Seq::<Seq<char>>::empty());
    let system_prompt = String::new();
    let input_mapping: Vec<(String, String)> = vec![(string_of("status"), string_of("all"))];
    assert(pair_seq_view(input_mapping@) =~= seq![("status"@, "all"@)]);
    let context_sources = strings(vec![]);
    assert(seq_view(context_sources@) =~= Seq::<Seq<char>>::empty());
    let recipients = strings(vec![]);
    assert(seq_view(recipients@) =~= Seq::<Seq<char>>::empty());
    let branches: Vec<ParallelBranch> = vec![];
    assert(branches_view(branches@) =~= Seq::<(Seq<char>, Seq<char>, Seq<Seq<char>>)>::empty());
    DemandNode {
        kind: DemandNodeKind::Tool,
        base,
        parent_id: opt_string(Some("p-analysts")),
        retry: Some(RetryPolicy { max_retries: 2, base_delay_ms: Some(1000), max_delay_ms: Some(10000) }),
        timeout_secs: None,
        tool_name: opt_string(Some("OpcListCustomers")),
        input_mapping,
        output_var: opt_string(Some("t-customers-data")),
        system_prompt,
        context_sources,
        tools,
        agent_profile_id: opt_string(None),
        model_role: opt_string(None),
        max_tokens: None,
        max_tool_rounds: None,
        stream_chunk_timeout_secs: None,
        branches,
        channel: opt_string(None),
        message: opt_string(None),
        recipients,
        subject: opt_string(None),
    }
}

/// Node `a-cmo-analysis` of the demand template.
pub open spec fn demand_node_2_view() -> DemandNodeV {
    DemandNodeV {
        kind: DemandNodeKind::Agent,
        base: BaseV { id: "a-cmo-analysis"@, title: "营销增长分析"@, description: "需求发现: cmo-content-strategist"@, x: 280, y: 100 },
        parent_id: Some("p-analysts"@),
        retry: Some(RetryPolicy { max_retries: 3u32, base_delay_ms: Some(3000u64), max_delay_ms: Some(60000u64) }),
        timeout_secs: None,
        tool_name: None,
        input_mapping: seq![("demand_description"@, "demand_description"@)],
        output_var: Some("a-cmo-analysis"@),
        system_prompt: DEMAND_PROMPT_A_CMO_ANALYSIS@ + tool_prompt_text(seq!["OpcListCustomers"@, "OpcListBlogPosts"@, "OpcGetDashboard"@, "OpcSearchWiki"@]),
        context_sources: seq!["t-customers-data"@],
        tools: seq!["OpcListCustomers"@, "OpcListBlogPosts"@, "OpcGetDashboard"@, "OpcSearchWiki"@],
        agent_profile_id: Some("opc-cmo-content-strategist"@),
        model_role: Some("cmo"@),
        max_tokens: Some(32768u32),
        max_tool_rounds: Some(2u32),
        stream_chunk_timeout_secs: Some(300u64),
        branches: Seq::<(Seq<char>, Seq<char>, Seq<Seq<char>>)>::empty(),
        channel: None,
        message: None,
        recipients: Seq::<Seq<char>>::empty(),
        subject: None,
    }
}

fn demand_node_2() -> (n: DemandNode)
    ensures
        n.view() == demand_node_2_view(),
{
    let base = make_base("a-cmo-analysis", "营销增长分析", "需求发现: cmo-content-strategist", 280, 100);
    let tools = strings(vec!["OpcListCustomers", "OpcListBlogPosts", "OpcGetDashboard", "OpcSearchWiki"]);
    assert(seq_view(tools@) =~= seq!["OpcListCustomers"@, "OpcListBlogPosts"@, "OpcGetDashboard"@, "OpcSearchWiki"@]);
    let mut system_prompt = string_of(DEMAND_PROMPT_A_CMO_ANALYSIS);
    let line = tool_prompt(&tools);
    push_str(&mut system_prompt, line.as_str());
    let input_mapping: Vec<(String, String)> = vec![(string_of("demand_description"), string_of("demand_description"))];
    assert(pair_seq_view(input_mapping@) =~= seq![("demand_description"@, "demand_description"@)]);
    let context_sources = strings(vec!["t-customers-data"]);
    assert(seq_view(context_sources@) =~= seq!["t-customers-data"@]);
    let recipients = strings(vec![]);
    assert(seq_view(recipients@) =~= Seq::<Seq<char>>::empty());
    let branches: Vec<ParallelBranch> = vec![];
    assert(branches_view(branches@) =~= Seq::<(Seq<char>, Seq<char>, Seq<Seq<char>>)>::empty());
    DemandNode {
        kind: DemandNodeKind::Agent,
        base,
        parent_id: opt_string(Some("p-analysts")),
        retry: Some(RetryPolicy { max_retries: 3, base_delay_ms: Some(3000), max_delay_ms: Some(60000) }),
        timeout_secs: None,
        tool_name: opt_string(None),
        input_mapping,
        output_var: opt_string(Some("a-cmo-analysis")),
        system_prompt,
        context_sources,
        tools,
        agent_profile_id: opt_string(Some("opc-cmo-content-strategist")),
        model_role: opt_string(Some("cmo")),
        max_tokens: Some(32768),
        max_tool_rounds: Some(2),
        stream_chunk_timeout_secs: Some(300),
        branches,
        channel: opt_string(None),
        message: opt_string(None),
        recipients,
        subject: opt_string(None),
    }
}

/// Node `t-projects-data` of the demand template.
pub open spec fn demand_node_3_view() -> DemandNodeV {
    DemandNodeV {
        kind: DemandNodeKind::Tool,
        base: BaseV { id: "t-projects-data"@, title: "获取项目数据"@, description: "获取数据: OpcListProjects"@, x: 520, y: 100 },
        parent_id: Some("p-analysts"@),
        retry: Some(RetryPolicy { max_retries: 2u32, base_delay_ms: Some(1000u64), max_delay_ms: Some(10000u64) }),
        timeout_secs: None,
        tool_name: Some("OpcListProjects"@),
        input_mapping: seq![("status"@, "all"@)],
        output_var: Some("t-projects-data"@),
        system_prompt: Seq::<char>::empty(),
        context_sources: Seq::<Seq<char>>::empty(),
        tools: Seq::<Seq<char>>::empty(),
        agent_profile_id: None,
        model_role: None,
        max_tokens: None,
        max_tool_rounds: None,
        stream_chunk_timeout_secs: None,
        branches: Seq::<(Seq<char>, Seq<char>, Seq<Seq<char>>)>::empty(),
        channel: None,
        message: None,
        recipients: Seq::<Seq<char>>::empty(),
        subject: None,
    }
}

fn demand_node_3() -> (n: DemandNode)
    ensures
        n.view() == demand_node_3_view(),
{
    let base = make_base("t-projects-data", "获取项目数据", "获取数据: OpcListProjects", 520, 100);
    let tools: Vec<String> = Vec::new();
    assert(seq_view(tools@) =~= Seq::<Seq<char>>::empty());
    let system_prompt = String::new();
    let input_mapping: Vec<(String, String)> = vec![(string_of("status"), string_of("all"))];
    assert(pair_seq_view(input_mapping@) =~= seq![("status"@, "all"@)]);
    let context_sources = strings(vec![]);
    assert(seq_view(context_sources@) =~= Seq::<Seq<char>>::empty());
    let recipients = strings(vec![]);
    assert(seq_view(recipients@) =~= Seq::<Seq<char>>::empty());
    let branches: Vec<ParallelBranch> = vec![];
    assert(branches_view(branches@) =~= Seq::<(Seq<char>, Seq<char>, Seq<Seq<char>>)>::empty());
    DemandNode {
        kind: DemandNodeKind::Tool,
        base,
        parent_id: opt_string(Some("p-analysts")),
        retry: Some(RetryPolicy { max_retries: 2, base_delay_ms: Some(1000), max_delay_ms: Some(10000) }),
        timeout_secs: None,
        tool_name: opt_string(Some("OpcListProjects")),
        input_mapping,
        output_var: opt_string(Some("t-projects-data")),
        system_prompt,
        context_sources,
        tools,
        agent_profile_id: opt_string(None),
        model_role: opt_string(None),
        max_tokens: None,
        max_tool_rounds: None,
        stream_chunk_timeout_secs: None,
        branches,
        channel: opt_string(None),
        message: opt_string(None),
        recipients,
        subject: opt_string(None),
    }
}

/// Node `a-cpo-analysis` of the demand template.
pub open spec fn demand_node_4_view() -> DemandNodeV {
    DemandNodeV {
        kind: DemandNodeKind::Agent,
        base: BaseV { id: "a-cpo-analysis"@, title: "产品需求分析"@, description: "需求发现: cpo-product-manager"@, x: 760, y: 100 },
        parent_id: Some("p-analysts"@),
        retry: Some(RetryPolicy { max_retries: 3u32, base_delay_ms: Some(3000u64), max_delay_ms: Some(60000u64) }),
        timeout_secs: None,
        tool_name: None,
        input_mapping: seq![("demand_description"@, "demand_description"@)],
        output_var: Some("a-cpo-analysis"@),
        system_prompt: DEMAND_PROMPT_A_CPO_ANALYSIS@ + tool_prompt_text(seq!["OpcListProjects"@, "OpcListCustomers"@, "OpcSearchWiki"@]),
        context_sources: seq!["t-projects-data"@],
        tools: seq!["OpcListProjects"@, "OpcListCustomers"@, "OpcSearchWiki"@],
        agent_profile_id: Some("opc-cpo-product-manager"@),
        model_role: Some("cpo"@),
        max_tokens: Some(32768u32),
        max_tool_rounds: Some(2u32),
        stream_chunk_timeout_secs: Some(300u64),
        branches: Seq::<(Seq<char>, Seq<char>, Seq<Seq<char>>)>::empty(),
        channel: None,
        message: None,
        recipients: Seq::<Seq<char>>::empty(),
        subject: None,
    }
}

fn demand_node_4() -> (n: DemandNode)
    ensures
        n.view() == demand_node_4_view(),
{
    let base = make_base("a-cpo-analysis", "产品需求分析", "需求发现: cpo-product-manager", 760, 100);
    let tools = strings(vec!["OpcListProjects", "OpcListCustomers", "OpcSearchWiki"]);
    assert(seq_view(tools@) =~= seq!["OpcListProjects"@, "OpcListCustomers"@, "OpcSearchWiki"@]);
    let mut system_prompt = string_of(DEMAND_PROMPT_A_CPO_ANALYSIS);
    let line = tool_prompt(&tools);
    push_str(&mut system_prompt, line.as_str());
    let input_mapping: Vec<(String, String)> = vec![(string_of("demand_description"), string_of("demand_description"))];
    assert(pair_seq_view(input_mapping@) =~= seq![("demand_description"@, "demand_description"@)]);
    let context_sources = strings(vec!["t-projects-data"]);
    assert(seq_view(context_sources@) =~= seq!["t-projects-data"@]);
    let recipients = strings(vec![]);
    assert(seq_view(recipients@) =~= Seq::<Seq<char>>::empty());
    let branches: Vec<ParallelBranch> = vec![];
    assert(branches_view(branches@) =~= Seq::<(Seq<char>, Seq<char>, Seq<Seq<char>>)>::empty());
    DemandNode {
        kind: DemandNodeKind::Agent,
        base,
        parent_id: opt_string(Some("p-analysts")),
        retry: Some(RetryPolicy { max_retries: 3, base_delay_ms: Some(3000), max_delay_ms: Some(60000) }),
        timeout_secs: None,
        tool_name: opt_string(None),
        input_mapping,
        output_var: opt_string(Some("a-cpo-analysis")),
        system_prompt,
        context_sources,
        tools,
        agent_profile_id: opt_string(Some("opc-cpo-product-manager")),
        model_role: opt_string(Some("cpo")),
        max_tokens: Some(32768),
        max_tool_rounds: Some(2),
        stream_chunk_timeout_secs: Some(300),
        branches,
        channel: opt_string(None),
        message: opt_string(None),
        recipients,
        subject: opt_string(None),
    }
}

/// Node `t-tech-data` of the demand template.
pub open spec fn demand_node_5_view() -> DemandNodeV {
    DemandNodeV {
        kind: DemandNodeKind::Tool,
        base: BaseV { id: "t-tech-data"@, title: "获取技术数据"@, description: "获取数据: OpcListProjects"@, x: 1000, y: 100 },
        parent_id: Some("p-analysts"@),
        retry: Some(RetryPolicy { max_retries: 2u32, base_delay_ms: Some(1000u64), max_delay_ms: Some(10000u64) }),
        timeout_secs: None,
        tool_name: Some("OpcListProjects"@),
        input_mapping: seq![("status"@, "all"@)],
        output_var: Some("t-tech-data"@),
        system_prompt: Seq::<char>::empty(),
        context_sources: Seq::<Seq<char>>::empty(),
        tools: Seq::<Seq<char>>::empty(),
        agent_profile_id: None,
        model_role: None,
        max_tokens: None,
        max_tool_rounds: None,
        stream_chunk_timeout_secs: None,
        branches: Seq::<(Seq<char>, Seq<char>, Seq<Seq<char>>)>::empty(),
        channel: None,
        message: None,
        recipients: Seq::<Seq<char>>::empty(),
        subject: None,
    }
}

fn demand_node_5() -> (n: DemandNode)
    ensures
        n.view() == demand_node_5_view(),
{
    let base = make_base("t-tech-data", "获取技术数据", "获取数据: OpcListProjects", 1000, 100);
    let tools: Vec<String> = Vec::new();
    assert(seq_view(tools@) =~= Seq::<Seq<char>>::empty());
    let system_prompt = String::new();
    let input_mapping: Vec<(String, String)> = vec![(string_of("status"), string_of("all"))];
    assert(pair_seq_view(input_mapping@) =~= seq![("status"@, "all"@)]);
    let context_sources = strings(vec![]);
    assert(seq_view(context_sources@) =~= Seq::<Seq<char>>::empty());
    let recipients = strings(vec![]);
    assert(seq_view(recipients@) =~= Seq::<Seq<char>>::empty());
    let branches: Vec<ParallelBranch> = vec![];
    assert(branches_view(branches@) =~= Seq::<(Seq<char>, Seq<char>, Seq<Seq<char>>)>::empty());
    DemandNode {
        kind: DemandNodeKind::Tool,
        base,
        parent_id: opt_string(Some("p-analysts")),
        retry: Some(RetryPolicy { max_retries: 2, base_delay_ms: Some(1000), max_delay_ms: Some(10000) }),
        timeout_secs: None,
        tool_name: opt_string(Some("OpcListProjects")),
        input_mapping,
        output_var: opt_string(Some("t-tech-data")),
        system_prompt,
        context_sources,
        tools,
        agent_profile_id: opt_string(None),
        model_role: opt_string(None),
        max_tokens: None,
        max_tool_rounds: None,
        stream_chunk_timeout_secs: None,
        branches,
        channel: opt_string(None),
        message: opt_string(None),
        recipients,
        subject: opt_string(None),
    }
}

/// Node `a-cto-analysis` of the demand template.
pub open spec fn demand_node_6_view() -> DemandNodeV {
    DemandNodeV {
        kind: DemandNodeKind::Agent,
        base: BaseV { id: "a-cto-analysis"@, title: "技术可行性评估"@, description: "需求发现: cto-ai-engineer"@, x: 1240, y: 100 },
        parent_id: Some("p-analysts"@),
        retry: Some(RetryPolicy { max_retries: 3u32, base_delay_ms: Some(3000u64), max_delay_ms: Some(60000u64) }),
        timeout_secs: None,
        tool_name: None,
        input_mapping: seq![("demand_description"@, "demand_description"@)],
        output_var: Some("a-cto-analysis"@),
        system_prompt: DEMAND_PROMPT_A_CTO_ANALYSIS@ + tool_prompt_text(seq!["OpcListProjects"@, "OpcListKpis"@, "OpcSearchWiki"@]),
        context_sources: seq!["t-tech-data"@],
        tools: seq!["OpcListProjects"@, "OpcListKpis"@, "OpcSearchWiki"@],
        agent_profile_id: Some("opc-cto-ai-engineer"@),
        model_role: Some("cto"@),
        max_tokens: Some(32768u32),
        max_tool_rounds: Some(2u32),
        stream_chunk_timeout_secs: Some(300u64),
        branches: Seq::<(Seq<char>, Seq<char>, Seq<Seq<char>>)>::empty(),
        channel: None,
        message: None,
        recipients: Seq::<Seq<char>>::empty(),
        subject: None,
    }
}

fn demand_node_6() -> (n: DemandNode)
    ensures
        n.view() == demand_node_6_view(),
{
    let base = make_base("a-cto-analysis", "技术可行性评估", "需求发现: cto-ai-engineer", 1240, 100);
    let tools = strings(vec!["OpcListProjects", "OpcListKpis", "OpcSearchWiki"]);
    assert(seq_view(tools@) =~= seq!["OpcListProjects"@, "OpcListKpis"@, "OpcSearchWiki"@]);
    let mut system_prompt = string_of(DEMAND_PROMPT_A_CTO_ANALYSIS);
    let line = tool_prompt(&tools);
    push_str(&mut system_prompt, line.as_str());
    let input_mapping: Vec<(String, String)> = vec![(string_of("demand_description"), string_of("demand_description"))];
    assert(pair_seq_view(input_mapping@) =~= seq![("demand_description"@, "demand_description"@)]);
    let context_sources = strings(vec!["t-tech-data"]);
    assert(seq_view(context_sources@) =~= seq!["t-tech-data"@]);
    let recipients = strings(vec![]);
    assert(seq_view(recipients@) =~= Seq::<Seq<char>>::empty());
    let branches: Vec<ParallelBranch> = vec![];
    assert(branches_view(branches@) =~= Seq::<(Seq<char>, Seq<char>, Seq<Seq<char>>)>::empty());
    DemandNode {
        kind: DemandNodeKind::Agent,
        base,
        parent_id: opt_string(Some("p-analysts")),
        retry: Some(RetryPolicy { max_retries: 3, base_delay_ms: Some(3000), max_delay_ms: Some(60000) }),
        timeout_secs: None,
        tool_name: opt_string(None),
        input_mapping,
        output_var: opt_string(Some("a-cto-analysis")),
        system_prompt,
        context_sources,
        tools,
        agent_profile_id: opt_string(Some("opc-cto-ai-engineer")),
        model_role: opt_string(Some("cto")),
        max_tokens: Some(32768),
        max_tool_rounds: Some(2),
        stream_chunk_timeout_secs: Some(300),
        branches,
        channel: opt_string(None),
        message: opt_string(None),
        recipients,
        subject: opt_string(None),
    }
}

/// Node `t-finance-data` of the demand template.
pub open spec fn demand_node_7_view() -> DemandNodeV {
    DemandNodeV {
        kind: DemandNodeKind::Tool,
        base: BaseV { id: "t-finance-data"@, title: "获取财务数据"@, description: "获取数据: OpcListInvoices"@, x: 40, y: 280 },
        parent_id: Some("p-analysts"@),
        retry: Some(RetryPolicy { max_retries: 2u32, base_delay_ms: Some(1000u64), max_delay_ms: Some(10000u64) }),
        timeout_secs: None,
        tool_name: Some("OpcListInvoices"@),
        input_mapping: seq![("status"@, "all"@)],
        output_var: Some("t-finance-data"@),
        system_prompt: Seq::<char>::empty(),
        context_sources: Seq::<Seq<char>>::empty(),
        tools: Seq::<Seq<char>>::empty(),
        agent_profile_id: None,
        model_role: None,
        max_tokens: None,
        max_tool_rounds: None,
        stream_chunk_timeout_secs: None,
        branches: Seq::<(Seq<char>, Seq<char>, Seq<Seq<char>>)>::empty(),
        channel: None,
        message: None,
        recipients: Seq::<Seq<char>>::empty(),
        subject: None,
    }
}

fn demand_node_7() -> (n: DemandNode)
    ensures
        n.view() == demand_node_7_view(),
{
    let base = make_base("t-finance-data", "获取财务数据", "获取数据: OpcListInvoices", 40, 280);
    let tools: Vec<String> = Vec::new();
    assert(seq_view(tools@) =~= Seq::<Seq<char>>::empty());
    let system_prompt = String::new();
    let input_mapping: Vec<(String, String)> = vec![(string_of("status"), string_of("all"))];
    assert(pair_seq_view(input_mapping@) =~= seq![("status"@, "all"@)]);
    let context_sources = strings(vec![]);
    assert(seq_view(context_sources@) =~= Seq::<Seq<char>>::empty());
    let recipients = strings(vec![]);
    assert(seq_view(recipients@) =~= Seq::<Seq<char>>::empty());
    let branches: Vec<ParallelBranch> = vec![];
    assert(branches_view(branches@) =~= Seq::<(Seq<char>, Seq<char>, Seq<Seq<char>>)>::empty());
    DemandNode {
        kind: DemandNodeKind::Tool,
        base,
        parent_id: opt_string(Some("p-analysts")),
        retry: Some(RetryPolicy { max_retries: 2, base_delay_ms: Some(1000), max_delay_ms: Some(10000) }),
        timeout_secs: None,
        tool_name: opt_string(Some("OpcListInvoices")),
        input_mapping,
        output_var: opt_string(Some("t-finance-data")),
        system_prompt,
        context_sources,
        tools,
        agent_profile_id: opt_string(None),
        model_role: opt_string(None),
        max_tokens: None,
        max_tool_rounds: None,
        stream_chunk_timeout_secs: None,
        branches,
        channel: opt_string(None),
        message: opt_string(None),
        recipients,
        subject: opt_string(None),
    }
}

/// Node `a-cfo-analysis` of the demand template.
pub open spec fn demand_node_8_view() -> DemandNodeV {
    DemandNodeV {
        kind: DemandNodeKind::Agent,
        base: BaseV { id: "a-cfo-analysis"@, title: "财务可行性评估"@, description: "需求发现: cfo-financial-analyst"@, x: 280, y: 280 },
        parent_id: Some("p-analysts"@),
        retry: Some(RetryPolicy { max_retries: 3u32, base_delay_ms: Some(3000u64), max_delay_ms: Some(60000u64) }),
        timeout_secs: None,
        tool_name: None,
        input_mapping: seq![("demand_description"@, "demand_description"@)],
        output_var: Some("a-cfo-analysis"@),
        system_prompt: DEMAND_PROMPT_A_CFO_ANALYSIS@ + tool_prompt_text(seq!["OpcListInvoices"@, "OpcListCustomers"@, "OpcGetDashboard"@, "OpcListKpis"@, "OpcSearchWiki"@]),
        context_sources: seq!["t-finance-data"@],
        tools: seq!["OpcListInvoices"@, "OpcListCustomers"@, "OpcGetDashboard"@, "OpcListKpis"@, "OpcSearchWiki"@],
        agent_profile_id: Some("opc-cfo-financial-analyst"@),
        model_role: Some("cfo"@),
        max_tokens: Some(32768u32),
        max_tool_rounds: Some(2u32),
        stream_chunk_timeout_secs: Some(300u64),
        branches: Seq::<(Seq<char>, Seq<char>, Seq<Seq<char>>)>::empty(),
        channel: None,
        message: None,
        recipients: Seq::<Seq<char>>::empty(),
        subject: None,
    }
}

fn demand_node_8() -> (n: DemandNode)
    ensures
        n.view() == demand_node_8_view(),
{
    let base = make_base("a-cfo-analysis", "财务可行性评估", "需求发现: cfo-financial-analyst", 280, 280);
    let tools = strings(vec!["OpcListInvoices", "OpcListCustomers", "OpcGetDashboard", "OpcListKpis", "OpcSearchWiki"]);
    assert(seq_view(tools@) =~= seq!["OpcListInvoices"@, "OpcListCustomers"@, "OpcGetDashboard"@, "OpcListKpis"@, "OpcSearchWiki"@]);
    let mut system_prompt = string_of(DEMAND_PROMPT_A_CFO_ANALYSIS);
    let line = tool_prompt(&tools);
    push_str(&mut system_prompt, line.as_str());
    let input_mapping: Vec<(String, String)> = vec![(string_of("demand_description"), string_of("demand_description"))];
    assert(pair_seq_view(input_mapping@) =~= seq![("demand_description"@, "demand_description"@)]);
    let context_sources = strings(vec!["t-finance-data"]);
    assert(seq_view(context_sources@) =~= seq!["t-finance-data"@]);
    let recipients = strings(vec![]);
    assert(seq_view(recipients@) =~= Seq::<Seq<char>>::empty());
    let branches: Vec<ParallelBranch> = vec![];
    assert(branches_view(branches@) =~= Seq::<(Seq<char>, Seq<char>, Seq<Seq<char>>)>::empty());
    DemandNode {
        kind: DemandNodeKind::Agent,
        base,
        parent_id: opt_string(Some("p-analysts")),
        retry: Some(RetryPolicy { max_retries: 3, base_delay_ms: Some(3000), max_delay_ms: Some(60000) }),
        timeout_secs: None,
        tool_name: opt_string(None),
        input_mapping,
        output_var: opt_string(Some("a-cfo-analysis")),
        system_prompt,
        context_sources,
        tools,
        agent_profile_id: opt_string(Some("opc-cfo-financial-analyst")),
        model_role: opt_string(Some("cfo")),
        max_tokens: Some(32768),
        max_tool_rounds: Some(2),
        stream_chunk_timeout_secs: Some(300),
        branches,
        channel: opt_string(None),
        message: opt_string(None),
        recipients,
        subject: opt_string(None),
    }
}

/// Node `t-ops-data` of the demand template.
pub open spec fn demand_node_9_view() -> DemandNodeV {
    DemandNodeV {
        kind: DemandNodeKind::Tool,
        base: BaseV { id: "t-ops-data"@, title: "获取运营数据"@, description: "获取数据: OpcListProjects"@, x: 520, y: 280 },
        parent_id: Some("p-analysts"@),
        retry: Some(RetryPolicy { max_retries: 2u32, base_delay_ms: Some(1000u64), max_delay_ms: Some(10000u64) }),
        timeout_secs: None,
        tool_name: Some("OpcListProjects"@),
        input_mapping: seq![("status"@, "all"@)],
        output_var: Some("t-ops-data"@),
        system_prompt: Seq::<char>::empty(),
        context_sources: Seq::<Seq<char>>::empty(),
        tools: Seq::<Seq<char>>::empty(),
        agent_profile_id: None,
        model_role: None,
        max_tokens: None,
        max_tool_rounds: None,
        stream_chunk_timeout_secs: None,
        branches: Seq::<(Seq<char>, Seq<char>, Seq<Seq<char>>)>::empty(),
        channel: None,
        message: None,
        recipients: Seq::<Seq<char>>::empty(),
        subject: None,
    }
}

fn demand_node_9() -> (n: DemandNode)
    ensures
        n.view() == demand_node_9_view(),
{
    let base = make_base("t-ops-data", "获取运营数据", "获取数据: OpcListProjects", 520, 280);
    let tools: Vec<String> = Vec::new();
    assert(seq_view(tools@) =~= Seq::<Seq<char>>::empty());
    let system_prompt = String::new();
    let input_mapping: Vec<(String, String)> = vec![(string_of("status"), string_of("all"))];
    assert(pair_seq_view(input_mapping@) =~= seq![("status"@, "all"@)]);
    let context_sources = strings(vec![]);
    assert(seq_view(context_sources@) =~= Seq::<Seq<char>>::empty());
    let recipients = strings(vec![]);
    assert(seq_view(recipients@) =~= Seq::<Seq<char>>::empty());
    let branches: Vec<ParallelBranch> = vec![];
    assert(branches_view(branches@) =~= Seq::<(Seq<char>, Seq<char>, Seq<Seq<char>>)>::empty());
    DemandNode {
        kind: DemandNodeKind::Tool,
        base,
        parent_id: opt_string(Some("p-analysts")),
        retry: Some(RetryPolicy { max_retries: 2, base_delay_ms: Some(1000), max_delay_ms: Some(10000) }),
        timeout_secs: None,
        tool_name: opt_string(Some("OpcListProjects")),
        input_mapping,
        output_var: opt_string(Some("t-ops-data")),
        system_prompt,
        context_sources,
        tools,
        agent_profile_id: opt_string(None),
        model_role: opt_string(None),
        max_tokens: None,
        max_tool_rounds: None,
        stream_chunk_timeout_secs: None,
        branches,
        channel: opt_string(None),
        message: opt_string(None),
        recipients,
        subject: opt_string(None),
    }
}

/// Node `a-coo-analysis` of the demand template.
pub open spec fn demand_node_10_view() -> DemandNodeV {
    DemandNodeV {
        kind: DemandNodeKind::Agent,
        base: BaseV { id: "a-coo-analysis"@, title: "运营可行性评估"@, description: "需求发现: coo-operations-manager"@, x: 760, y: 280 },
        parent_id: Some("p-analysts"@),
        retry: Some(RetryPolicy { max_retries: 3u32, base_delay_ms: Some(3000u64), max_delay_ms: Some(60000u64) }),
        timeout_secs: None,
        tool_name: None,
        input_mapping: seq![("demand_description"@, "demand_description"@)],
        output_var: Some("a-coo-analysis"@),
        system_prompt: DEMAND_PROMPT_A_COO_ANALYSIS@ + tool_prompt_text(seq!["OpcListProjects"@, "OpcListCustomers"@, "OpcListInvoices"@, "OpcGetDashboard"@, "OpcSearchWiki"@]),
        context_sources: seq!["t-ops-data"@],
        tools: seq!["OpcListProjects"@, "OpcListCustomers"@, "OpcListInvoices"@, "OpcGetDashboard"@, "OpcSearchWiki"@],
        agent_profile_id: Some("opc-coo-operations-manager"@),
        model_role: Some("coo"@),
        max_tokens: Some(32768u32),
        max_tool_rounds: Some(2u32),
        stream_chunk_timeout_secs: Some(300u64),
        branches: Seq::<(Seq<char>, Seq<char>, Seq<Seq<char>>)>::empty(),
        channel: None,
        message: None,
        recipients: Seq::<Seq<char>>::empty(),
        subject: None,
    }
}

fn demand_node_10() -> (n: DemandNode)
    ensures
        n.view() == demand_node_10_view(),
{
    let base = make_base("a-coo-analysis", "运营可行性评估", "需求发现: coo-operations-manager", 760, 280);
    let tools = strings(vec!["OpcListProjects", "OpcListCustomers", "OpcListInvoices", "OpcGetDashboard", "OpcSearchWiki"]);
    assert(seq_view(tools@) =~= seq!["OpcListProjects"@, "OpcListCustomers"@, "OpcListInvoices"@, "OpcGetDashboard"@, "OpcSearchWiki"@]);
    let mut system_prompt = string_of(DEMAND_PROMPT_A_COO_ANALYSIS);
    let line = tool_prompt(&tools);
    push_str(&mut system_prompt, line.as_str());
    let input_mapping: Vec<(String, String)> = vec![(string_of("demand_description"), string_of("demand_description"))];
    assert(pair_seq_view(input_mapping@) =~= seq![("demand_description"@, "demand_description"@)]);
    let context_sources = strings(vec!["t-ops-data"]);
    assert(seq_view(context_sources@) =~= seq!["t-ops-data"@]);
    let recipients = strings(vec![]);
    assert(seq_view(recipients@) =~= Seq::<Seq<char>>::empty());
    let branches: Vec<ParallelBranch> = vec![];
    assert(branches_view(branches@) =~= Seq::<(Seq<char>, Seq<char>, Seq<Seq<char>>)>::empty());
    DemandNode {
        kind: DemandNodeKind::Agent,
        base,
        parent_id: opt_string(Some("p-analysts")),
        retry: Some(RetryPolicy { max_retries: 3, base_delay_ms: Some(3000), max_delay_ms: Some(60000) }),
        timeout_secs: None,
        tool_name: opt_string(None),
        input_mapping,
        output_var: opt_string(Some("a-coo-analysis")),
        system_prompt,
        context_sources,
        tools,
        agent_profile_id: opt_string(Some("opc-coo-operations-manager")),
        model_role: opt_string(Some("coo")),
        max_tokens: Some(32768),
        max_tool_rounds: Some(2),
        stream_chunk_timeout_secs: Some(300),
        branches,
        channel: opt_string(None),
        message: opt_string(None),
        recipients,
        subject: opt_string(None),
    }
}

/// Node `t-dashboard-data` of the demand template.
pub open spec fn demand_node_11_view() -> DemandNodeV {
    DemandNodeV {
        kind: DemandNodeKind::Tool,
        base: BaseV { id: "t-dashboard-data"@, title: "获取仪表盘"@, description: "获取数据: OpcGetDashboard"@, x: 1000, y: 280 },
        parent_id: Some("p-analysts"@),
        retry: Some(RetryPolicy { max_retries: 2u32, base_delay_ms: Some(1000u64), max_delay_ms: Some(10000u64) }),
        timeout_secs: None,
        tool_name: Some("OpcGetDashboard"@),
        input_mapping: seq![(""@, "all"@)],
        output_var: Some("t-dashboard-data"@),
        system_prompt: Seq::<char>::empty(),
        context_sources: Seq::<Seq<char>>::empty(),
        tools: Seq::<Seq<char>>::empty(),
        agent_profile_id: None,
        model_role: None,
        max_tokens: None,
        max_tool_rounds: None,
        stream_chunk_timeout_secs: None,
        branches: Seq::<(Seq<char>, Seq<char>, Seq<Seq<char>>)>::empty(),
        channel: None,
        message: None,
        recipients: Seq::<Seq<char>>::empty(),
        subject: None,
    }
}

fn demand_node_11() -> (n: DemandNode)
    ensures
        n.view() == demand_node_11_view(),
{
    let base = make_base("t-dashboard-data", "获取仪表盘", "获取数据: OpcGetDashboard", 1000, 280);
    let tools: Vec<String> = Vec::new();
    assert(seq_view(tools@) =~= Seq::<Seq<char>>::empty());
    let system_prompt = String::new();
    let input_mapping: Vec<(String, String)> = vec![(string_of(""), string_of("all"))];
    assert(pair_seq_view(input_mapping@) =~= seq![(""@, "all"@)]);
    let context_sources = strings(vec![]);
    assert(seq_view(context_sources@) =~= Seq::<Seq<char>>::empty());
    let recipients = strings(vec![]);
    assert(seq_view(recipients@) =~= Seq::<Seq<char>>::empty());
    let branches: Vec<ParallelBranch> = vec![];
    assert(branches_view(branches@) =~= Seq::<(Seq<char>, Seq<char>, Seq<Seq<char>>)>::empty());
    DemandNode {
        kind: DemandNodeKind::Tool,
        base,
        parent_id: opt_string(Some("p-analysts")),
        retry: Some(RetryPolicy { max_retries: 2, base_delay_ms: Some(1000), max_delay_ms: Some(10000) }),
        timeout_secs: None,
        tool_name: opt_string(Some("OpcGetDashboard")),
        input_mapping,
        output_var: opt_string(Some("t-dashboard-data")),
        system_prompt,
        context_sources,
        tools,
        agent_profile_id: opt_string(None),
        model_role: opt_string(None),
        max_tokens: None,
        max_tool_rounds: None,
        stream_chunk_timeout_secs: None,
        branches,
        channel: opt_string(None),
        message: opt_string(None),
        recipients,
        subject: opt_string(None),
    }
}

/// Node `a-ceo-analysis` of the demand template.
pub open spec fn demand_node_12_view() -> DemandNodeV {
    DemandNodeV {
        kind: DemandNodeKind::Agent,
        base: BaseV { id: "a-ceo-analysis"@, title: "综合分析"@, description: "需求发现: ceo-business-strategist"@, x: 1240, y: 280 },
        parent_id: Some("p-analysts"@),
        retry: Some(RetryPolicy { max_retries: 3u32, base_delay_ms: Some(3000u64), max_delay_ms: Some(60000u64) }),
        timeout_secs: None,
        tool_name: None,
        input_mapping: seq![("demand_description"@, "demand_description"@)],
        output_var: Some("a-ceo-analysis"@),
        system_prompt: DEMAND_PROMPT_A_CEO_ANALYSIS@ + tool_prompt_text(seq!["OpcGetDashboard"@, "OpcListKpis"@, "OpcListInvoices"@, "OpcListCustomers"@, "OpcListProjects"@, "OpcSearchWiki"@]),
        context_sources: seq!["t-dashboard-data"@],
        tools: seq!["OpcGetDashboard"@, "OpcListKpis"@, "OpcListInvoices"@, "OpcListCustomers"@, "OpcListProjects"@, "OpcSearchWiki"@],
        agent_profile_id: Some("opc-ceo-business-strategist"@),
        model_role: Some("ceo"@),
        max_tokens: Some(32768u32),
        max_tool_rounds: Some(2u32),
        stream_chunk_timeout_secs: Some(300u64),
        branches: Seq::<(Seq<char>, Seq<char>, Seq<Seq<char>>)>::empty(),
        channel: None,
        message: None,
        recipients: Seq::<Seq<char>>::empty(),
        subject: None,
    }
}

fn demand_node_12() -> (n: DemandNode)
    ensures
        n.view() == demand_node_12_view(),
{
    let base = make_base("a-ceo-analysis", "综合分析", "需求发现: ceo-business-strategist", 1240, 280);
    let tools = strings(vec!["OpcGetDashboard", "OpcListKpis", "OpcListInvoices", "OpcListCustomers", "OpcListProjects", "OpcSearchWiki"]);
    assert(seq_view(tools@) =~= seq!["OpcGetDashboard"@, "OpcListKpis"@, "OpcListInvoices"@, "OpcListCustomers"@, "OpcListProjects"@, "OpcSearchWiki"@]);
    let mut system_prompt = string_of(DEMAND_PROMPT_A_CEO_ANALYSIS);
    let line = tool_prompt(&tools);
    push_str(&mut system_prompt, line.as_str());
    let input_mapping: Vec<(String, String)> = vec![(string_of("demand_description"), string_of("demand_description"))];
    assert(pair_seq_view(input_mapping@) =~= seq![("demand_description"@, "demand_description"@)]);
    let context_sources = strings(vec!["t-dashboard-data"]);
    assert(seq_view(context_sources@) =~= seq!["t-dashboard-data"@]);
    let recipients = strings(vec![]);
    assert(seq_view(recipients@) =~= Seq::<Seq<char>>::empty());
    let branches: Vec<ParallelBranch> = vec![];
    assert(branches_view(branches@) =~= Seq::<(Seq<char>, Seq<char>, Seq<Seq<char>>)>::empty());
    DemandNode {
        kind: DemandNodeKind::Agent,
        base,
        parent_id: opt_string(Some("p-analysts")),
        retry: Some(RetryPolicy { max_retries: 3, base_delay_ms: Some(3000), max_delay_ms: Some(60000) }),
        timeout_secs: None,
        tool_name: opt_string(None),
        input_mapping,
        output_var: opt_string(Some("a-ceo-analysis")),
        system_prompt,
        context_sources,
        tools,
        agent_profile_id: opt_string(Some("opc-ceo-business-strategist")),
        model_role: opt_string(Some("ceo")),
        max_tokens: Some(32768),
        max_tool_rounds: Some(2),
        stream_chunk_timeout_secs: Some(300),
        branches,
        channel: opt_string(None),
        message: opt_string(None),
        recipients,
        subject: opt_string(None),
    }
}

/// Node `p-analysts` of the demand template.
pub open spec fn demand_node_13_view() -> DemandNodeV {
    DemandNodeV {
        kind: DemandNodeKind::Parallel,
        base: BaseV { id: "p-analysts"@, title: "多维度分析师分组"@, description: "营销/产品/技术/财务/运营/综合六维度分析"@, x: 20, y: 80 },
        parent_id: None,
        retry: None,
        timeout_secs: Some(600u64),
        tool_name: None,
        input_mapping: Seq::<(Seq<char>, Seq<char>)>::empty(),
        output_var: None,
        system_prompt: Seq::<char>::empty(),
        context_sources: Seq::<Seq<char>>::empty(),
        tools: Seq::<Seq<char>>::empty(),
        agent_profile_id: None,
        model_role: None,
        max_tokens: None,
        max_tool_rounds: None,
        stream_chunk_timeout_secs: None,
        branches: seq![("branch-a-cmo-analysis"@, "营销增长分析"@, seq!["t-customers-data"@, "a-cmo-analysis"@]), ("branch-a-cpo-analysis"@, "产品需求分析"@, seq!["t-projects-data"@, "a-cpo-analysis"@]), ("branch-a-cto-analysis"@, "技术可行性评估"@, seq!["t-tech-data"@, "a-cto-analysis"@]), ("branch-a-cfo-analysis"@, "财务可行性评估"@, seq!["t-finance-data"@, "a-cfo-analysis"@]), ("branch-a-coo-analysis"@, "运营可行性评估"@, seq!["t-ops-data"@, "a-coo-analysis"@]), ("branch-a-ceo-analysis"@, "综合分析"@, seq!["t-dashboard-data"@, "a-ceo-analysis"@])],
        channel: None,
        message: None,
        recipients: Seq::<Seq<char>>::empty(),
        subject: None,
    }
}

fn demand_node_13() -> (n: DemandNode)
    ensures
        n.view() == demand_node_13_view(),
{
    let base = make_base("p-analysts", "多维度分析师分组", "营销/产品/技术/财务/运营/综合六维度分析", 20, 80);
    let tools: Vec<String> = Vec::new();
    assert(seq_view(tools@) =~= Seq::<Seq<char>>::empty());
    let system_prompt = String::new();
    let input_mapping: Vec<(String, String)> = vec![];
    assert(pair_seq_view(input_mapping@) =~= Seq::<(Seq<char>, Seq<char>)>::empty());
    let context_sources = strings(vec![]);
    assert(seq_view(context_sources@) =~= Seq::<Seq<char>>::empty());
    let recipients = strings(vec![]);
    assert(seq_view(recipients@) =~= Seq::<Seq<char>>::empty());
    let steps0 = strings(vec!["t-customers-data", "a-cmo-analysis"]);
    assert(seq_view(steps0@) =~= seq!["t-customers-data"@, "a-cmo-analysis"@]);
    let steps1 = strings(vec!["t-projects-data", "a-cpo-analysis"]);
    assert(seq_view(steps1@) =~= seq!["t-projects-data"@, "a-cpo-analysis"@]);
    let steps2 = strings(vec!["t-tech-data", "a-cto-analysis"]);
    assert(seq_view(steps2@) =~= seq!["t-tech-data"@, "a-cto-analysis"@]);
    let steps3 = strings(vec!["t-finance-data", "a-cfo-analysis"]);
    assert(seq_view(steps3@) =~= seq!["t-finance-data"@, "a-cfo-analysis"@]);
    let steps4 = strings(vec!["t-ops-data", "a-coo-analysis"]);
    assert(seq_view(steps4@) =~= seq!["t-ops-data"@, "a-coo-analysis"@]);
    let steps5 = strings(vec!["t-dashboard-data", "a-ceo-analysis"]);
    assert(seq_view(steps5@) =~= seq!["t-dashboard-data"@, "a-ceo-analysis"@]);
    let branches: Vec<ParallelBranch> = vec![ParallelBranch { id: string_of("branch-a-cmo-analysis"), title: string_of("营销增长分析"), steps: steps0 }, ParallelBranch { id: string_of("branch-a-cpo-analysis"), title: string_of("产品需求分析"), steps: steps1 }, ParallelBranch { id: string_of("branch-a-cto-analysis"), title: string_of("技术可行性评估"), steps: steps2 }, ParallelBranch { id: string_of("branch-a-cfo-analysis"), title: string_of("财务可行性评估"), steps: steps3 }, ParallelBranch { id: string_of("branch-a-coo-analysis"), title: string_of("运营可行性评估"), steps: steps4 }, ParallelBranch { id: string_of("branch-a-ceo-analysis"), title: string_of("综合分析"), steps: steps5 }];
    assert(branches_view(branches@) =~= seq![("branch-a-cmo-analysis"@, "营销增长分析"@, seq!["t-customers-data"@, "a-cmo-analysis"@]), ("branch-a-cpo-analysis"@, "产品需求分析"@, seq!["t-projects-data"@, "a-cpo-analysis"@]), ("branch-a-cto-analysis"@, "技术可行性评估"@, seq!["t-tech-data"@, "a-cto-analysis"@]), ("branch-a-cfo-analysis"@, "财务可行性评估"@, seq!["t-finance-data"@, "a-cfo-analysis"@]), ("branch-a-coo-analysis"@, "运营可行性评估"@, seq!["t-ops-data"@, "a-coo-analysis"@]), ("branch-a-ceo-analysis"@, "综合分析"@, seq!["t-dashboard-data"@, "a-ceo-analysis"@])]);
    DemandNode {
        kind: DemandNodeKind::Parallel,
        base,
        parent_id: opt_string(None),
        retry: None,
        timeout_secs: Some(600),
        tool_name: opt_string(None),
        input_mapping,
        output_var: opt_string(None),
        system_prompt,
        context_sources,
        tools,
        agent_profile_id: opt_string(None),
        model_role: opt_string(None),
        max_tokens: None,
        max_tool_rounds: None,
        stream_chunk_timeout_secs: None,
        branches,
        channel: opt_string(None),
        message: opt_string(None),
        recipients,
        subject: opt_string(None),
    }
}

/// Node `a-ceo-decision` of the demand template.
pub open spec fn demand_node_14_view() -> DemandNodeV {
    DemandNodeV {
        kind: DemandNodeKind::Agent,
        base: BaseV { id: "a-ceo-decision"@, title: "综合决策"@, description: "需求发现: ceo-business-strategist"@, x: 400, y: 500 },
        parent_id: None,
        retry: Some(RetryPolicy { max_retries: 3u32, base_delay_ms: Some(3000u64), max_delay_ms: Some(60000u64) }),
        timeout_secs: None,
        tool_name: None,
        input_mapping: Seq::<(Seq<char>, Seq<char>)>::empty(),
        output_var: Some("a-ceo-decision"@),
        system_prompt: DEMAND_PROMPT_A_CEO_DECISION@ + tool_prompt_text(seq!["OpcGetDashboard"@, "OpcListKpis"@, "OpcListInvoices"@, "OpcListCustomers"@, "OpcListProjects"@, "OpcSearchWiki"@]),
        context_sources: seq!["a-cmo-analysis"@, "a-cpo-analysis"@, "a-cto-analysis"@, "a-cfo-analysis"@, "a-coo-analysis"@, "a-ceo-analysis"@],
        tools: seq!["OpcGetDashboard"@, "OpcListKpis"@, "OpcListInvoices"@, "OpcListCustomers"@, "OpcListProjects"@, "OpcSearchWiki"@],
        agent_profile_id: Some("opc-ceo-business-strategist"@),
        model_role: Some("ceo"@),
        max_tokens: Some(32768u32),
        max_tool_rounds: Some(2u32),
        stream_chunk_timeout_secs: Some(300u64),
        branches: Seq::<(Seq<char>, Seq<char>, Seq<Seq<char>>)>::empty(),
        channel: None,
        message: None,
        recipients: Seq::<Seq<char>>::empty(),
        subject: None,
    }
}

fn demand_node_14() -> (n: DemandNode)
    ensures
        n.view() == demand_node_14_view(),
{
    let base = make_base("a-ceo-decision", "综合决策", "需求发现: ceo-business-strategist", 400, 500);
    let tools = strings(vec!["OpcGetDashboard", "OpcListKpis", "OpcListInvoices", "OpcListCustomers", "OpcListProjects", "OpcSearchWiki"]);
    assert(seq_view(tools@) =~= seq!["OpcGetDashboard"@, "OpcListKpis"@, "OpcListInvoices"@, "OpcListCustomers"@, "OpcListProjects"@, "OpcSearchWiki"@]);
    let mut system_prompt = string_of(DEMAND_PROMPT_A_CEO_DECISION);
    let line = tool_prompt(&tools);
    push_str(&mut system_prompt, line.as_str());
    let input_mapping: Vec<(String, String)> = vec![];
    assert(pair_seq_view(input_mapping@) =~= Seq::<(Seq<char>, Seq<char>)>::empty());
    let context_sources = strings(vec!["a-cmo-analysis", "a-cpo-analysis", "a-cto-analysis", "a-cfo-analysis", "a-coo-analysis", "a-ceo-analysis"]);
    assert(seq_view(context_sources@) =~= seq!["a-cmo-analysis"@, "a-cpo-analysis"@, "a-cto-analysis"@, "a-cfo-analysis"@, "a-coo-analysis"@, "a-ceo-analysis"@]);
    let recipients = strings(vec![]);
    assert(seq_view(recipients@) =~= Seq::<Seq<char>>::empty());
    let branches: Vec<ParallelBranch> = vec![];
    assert(branches_view(branches@) =~= Seq::<(Seq<char>, Seq<char>, Seq<Seq<char>>)>::empty());
    DemandNode {
        kind: DemandNodeKind::Agent,
        base,
        parent_id: opt_string(None),
        retry: Some(RetryPolicy { max_retries: 3, base_delay_ms: Some(3000), max_delay_ms: Some(60000) }),
        timeout_secs: None,
        tool_name: opt_string(None),
        input_mapping,
        output_var: opt_string(Some("a-ceo-decision")),
        system_prompt,
        context_sources,
        tools,
        agent_profile_id: opt_string(Some("opc-ceo-business-strategist")),
        model_role: opt_string(Some("ceo")),
        max_tokens: Some(32768),
        max_tool_rounds: Some(2),
        stream_chunk_timeout_secs: Some(300),
        branches,
        channel: opt_string(None),
        message: opt_string(None),
        recipients,
        subject: opt_string(None),
    }
}

/// Node `n-notify` of the demand template.
pub open spec fn demand_node_15_view() -> DemandNodeV {
    DemandNodeV {
        kind: DemandNodeKind::Notification,
        base: BaseV { id: "n-notify"@, title: "发送决策通知"@, description: "将决策结果通知相关人员"@, x: 680, y: 500 },
        parent_id: None,
        retry: Some(RetryPolicy { max_retries: 2u32, base_delay_ms: None, max_delay_ms: None }),
        timeout_secs: None,
        tool_name: None,
        input_mapping: Seq::<(Seq<char>, Seq<char>)>::empty(),
        output_var: Some("notification_result"@),
        system_prompt: Seq::<char>::empty(),
        context_sources: Seq::<Seq<char>>::empty(),
        tools: Seq::<Seq<char>>::empty(),
        agent_profile_id: None,
        model_role: None,
        max_tokens: None,
        max_tool_rounds: None,
        stream_chunk_timeout_secs: None,
        branches: Seq::<(Seq<char>, Seq<char>, Seq<Seq<char>>)>::empty(),
        channel: Some("internal"@),
        message: Some("需求发现流程完成，决策结果已生成"@),
        recipients: seq!["ceo"@, "cto"@, "cfo"@],
        subject: Some("OPC 需求发现决策通知"@),
    }
}

fn demand_node_15() -> (n: DemandNode)
    ensures
        n.view() == demand_node_15_view(),
{
    let base = make_base("n-notify", "发送决策通知", "将决策结果通知相关人员", 680, 500);
    let tools: Vec<String> = Vec::new();
    assert(seq_view(tools@) =~= Seq::<Seq<char>>::empty());
    let system_prompt = String::new();
    let input_mapping: Vec<(String, String)> = vec![];
    assert(pair_seq_view(input_mapping@) =~= Seq::<(Seq<char>, Seq<char>)>::empty());
    let context_sources = strings(vec![]);
    assert(seq_view(context_sources@) =~= Seq::<Seq<char>>::empty());
    let recipients = strings(vec!["ceo", "cto", "cfo"]);
    assert(seq_view(recipients@) =~= seq!["ceo"@, "cto"@, "cfo"@]);
    let branches: Vec<ParallelBranch> = vec![];
    assert(branches_view(branches@) =~= Seq::<(Seq<char>, Seq<char>, Seq<Seq<char>>)>::empty());
    DemandNode {
        kind: DemandNodeKind::Notification,
        base,
        parent_id: opt_string(None),
        retry: Some(RetryPolicy { max_retries: 2, base_delay_ms: None, max_delay_ms: None }),
        timeout_secs: None,
        tool_name: opt_string(None),
        input_mapping,
        output_var: opt_string(Some("notification_result")),
        system_prompt,
        context_sources,
        tools,
        agent_profile_id: opt_string(None),
        model_role: opt_string(None),
        max_tokens: None,
        max_tool_rounds: None,
        stream_chunk_timeout_secs: None,
        branches,
        channel: opt_string(Some("internal")),
        message: opt_string(Some("需求发现流程完成，决策结果已生成")),
        recipients,
        subject: opt_string(Some("OPC 需求发现决策通知")),
    }
}

/// Node `end` of the demand template.
pub open spec fn demand_node_16_view() -> DemandNodeV {
    DemandNodeV {
        kind: DemandNodeKind::End,
        base: BaseV { id: "end"@, title: "完成"@, description: "需求发现流程完成"@, x: 920, y: 500 },
        parent_id: None,
        retry: None,
        timeout_secs: None,
        tool_name: None,
        input_mapping: Seq::<(Seq<char>, Seq<char>)>::empty(),
        output_var: Some("final_decision"@),
        system_prompt: Seq::<char>::empty(),
        context_sources: Seq::<Seq<char>>::empty(),
        tools: Seq::<Seq<char>>::empty(),
        agent_profile_id: None,
        model_role: None,
        max_tokens: None,
        max_tool_rounds: None,
        stream_chunk_timeout_secs: None,
        branches: Seq::<(Seq<char>, Seq<char>, Seq<Seq<char>>)>::empty(),
        channel: None,
        message: None,
        recipients: Seq::<Seq<char>>::empty(),
        subject: None,
    }
}

fn demand_node_16() -> (n: DemandNode)
    ensures
        n.view() == demand_node_16_view(),
{
    let base = make_base("end", "完成", "需求发现流程完成", 920, 500);
    let tools: Vec<String> = Vec::new();
    assert(seq_view(tools@) =~= Seq::<Seq<char>>::empty());
    let system_prompt = String::new();
    let input_mapping: Vec<(String, String)> = vec![];
    assert(pair_seq_view(input_mapping@) =~= Seq::<(Seq<char>, Seq<char>)>::empty());
    let context_sources = strings(vec![]);
    assert(seq_view(context_sources@) =~= Seq::<Seq<char>>::empty());
    let recipients = strings(vec![]);
    assert(seq_view(recipients@) =~= Seq::<Seq<char>>::empty());
    let branches: Vec<ParallelBranch> = vec![];
    assert(branches_view(branches@) =~= Seq::<(Seq<char>, Seq<char>, Seq<Seq<char>>)>::empty());
    DemandNode {
        kind: DemandNodeKind::End,
        base,
        parent_id: opt_string(None),
        retry: None,
        timeout_secs: None,
        tool_name: opt_string(None),
        input_mapping,
        output_var: opt_string(Some("final_decision")),
        system_prompt,
        context_sources,
        tools,
        agent_profile_id: opt_string(None),
        model_role: opt_string(None),
        max_tokens: None,
        max_tool_rounds: None,
        stream_chunk_timeout_secs: None,
        branches,
        channel: opt_string(None),
        message: opt_string(None),
        recipients,
        subject: opt_string(None),
    }
}

/// The tools the demand template declares, with their parameters.
pub open spec fn demand_tool_defs_view() -> Seq<(Seq<char>, Seq<char>, SchemaV)> {
    seq![
        ("OpcListProjects"@, "获取现有项目列表：状态、进度、客户"@, SchemaV { description: None, properties: seq![("status"@, "string"@, "项目状态: active/completed/on_hold"@, None)], required: Seq::<Seq<char>>::empty() }),
        ("OpcListCustomers"@, "获取客户列表：状态、价值、来源"@, SchemaV { description: None, properties: seq![("status"@, "string"@, "客户状态: active/potential/inactive"@, None)], required: Seq::<Seq<char>>::empty() }),
        ("OpcListInvoices"@, "获取发票列表：金额、状态、逾期"@, SchemaV { description: None, properties: seq![("status"@, "string"@, "发票状态: paid/pending/overdue"@, None)], required: Seq::<Seq<char>>::empty() }),
        ("OpcGetDashboard"@, "获取经营仪表盘：收入、成本、利润、关键指标"@, SchemaV { description: None, properties: Seq::<(Seq<char>, Seq<char>, Seq<char>, Option<Seq<char>>)>::empty(), required: Seq::<Seq<char>>::empty() }),
        ("OpcListBlogPosts"@, "获取博客文章列表：阅读量、互动、转化"@, SchemaV { description: None, properties: Seq::<(Seq<char>, Seq<char>, Seq<char>, Option<Seq<char>>)>::empty(), required: Seq::<Seq<char>>::empty() }),
        ("OpcSearchWiki"@, "搜索内部知识库：方案、文档、经验"@, SchemaV { description: None, properties: seq![("query"@, "string"@, "搜索关键词"@, None)], required: seq!["query"@] }),
        ("OpcSendNotification"@, "发送内部通知：决策提醒、任务分配"@, SchemaV { description: None, properties: seq![("message"@, "string"@, "通知内容"@, None), ("priority"@, "string"@, "优先级: low/medium/high"@, Some("medium"@))], required: seq!["message"@] }),
        ("OpcListKpis"@, "获取关键绩效指标：目标、实际、趋势"@, SchemaV { description: None, properties: Seq::<(Seq<char>, Seq<char>, Seq<char>, Option<Seq<char>>)>::empty(), required: Seq::<Seq<char>>::empty() }),
    ]
}

fn demand_tool_defs() -> (r: Vec<DemandToolDef>)
    ensures
        tool_defs_view(r@) == demand_tool_defs_view(),
{
    let s0_props: Vec<SchemaProperty> = vec![prop("status", "string", "项目状态: active/completed/on_hold", None)];
    assert(props_view(s0_props@) =~= seq![("status"@, "string"@, "项目状态: active/completed/on_hold"@, None)]);
    let s0_req = strings(vec![]);
    assert(seq_view(s0_req@) =~= Seq::<Seq<char>>::empty());
    let s0 = ObjectSchema { description: opt_string(None), properties: s0_props, required: s0_req };
    let d0 = DemandToolDef { name: string_of("OpcListProjects"), description: string_of("获取现有项目列表：状态、进度、客户"), parameters: s0 };
    let s1_props: Vec<SchemaProperty> = vec![prop("status", "string", "客户状态: active/potential/inactive", None)];
    assert(props_view(s1_props@) =~= seq![("status"@, "string"@, "客户状态: active/potential/inactive"@, None)]);
    let s1_req = strings(vec![]);
    assert(seq_view(s1_req@) =~= Seq::<Seq<char>>::empty());
    let s1 = ObjectSchema { description: opt_string(None), properties: s1_props, required: s1_req };
    let d1 = DemandToolDef { name: string_of("OpcListCustomers"), description: string_of("获取客户列表：状态、价值、来源"), parameters: s1 };
    let s2_props: Vec<SchemaProperty> = vec![prop("status", "string", "发票状态: paid/pending/overdue", None)];
    assert(props_view(s2_props@) =~= seq![("status"@, "string"@, "发票状态: paid/pending/overdue"@, None)]);
    let s2_req = strings(vec![]);
    assert(seq_view(s2_req@) =~= Seq::<Seq<char>>::empty());
    let s2 = ObjectSchema { description: opt_string(None), properties: s2_props, required: s2_req };
    let d2 = DemandToolDef { name: string_of("OpcListInvoices"), description: string_of("获取发票列表：金额、状态、逾期"), parameters: s2 };
    let s3_props: Vec<SchemaProperty> = vec![];
    assert(props_view(s3_props@) =~= Seq::<(Seq<char>, Seq<char>, Seq<char>, Option<Seq<char>>)>::empty());
    let s3_req = strings(vec![]);
    assert(seq_view(s3_req@) =~= Seq::<Seq<char>>::empty());
    let s3 = ObjectSchema { description: opt_string(None), properties: s3_props, required: s3_req };
    let d3 = DemandToolDef { name: string_of("OpcGetDashboard"), description: string_of("获取经营仪表盘：收入、成本、利润、关键指标"), parameters: s3 };
    let s4_props: Vec<SchemaProperty> = vec![];
    assert(props_view(s4_props@) =~= Seq::<(Seq<char>, Seq<char>, Seq<char>, Option<Seq<char>>)>::empty());
    let s4_req = strings(vec![]);
    assert(seq_view(s4_req@) =~= Seq::<Seq<char>>::empty());
    let s4 = ObjectSchema { description: opt_string(None), properties: s4_props, required: s4_req };
    let d4 = DemandToolDef { name: string_of("OpcListBlogPosts"), description: string_of("获取博客文章列表：阅读量、互动、转化"), parameters: s4 };
    let s5_props: Vec<SchemaProperty> = vec![prop("query", "string", "搜索关键词", None)];
    assert(props_view(s5_props@) =~= seq![("query"@, "string"@, "搜索关键词"@, None)]);
    let s5_req = strings(vec!["query"]);
    assert(seq_view(s5_req@) =~= seq!["query"@]);
    let s5 = ObjectSchema { description: opt_string(None), properties: s5_props, required: s5_req };
    let d5 = DemandToolDef { name: string_of("OpcSearchWiki"), description: string_of("搜索内部知识库：方案、文档、经验"), parameters: s5 };
    let s6_props: Vec<SchemaProperty> = vec![prop("message", "string", "通知内容", None), prop("priority", "string", "优先级: low/medium/high", Some("medium"))];
    assert(props_view(s6_props@) =~= seq![("message"@, "string"@, "通知内容"@, None), ("priority"@, "string"@, "优先级: low/medium/high"@, Some("medium"@))]);
    let s6_req = strings(vec!["message"]);
    assert(seq_view(s6_req@) =~= seq!["message"@]);
    let s6 = ObjectSchema { description: opt_string(None), properties: s6_props, required: s6_req };
    let d6 = DemandToolDef { name: string_of("OpcSendNotification"), description: string_of("发送内部通知：决策提醒、任务分配"), parameters: s6 };
    let s7_props: Vec<SchemaProperty> = vec![];
    assert(props_view(s7_props@) =~= Seq::<(Seq<char>, Seq<char>, Seq<char>, Option<Seq<char>>)>::empty());
    let s7_req = strings(vec![]);
    assert(seq_view(s7_req@) =~= Seq::<Seq<char>>::empty());
    let s7 = ObjectSchema { description: opt_string(None), properties: s7_props, required: s7_req };
    let d7 = DemandToolDef { name: string_of("OpcListKpis"), description: string_of("获取关键绩效指标：目标、实际、趋势"), parameters: s7 };
    let r = vec![d0, d1, d2, d3, d4, d5, d6, d7];
    assert(tool_defs_view(r@) =~= demand_tool_defs_view());
    r
}

/// The error policy of the demand template (JSON): stop on error after
/// one retry, falling back to the previous result.
pub const DEMAND_ERROR_CONFIG: &'static str = "{\"fallback_to_previous\":true,\"max_retries\":1,\"on_error\":\"stop\"}";

/// The demand-discovery template as stamped `now`: a trigger; six
/// analyst pairs (a data tool and an analyst agent) inside the parallel
/// container `p-analysts`; the CEO decision agent fed by all analysts; a
/// notification; the end.
pub open spec fn demand_template_view(now: i64) -> DemandTemplateV {
    DemandTemplateV {
        id: DEMAND_TEMPLATE_ID@,
        name: "OPC 需求发现"@,
        description: "多维度并行分析（营销/产品/技术/财务/运营/综合）→ CEO 决策 → 通知相关方"@,
        icon: "lightbulb"@,
        tags: seq!["opc"@, "demand-discovery"@, "preset"@],
        version: DEMAND_TEMPLATE_VERSION,
        is_preset: true,
        is_editable: true,
        is_public: true,
        trigger_description: "{{demand_description}}"@,
        nodes: seq![demand_node_0_view(), demand_node_1_view(), demand_node_2_view(), demand_node_3_view(), demand_node_4_view(), demand_node_5_view(), demand_node_6_view(), demand_node_7_view(), demand_node_8_view(), demand_node_9_view(), demand_node_10_view(), demand_node_11_view(), demand_node_12_view(), demand_node_13_view(), demand_node_14_view(), demand_node_15_view(), demand_node_16_view()],
        edges: seq![
            direct_edge("e-trigger-t-customers-data"@, "trigger"@, "t-customers-data"@),
            direct_edge("e-t-customers-data-a-cmo-analysis"@, "t-customers-data"@, "a-cmo-analysis"@),
            direct_edge("e-trigger-t-projects-data"@, "trigger"@, "t-projects-data"@),
            direct_edge("e-t-projects-data-a-cpo-analysis"@, "t-projects-data"@, "a-cpo-analysis"@),
            direct_edge("e-trigger-t-tech-data"@, "trigger"@, "t-tech-data"@),
            direct_edge("e-t-tech-data-a-cto-analysis"@, "t-tech-data"@, "a-cto-analysis"@),
            direct_edge("e-trigger-t-finance-data"@, "trigger"@, "t-finance-data"@),
            direct_edge("e-t-finance-data-a-cfo-analysis"@, "t-finance-data"@, "a-cfo-analysis"@),
            direct_edge("e-trigger-t-ops-data"@, "trigger"@, "t-ops-data"@),
            direct_edge("e-t-ops-data-a-coo-analysis"@, "t-ops-data"@, "a-coo-analysis"@),
            direct_edge("e-trigger-t-dashboard-data"@, "trigger"@, "t-dashboard-data"@),
            direct_edge("e-t-dashboard-data-a-ceo-analysis"@, "t-dashboard-data"@, "a-ceo-analysis"@),
            direct_edge("e-trigger-p-analysts"@, "trigger"@, "p-analysts"@),
            direct_edge("e-a-cmo-analysis-ceo"@, "a-cmo-analysis"@, "a-ceo-decision"@),
            direct_edge("e-a-cpo-analysis-ceo"@, "a-cpo-analysis"@, "a-ceo-decision"@),
            direct_edge("e-a-cto-analysis-ceo"@, "a-cto-analysis"@, "a-ceo-decision"@),
            direct_edge("e-a-cfo-analysis-ceo"@, "a-cfo-analysis"@, "a-ceo-decision"@),
            direct_edge("e-a-coo-analysis-ceo"@, "a-coo-analysis"@, "a-ceo-decision"@),
            direct_edge("e-a-ceo-analysis-ceo"@, "a-ceo-analysis"@, "a-ceo-decision"@),
            direct_edge("e-ceo-notify"@, "a-ceo-decision"@, "n-notify"@),
            direct_edge("e-notify-end"@, "n-notify"@, "end"@),
        ],
        tool_defs: demand_tool_defs_view(),
        input_schema: SchemaV { description: Some("需求发现输入"@), properties: seq![("description"@, "string"@, "需求描述（可选）"@, None)], required: Seq::<Seq<char>>::empty() },
        output_schema: SchemaV { description: Some("需求发现输出"@), properties: seq![("decision"@, "string"@, "决策结论: GO/NO-GO/CONDITIONAL GO"@, None), ("actions"@, "array"@, "行动清单"@, None)], required: seq!["decision"@] },
        variables: seq![("demand_description"@, "需求描述"@, ""@, "string"@), ("priority_threshold"@, "优先级阈值"@, "P1"@, "string"@), ("budget_limit"@, "预算上限"@, "50000"@, "number"@)],
        error_config: DEMAND_ERROR_CONFIG@,
        created_at: now,
        updated_at: now,
    }
}

/// Builds the demand-discovery template stamped `now` (see
/// `demand_template_view`).
#[verifier::rlimit(50)]
pub fn demand_discovery_template(now: i64) -> (t: DemandTemplate)
    ensures
        t.view() == demand_template_view(now),
{
    let nodes = vec![demand_node_0(), demand_node_1(), demand_node_2(), demand_node_3(), demand_node_4(), demand_node_5(), demand_node_6(), demand_node_7(), demand_node_8(), demand_node_9(), demand_node_10(), demand_node_11(), demand_node_12(), demand_node_13(), demand_node_14(), demand_node_15(), demand_node_16()];
    assert(demand_nodes_view(nodes@) =~= seq![demand_node_0_view(), demand_node_1_view(), demand_node_2_view(), demand_node_3_view(), demand_node_4_view(), demand_node_5_view(), demand_node_6_view(), demand_node_7_view(), demand_node_8_view(), demand_node_9_view(), demand_node_10_view(), demand_node_11_view(), demand_node_12_view(), demand_node_13_view(), demand_node_14_view(), demand_node_15_view(), demand_node_16_view()]);
    let edges = vec![
        edge("e-trigger-t-customers-data", "trigger", "t-customers-data"),
        edge("e-t-customers-data-a-cmo-analysis", "t-customers-data", "a-cmo-analysis"),
        edge("e-trigger-t-projects-data", "trigger", "t-projects-data"),
        edge("e-t-projects-data-a-cpo-analysis", "t-projects-data", "a-cpo-analysis"),
        edge("e-trigger-t-tech-data", "trigger", "t-tech-data"),
        edge("e-t-tech-data-a-cto-analysis", "t-tech-data", "a-cto-analysis"),
        edge("e-trigger-t-finance-data", "trigger", "t-finance-data"),
        edge("e-t-finance-data-a-cfo-analysis", "t-finance-data", "a-cfo-analysis"),
        edge("e-trigger-t-ops-data", "trigger", "t-ops-data"),
        edge("e-t-ops-data-a-coo-analysis", "t-ops-data", "a-coo-analysis"),
        edge("e-trigger-t-dashboard-data", "trigger", "t-dashboard-data"),
        edge("e-t-dashboard-data-a-ceo-analysis", "t-dashboard-data", "a-ceo-analysis"),
        edge("e-trigger-p-analysts", "trigger", "p-analysts"),
        edge("e-a-cmo-analysis-ceo", "a-cmo-analysis", "a-ceo-decision"),
        edge("e-a-cpo-analysis-ceo", "a-cpo-analysis", "a-ceo-decision"),
        edge("e-a-cto-analysis-ceo", "a-cto-analysis", "a-ceo-decision"),
        edge("e-a-cfo-analysis-ceo", "a-cfo-analysis", "a-ceo-decision"),
        edge("e-a-coo-analysis-ceo", "a-coo-analysis", "a-ceo-decision"),
        edge("e-a-ceo-analysis-ceo", "a-ceo-analysis", "a-ceo-decision"),
        edge("e-ceo-notify", "a-ceo-decision", "n-notify"),
        edge("e-notify-end", "n-notify", "end"),
    ];
    assert(edges_view(edges@) =~= seq![
        direct_edge("e-trigger-t-customers-data"@, "trigger"@, "t-customers-data"@),
        direct_edge("e-t-customers-data-a-cmo-analysis"@, "t-customers-data"@, "a-cmo-analysis"@),
        direct_edge("e-trigger-t-projects-data"@, "trigger"@, "t-projects-data"@),
        direct_edge("e-t-projects-data-a-cpo-analysis"@, "t-projects-data"@, "a-cpo-analysis"@),
        direct_edge("e-trigger-t-tech-data"@, "trigger"@, "t-tech-data"@),
        direct_edge("e-t-tech-data-a-cto-analysis"@, "t-tech-data"@, "a-cto-analysis"@),
        direct_edge("e-trigger-t-finance-data"@, "trigger"@, "t-finance-data"@),
        direct_edge("e-t-finance-data-a-cfo-analysis"@, "t-finance-data"@, "a-cfo-analysis"@),
        direct_edge("e-trigger-t-ops-data"@, "trigger"@, "t-ops-data"@),
        direct_edge("e-t-ops-data-a-coo-analysis"@, "t-ops-data"@, "a-coo-analysis"@),
        direct_edge("e-trigger-t-dashboard-data"@, "trigger"@, "t-dashboard-data"@),
        direct_edge("e-t-dashboard-data-a-ceo-analysis"@, "t-dashboard-data"@, "a-ceo-analysis"@),
        direct_edge("e-trigger-p-analysts"@, "trigger"@, "p-analysts"@),
        direct_edge("e-a-cmo-analysis-ceo"@, "a-cmo-analysis"@, "a-ceo-decision"@),
        direct_edge("e-a-cpo-analysis-ceo"@, "a-cpo-analysis"@, "a-ceo-decision"@),
        direct_edge("e-a-cto-analysis-ceo"@, "a-cto-analysis"@, "a-ceo-decision"@),
        direct_edge("e-a-cfo-analysis-ceo"@, "a-cfo-analysis"@, "a-ceo-decision"@),
        direct_edge("e-a-coo-analysis-ceo"@, "a-coo-analysis"@, "a-ceo-decision"@),
        direct_edge("e-a-ceo-analysis-ceo"@, "a-ceo-analysis"@, "a-ceo-decision"@),
        direct_edge("e-ceo-notify"@, "a-ceo-decision"@, "n-notify"@),
        direct_edge("e-notify-end"@, "n-notify"@, "end"@),
    ]);
    let tags = strings(vec!["opc", "demand-discovery", "preset"]);
    assert(seq_view(tags@) =~= seq!["opc"@, "demand-discovery"@, "preset"@]);
    let input_schema_props: Vec<SchemaProperty> = vec![prop("description", "string", "需求描述（可选）", None)];
    assert(props_view(input_schema_props@) =~= seq![("description"@, "string"@, "需求描述（可选）"@, None)]);
    let input_schema_req = strings(vec![]);
    assert(seq_view(input_schema_req@) =~= Seq::<Seq<char>>::empty());
    let input_schema = ObjectSchema { description: opt_string(Some("需求发现输入")), properties: input_schema_props, required: input_schema_req };
    let output_schema_props: Vec<SchemaProperty> = vec![prop("decision", "string", "决策结论: GO/NO-GO/CONDITIONAL GO", None), prop("actions", "array", "行动清单", None)];
    assert(props_view(output_schema_props@) =~= seq![("decision"@, "string"@, "决策结论: GO/NO-GO/CONDITIONAL GO"@, None), ("actions"@, "array"@, "行动清单"@, None)]);
    let output_schema_req = strings(vec!["decision"]);
    assert(seq_view(output_schema_req@) =~= seq!["decision"@]);
    let output_schema = ObjectSchema { description: opt_string(Some("需求发现输出")), properties: output_schema_props, required: output_schema_req };
    let variables = vec![TemplateVariable { name: string_of("demand_description"), description: string_of("需求描述"), value: string_of(""), var_type: string_of("string") }, TemplateVariable { name: string_of("priority_threshold"), description: string_of("优先级阈值"), value: string_of("P1"), var_type: string_of("string") }, TemplateVariable { name: string_of("budget_limit"), description: string_of("预算上限"), value: string_of("50000"), var_type: string_of("number") }];
    assert(variables_view(variables@) =~= seq![("demand_description"@, "需求描述"@, ""@, "string"@), ("priority_threshold"@, "优先级阈值"@, "P1"@, "string"@), ("budget_limit"@, "预算上限"@, "50000"@, "number"@)]);
    DemandTemplate {
        id: string_of(DEMAND_TEMPLATE_ID),
        name: string_of("OPC 需求发现"),
        description: string_of("多维度并行分析（营销/产品/技术/财务/运营/综合）→ CEO 决策 → 通知相关方"),
        icon: string_of("lightbulb"),
        tags,
        version: DEMAND_TEMPLATE_VERSION,
        is_preset: true,
        is_editable: true,
        is_public: true,
        trigger_description: string_of("{{demand_description}}"),
        nodes,
        edges,
        tool_defs: demand_tool_defs(),
        input_schema,
        output_schema,
        variables,
        error_config: string_of(DEMAND_ERROR_CONFIG),
        created_at: now,
        updated_at: now,
    }
}

} // verus!

verus! {

/// The ids of the nodes of a demand template view.
pub open spec fn demand_node_ids(v: DemandTemplateV) -> Seq<Seq<char>> {
    v.nodes.map_values(|n: DemandNodeV| n.base.id)
}

/// Law: every edge of the demand-discovery template is an unconditional
/// edge that leaves a node of the template and enters a node of the
/// template.
pub proof fn law_demand_edges_join_nodes(now: i64)
    ensures
        forall|k: int|
            0 <= k < demand_template_view(now).edges.len() ==> {
                let e = #[trigger] demand_template_view(now).edges[k];
                &&& demand_node_ids(demand_template_view(now)).contains(e.source)
                &&& demand_node_ids(demand_template_view(now)).contains(e.target)
                &&& e.kind == crate::workflow::EdgeType::Direct
                &&& e.handle == None::<Seq<char>>
            },
{
    let v = demand_template_view(now);
    let ids = demand_node_ids(v);
    assert forall|k: int| 0 <= k < v.edges.len() implies {
        let e = #[trigger] v.edges[k];
        &&& ids.contains(e.source)
        &&& ids.contains(e.target)
        &&& e.kind == crate::workflow::EdgeType::Direct
        &&& e.handle == None::<Seq<char>>
    } by {
        if k == 0 {
            assert(ids[0] == v.edges[0].source && ids[1] == v.edges[0].target);
        } else if k == 1 {
            assert(ids[1] == v.edges[1].source && ids[2] == v.edges[1].target);
        } else if k == 2 {
            assert(ids[0] == v.edges[2].source && ids[3] == v.edges[2].target);
        } else if k == 3 {
            assert(ids[3] == v.edges[3].source && ids[4] == v.edges[3].target);
        } else if k == 4 {
            assert(ids[0] == v.edges[4].source && ids[5] == v.edges[4].target);
        } else if k == 5 {
            assert(ids[5] == v.edges[5].source && ids[6] == v.edges[5].target);
        } else if k == 6 {
            assert(ids[0] == v.edges[6].source && ids[7] == v.edges[6].target);
        } else if k == 7 {
            assert(ids[7] == v.edges[7].source && ids[8] == v.edges[7].target);
        } else if k == 8 {
            assert(ids[0] == v.edges[8].source && ids[9] == v.edges[8].target);
        } else if k == 9 {
            assert(ids[9] == v.edges[9].source && ids[10] == v.edges[9].target);
        } else if k == 10 {
            assert(ids[0] == v.edges[10].source && ids[11] == v.edges[10].target);
        } else if k == 11 {
            assert(ids[11] == v.edges[11].source && ids[12] == v.edges[11].target);
        } else if k == 12 {
            assert(ids[0] == v.edges[12].source && ids[13] == v.edges[12].target);
        } else if k == 13 {
            assert(ids[2] == v.edges[13].source && ids[14] == v.edges[13].target);
        } else if k == 14 {
            assert(ids[4] == v.edges[14].source && ids[14] == v.edges[14].target);
        } else if k == 15 {
            assert(ids[6] == v.edges[15].source && ids[14] == v.edges[15].target);
        } else if k == 16 {
            assert(ids[8] == v.edges[16].source && ids[14] == v.edges[16].target);
        } else if k == 17 {
            assert(ids[10] == v.edges[17].source && ids[14] == v.edges[17].target);
        } else if k == 18 {
            assert(ids[12] == v.edges[18].source && ids[14] == v.edges[18].target);
        } else if k == 19 {
            assert(ids[14] == v.edges[19].source && ids[15] == v.edges[19].target);
        } else if k == 20 {
            assert(ids[15] == v.edges[20].source && ids[16] == v.edges[20].target);
        }
    }
}

} // verus!
