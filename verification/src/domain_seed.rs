use vstd::prelude::*;
use crate::clock::now_millis;
use crate::workflow::{
    keys_distinct, make_base, node_inputs_distinct, nodes_view, edges_view, pair_seq_view, seq_view, tools_view, AgentConfig, AgentV,
    BaseV, EdgeType, EdgeV, NodeV, OnFailureAction, TemplateV, ToolDef, ToolV, TriggerType, WorkflowEdge,
    WorkflowNode, WorkflowTemplate,
};
use crate::text::string_of;

verus! {

/// Version of the hand-built domain workflows.
pub const DOMAIN_TEMPLATE_VERSION: i32 = 2;

/// The manual trigger node at `(x, y)`.
pub open spec fn trigger_view(x: int, y: int) -> NodeV {
    NodeV::Trigger(BaseV { id: "trigger"@, title: "手动启动"@, description: "用户选择后启动工作流"@, x, y })
}

/// The end node at `(x, y)`.
pub open spec fn end_view(x: int, y: int) -> NodeV {
    NodeV::End(BaseV { id: "end"@, title: "完成"@, description: ""@, x, y })
}

/// A tool known by name only.
pub open spec fn name_tool(name: Seq<char>) -> ToolV {
    ToolV { name, description: None, parameters: None }
}

/// An unconditional edge.
pub open spec fn direct_edge(id: Seq<char>, source: Seq<char>, target: Seq<char>) -> EdgeV {
    EdgeV { id, source, target, kind: EdgeType::Direct, handle: None }
}

/// The views of a list of templates.
pub open spec fn templates_view(ts: Seq<WorkflowTemplate>) -> Seq<TemplateV> {
    ts.map_values(|t: WorkflowTemplate| t.view())
}

/// Whether a stored domain template at `existing` version is replaced:
/// only when none is stored or it is older than `DOMAIN_TEMPLATE_VERSION`
/// (edits made by the user to a current template survive restarts).
pub fn domain_template_should_seed(existing: Option<i32>) -> (r: bool)
    ensures
        r == match existing {
            Some(v) => v < DOMAIN_TEMPLATE_VERSION,
            None => true,
        },
{
    crate::industry_pack::template_needs_seed(existing, DOMAIN_TEMPLATE_VERSION)
}

/// Whether a stored domain template at `existing` version is rewritten.
pub open spec fn should_reseed(existing: Option<i32>) -> bool {
    match existing {
        Some(v) => v < DOMAIN_TEMPLATE_VERSION,
        None => true,
    }
}

/// How many of the stored versions `existing` a seeding pass rewrites.
pub open spec fn reseed_count(existing: Seq<Option<i32>>) -> nat
    decreases existing.len(),
{
    if existing.len() == 0 {
        0
    } else {
        reseed_count(existing.drop_last()) + if should_reseed(existing.last()) {
            1nat
        } else {
            0nat
        }
    }
}

/// The stored versions after a seeding pass: rewritten templates are at
/// `DOMAIN_TEMPLATE_VERSION`, the others are left as they were.
pub open spec fn versions_after_reseed(existing: Seq<Option<i32>>) -> Seq<Option<i32>> {
    existing.map_values(
        |e: Option<i32>|
            if should_reseed(e) {
                Some(DOMAIN_TEMPLATE_VERSION)
            } else {
                e
            },
    )
}

proof fn lemma_reseed_count_bound(existing: Seq<Option<i32>>)
    ensures
        reseed_count(existing) <= existing.len(),
        (forall|k: int| 0 <= k < existing.len() ==> !should_reseed(#[trigger] existing[k])) ==> reseed_count(
            existing,
        ) == 0,
    decreases existing.len(),
{
    if existing.len() > 0 {
        let d = existing.drop_last();
        lemma_reseed_count_bound(d);
        assert forall|k: int| 0 <= k < d.len() implies #[trigger] d[k] == existing[k] by {}
    }
}

/// For each stored version (`None`: no template stored), whether the
/// domain seeding pass rewrites the template, and how many it rewrites.
pub fn domain_reseed_plan(existing: &Vec<Option<i32>>) -> (r: (Vec<bool>, usize))
    ensures
        r.0@ == existing@.map_values(|e: Option<i32>| should_reseed(e)),
        r.1 == reseed_count(existing@),
{
    let mut flags: Vec<bool> = Vec::new();
    let mut count: usize = 0;
    let mut k: usize = 0;
    while k < existing.len()
        invariant
            k <= existing.len(),
            count <= k,
            flags@ == existing@.take(k as int).map_values(|e: Option<i32>| should_reseed(e)),
            count == reseed_count(existing@.take(k as int)),
        decreases existing.len() - k,
    {
        let f = domain_template_should_seed(existing[k]);
        flags.push(f);
        assert(existing@.take(k + 1).drop_last() =~= existing@.take(k as int));
        if f {
            count = count + 1;
        }
        assert(flags@ =~= existing@.take(k + 1).map_values(|e: Option<i32>| should_reseed(e)));
        k = k + 1;
    }
    assert(existing@.take(existing.len() as int) =~= existing@);
    (flags, count)
}

/// Law: a domain seeding pass rewrites at most one template per stored
/// entry; afterwards every template is at `DOMAIN_TEMPLATE_VERSION` or
/// newer, those that already were are left untouched (user edits survive
/// restarts), and a second pass rewrites none.
pub proof fn law_domain_reseed_counts(existing: Seq<Option<i32>>)
    ensures
        reseed_count(existing) <= existing.len(),
        versions_after_reseed(existing).len() == existing.len(),
        forall|k: int|
            0 <= k < existing.len() ==> (#[trigger] versions_after_reseed(existing)[k] matches Some(v)
                && v >= DOMAIN_TEMPLATE_VERSION),
        forall|k: int|
            0 <= k < existing.len() && !should_reseed(existing[k]) ==> #[trigger] versions_after_reseed(
                existing,
            )[k] == existing[k],
        reseed_count(versions_after_reseed(existing)) == 0,
{
    lemma_reseed_count_bound(existing);
    let after = versions_after_reseed(existing);
    assert forall|k: int| 0 <= k < after.len() implies !should_reseed(#[trigger] after[k]) by {}
    lemma_reseed_count_bound(after);
}

/// The manual trigger node at `(x, y)`.
pub fn make_trigger(x: i64, y: i64) -> (n: WorkflowNode)
    ensures
        n.view() == trigger_view(x as int, y as int),
{
    WorkflowNode::Trigger(make_base("trigger", "手动启动", "用户选择后启动工作流", x, y))
}

/// The end node at `(x, y)`.
pub fn make_end(x: i64, y: i64) -> (n: WorkflowNode)
    ensures
        n.view() == end_view(x as int, y as int),
{
    WorkflowNode::End(make_base("end", "完成", "", x, y))
}

/// The agent node `id` a domain workflow uses: the prompt, the tools
/// (all exposed), the profile, ten tool rounds, the worker model role,
/// no hallucination guard, the given input mapping.
pub open spec fn domain_agent_view(
    id: Seq<char>,
    title: Seq<char>,
    prompt: Seq<char>,
    tools: Seq<ToolV>,
    profile_id: Option<Seq<char>>,
    output_var: Seq<char>,
    inputs: Seq<(Seq<char>, Seq<char>)>,
    x: int,
    y: int,
) -> NodeV {
    NodeV::Agent(
        BaseV { id, title, description: ""@, x, y },
        AgentV {
            system_prompt: prompt,
            output_var,
            tools,
            exposed_tools: tools.map_values(|t: ToolV| t.name),
            agent_profile_id: profile_id,
            max_tool_rounds: Some(10u32),
            model_role: Some("opc-worker"@),
            hallucination_guard: false,
            input_mapping: inputs,
        },
    )
}

fn tool_names_of(tools: &Vec<ToolDef>) -> (r: Vec<String>)
    ensures
        seq_view(r@) == tools_view(tools@).map_values(|t: ToolV| t.name),
{
    let mut r: Vec<String> = Vec::new();
    let mut i: usize = 0;
    while i < tools.len()
        invariant
            i <= tools.len(),
            seq_view(r@) == tools_view(tools@).take(i as int).map_values(|t: ToolV| t.name),
        decreases tools.len() - i,
    {
        let ghost before = r@;
        r.push(crate::workflow::copy_string(&tools[i].name));
        assert(seq_view(r@) =~= seq_view(before).push(tools@[i as int].name@));
        assert(tools_view(tools@).take(i + 1).map_values(|t: ToolV| t.name) =~= tools_view(tools@).take(
            i as int,
        ).map_values(|t: ToolV| t.name).push(tools@[i as int].name@));
        i = i + 1;
    }
    assert(tools_view(tools@).take(tools.len() as int) =~= tools_view(tools@));
    r
}

/// An agent node with no input mapping (see `domain_agent_view`).
pub fn make_agent_node(
    id: &str,
    title: &str,
    prompt: &str,
    tools: Vec<ToolDef>,
    profile_id: Option<&str>,
    output_var: &str,
    x: i64,
    y: i64,
) -> (n: WorkflowNode)
    ensures
        n.view() == domain_agent_view(
            id@,
            title@,
            prompt@,
            tools_view(tools@),
            match profile_id {
                Some(p) => Some(p@),
                None => None,
            },
            output_var@,
            seq![],
            x as int,
            y as int,
        ),
{
    let no_inputs: Vec<(String, String)> = Vec::new();
    assert(pair_seq_view(no_inputs@) =~= Seq::<(Seq<char>, Seq<char>)>::empty());
    make_agent_node_with_inputs(id, title, prompt, tools, profile_id, output_var, no_inputs, x, y)
}

/// An agent node reading its inputs from the given upstream outputs (see
/// `domain_agent_view`); the inputs are a map, so no name occurs twice.
pub fn make_agent_node_with_inputs(
    id: &str,
    title: &str,
    prompt: &str,
    tools: Vec<ToolDef>,
    profile_id: Option<&str>,
    output_var: &str,
    input_mapping: Vec<(String, String)>,
    x: i64,
    y: i64,
) -> (n: WorkflowNode)
    requires
        keys_distinct(pair_seq_view(input_mapping@)),
    ensures
        node_inputs_distinct(n.view()),
        n.view() == domain_agent_view(
            id@,
            title@,
            prompt@,
            tools_view(tools@),
            match profile_id {
                Some(p) => Some(p@),
                None => None,
            },
            output_var@,
            pair_seq_view(input_mapping@),
            x as int,
            y as int,
        ),
{
    let exposed = tool_names_of(&tools);
    let profile = match profile_id {
        Some(p) => Some(string_of(p)),
        None => None,
    };
    let cfg = AgentConfig {
        system_prompt: string_of(prompt),
        output_var: string_of(output_var),
        tools,
        exposed_tools: exposed,
        agent_profile_id: profile,
        max_tool_rounds: Some(10),
        model_role: Some(string_of("opc-worker")),
        hallucination_guard: false,
        input_mapping,
    };
    WorkflowNode::Agent(make_base(id, title, "", x, y), cfg)
}

/// The template of a hand-built domain workflow: preset and editable, not
/// public, at `DOMAIN_TEMPLATE_VERSION`, without template variables,
/// failing by retry-then-abort.
pub open spec fn domain_template_view(
    id: Seq<char>,
    name: Seq<char>,
    description: Seq<char>,
    icon: Seq<char>,
    tags: Seq<Seq<char>>,
    nodes: Seq<NodeV>,
    edges: Seq<crate::workflow::EdgeV>,
    now: i64,
) -> TemplateV {
    TemplateV {
        id,
        name,
        description,
        icon,
        tags,
        version: DOMAIN_TEMPLATE_VERSION,
        is_preset: true,
        is_editable: true,
        is_public: false,
        trigger_config: Some(TriggerType::Manual),
        nodes,
        edges,
        variables: seq![],
        error_config: Some(OnFailureAction::RetryThenAbort),
        created_at: now,
        updated_at: now,
    }
}

/// Assembles a domain workflow template from its nodes and edges, stamped
/// `now`. The profile is carried by the nodes; the template itself does not
/// record it.
pub fn build_domain_template_at(
    id: &str,
    name: &str,
    description: &str,
    icon: &str,
    tags: Vec<String>,
    profile_id: &str,
    nodes: Vec<WorkflowNode>,
    edges: Vec<WorkflowEdge>,
    now: i64,
) -> (t: WorkflowTemplate)
    ensures
        t.view() == domain_template_view(
            id@,
            name@,
            description@,
            icon@,
            seq_view(tags@),
            nodes_view(nodes@),
            edges_view(edges@),
            now,
        ),
{
    let _ = profile_id;
    let variables: Vec<String> = Vec::new();
    assert(seq_view(variables@) =~= seq![]);
    WorkflowTemplate {
        id: string_of(id),
        name: string_of(name),
        description: string_of(description),
        icon: string_of(icon),
        tags,
        version: DOMAIN_TEMPLATE_VERSION,
        is_preset: true,
        is_editable: true,
        is_public: false,
        trigger_config: Some(TriggerType::Manual),
        nodes,
        edges,
        variables,
        error_config: Some(OnFailureAction::RetryThenAbort),
        created_at: now,
        updated_at: now,
    }
}

/// `build_domain_template_at` stamped with the current time.
pub fn build_domain_template(
    id: &str,
    name: &str,
    description: &str,
    icon: &str,
    tags: Vec<String>,
    profile_id: &str,
    nodes: Vec<WorkflowNode>,
    edges: Vec<WorkflowEdge>,
) -> (t: WorkflowTemplate)
    ensures
        t.view() == domain_template_view(
            id@,
            name@,
            description@,
            icon@,
            seq_view(tags@),
            nodes_view(nodes@),
            edges_view(edges@),
            t.created_at,
        ),
{
    let now = now_millis();
    build_domain_template_at(id, name, description, icon, tags, profile_id, nodes, edges, now)
}

} // verus!
