use vstd::prelude::*;
use crate::clock::now_millis;
use crate::text::{push_str, string_of};
use crate::workflow::{
    cond_edge, copy_opt_string, copy_pairs, copy_string, copy_strings, edge, eid, make_base,
    make_eid, opt_view, pair_seq_view, prompt_variables, template_variables, OnFailureAction, select_tool_defs, select_tools, seq_view, tool_names,
    tools_view, TriggerType, keys_distinct, node_inputs_distinct, AgentConfig, AgentV, ApprovalConfig, ApprovalV, BaseV, EdgeType, EdgeV, NodeV,
    ToolDef, ToolV, WorkflowEdge, WorkflowNode, WorkflowTemplate, TemplateV, nodes_view,
    edges_view, edges_well_formed,
};

verus! {

/// Root of the industry packs, relative to the repository root.
pub const INDUSTRIES_DIR: &'static str = "config/opc/industries";

/// Root of the domain packs, relative to the repository root.
pub const DOMAINS_DIR: &'static str = "config/opc/domains";

/// `manifest.yaml` of a pack.
#[derive(Debug)]
pub struct IndustryManifest {
    pub id: String,
    pub name: String,
    pub icon: String,
    pub description: String,
    pub version: i32,
    pub enabled: bool,
}

/// A workflow of a pack (`workflows/*.yaml`).
#[derive(Debug)]
pub struct IndustryWorkflow {
    pub id: String,
    pub name: String,
    pub description: String,
    pub icon: String,
    pub tags: Vec<String>,
    /// The role profile every agent step is bound to.
    pub profile_id: String,
    /// The steps, chained in order.
    pub steps: Vec<IndustryStep>,
    /// The failure policy its `error_handling` section declares, if any.
    pub error_handling: Option<OnFailureAction>,
}

/// One step of a pack workflow.
#[derive(Debug)]
pub struct IndustryStep {
    pub id: String,
    pub title: String,
    pub prompt: String,
    /// "approval" for a human approval step; anything else is an agent step.
    pub node_type: String,
    pub approval: Option<IndustryApproval>,
    /// Input variable name and the upstream output path it reads; a map,
    /// so no variable name occurs twice (see `inputs_distinct`).
    pub inputs: Vec<(String, String)>,
    /// Names of the tools the step may call.
    pub tools: Vec<String>,
}

/// Settings of an approval step.
#[derive(Debug)]
pub struct IndustryApproval {
    pub message: String,
    pub approver: String,
    pub timeout_secs: u64,
    pub timeout_action: String,
}

pub open spec fn default_icon_text() -> Seq<char> {
    "🏢"@
}

pub open spec fn default_approval_message_text() -> Seq<char> {
    "请审批。24小时超时自动拒绝。"@
}

pub open spec fn default_timeout_action_text() -> Seq<char> {
    "auto_reject"@
}

/// Law: what a pack file leaves out defaults to the building icon 🏢, an
/// approval message saying the request auto-rejects after 24 hours, and
/// the `auto_reject` timeout action.
pub proof fn law_pack_defaults()
    ensures
        default_icon_text() == "🏢"@,
        default_approval_message_text() == "请审批。24小时超时自动拒绝。"@,
        default_timeout_action_text() == "auto_reject"@,
{
}

/// Icon of a manifest that names none.
pub fn default_icon() -> (r: String)
    ensures
        r@ == default_icon_text(),
{
    string_of("🏢")
}

/// Version of a manifest that names none.
pub fn default_version() -> (r: i32)
    ensures
        r == 1,
{
    1
}

/// A manifest is enabled unless it says otherwise.
pub fn default_true() -> (r: bool)
    ensures
        r,
{
    true
}

/// Message of an approval that names none.
pub fn default_approval_message() -> (r: String)
    ensures
        r@ == default_approval_message_text(),
{
    string_of("请审批。24小时超时自动拒绝。")
}

/// Timeout, in seconds, of an approval that names none.
pub fn default_timeout() -> (r: u64)
    ensures
        r == 86400,
{
    86400
}

/// Timeout action of an approval that names none.
pub fn default_timeout_action() -> (r: String)
    ensures
        r@ == default_timeout_action_text(),
{
    string_of("auto_reject")
}

// ── the specification of a pack workflow as a template ──────────────

pub open spec fn trigger_id() -> Seq<char> {
    "trigger"@
}

pub open spec fn end_id() -> Seq<char> {
    "end"@
}

pub open spec fn is_approval_step(s: IndustryStep) -> bool {
    s.node_type@ == "approval"@
}

pub open spec fn step_ids(w: IndustryWorkflow) -> Seq<Seq<char>> {
    w.steps@.map_values(|s: IndustryStep| s.id@)
}

pub open spec fn step_prompts(w: IndustryWorkflow) -> Seq<Seq<char>> {
    w.steps@.map_values(|s: IndustryStep| s.prompt@)
}

pub open spec fn step_kinds(w: IndustryWorkflow) -> Seq<bool> {
    w.steps@.map_values(|s: IndustryStep| is_approval_step(s))
}

pub open spec fn has_approval(appr: Seq<bool>) -> bool {
    exists|k: int| 0 <= k < appr.len() && appr[k]
}

/// The edge into step `k` of an approval chain: a "true" branch when the
/// step before it is an approval, an unconditional edge otherwise.
pub open spec fn in_edge(ids: Seq<Seq<char>>, appr: Seq<bool>, k: int) -> EdgeV {
    let prev = if k == 0 {
        trigger_id()
    } else {
        ids[k - 1]
    };
    if k > 0 && appr[k - 1] {
        EdgeV {
            id: eid(prev, ids[k]) + "-true"@,
            source: prev,
            target: ids[k],
            kind: EdgeType::ConditionTrue,
            handle: Some("true"@),
        }
    } else {
        EdgeV { id: eid(prev, ids[k]), source: prev, target: ids[k], kind: EdgeType::Direct, handle: None }
    }
}

/// The rejection branch of approval step `sid`.
pub open spec fn reject_edge(sid: Seq<char>) -> EdgeV {
    EdgeV {
        id: "e-"@ + sid + "-end-false"@,
        source: sid,
        target: end_id(),
        kind: EdgeType::ConditionFalse,
            handle: Some("false"@),
    }
}

pub open spec fn step_edges(ids: Seq<Seq<char>>, appr: Seq<bool>, k: int) -> Seq<EdgeV> {
    if appr[k] {
        seq![in_edge(ids, appr, k), reject_edge(ids[k])]
    } else {
        seq![in_edge(ids, appr, k)]
    }
}

/// The edges of steps `0..k` of an approval chain.
pub open spec fn approval_chain(ids: Seq<Seq<char>>, appr: Seq<bool>, k: int) -> Seq<EdgeV>
    decreases k,
{
    if k <= 0 {
        seq![]
    } else {
        approval_chain(ids, appr, k - 1) + step_edges(ids, appr, k - 1)
    }
}

/// The edge from the last step to the end node.
pub open spec fn final_edge(ids: Seq<Seq<char>>, appr: Seq<bool>) -> EdgeV {
    let last = ids.last();
    if appr.last() {
        EdgeV {
            id: "e-"@ + last + "-end-true"@,
            source: last,
            target: end_id(),
            kind: EdgeType::ConditionTrue,
            handle: Some("true"@),
        }
    } else {
        EdgeV { id: eid(last, end_id()), source: last, target: end_id(), kind: EdgeType::Direct, handle: None }
    }
}

/// The links `ids[0] → ids[1] → … → ids[m]` of a plain chain.
pub open spec fn linear_links(ids: Seq<Seq<char>>, m: int) -> Seq<EdgeV>
    decreases m,
{
    if m <= 0 {
        seq![]
    } else {
        linear_links(ids, m - 1) + seq![
            EdgeV {
                id: eid(ids[m - 1], ids[m]),
                source: ids[m - 1],
                target: ids[m],
                kind: EdgeType::Direct,
            handle: None,
            },
        ]
    }
}

/// The edges of a pack workflow with steps `ids` (`appr[k]` tells whether
/// step `k` is an approval).
pub open spec fn pack_edges(ids: Seq<Seq<char>>, appr: Seq<bool>) -> Seq<EdgeV> {
    let n = ids.len() as int;
    if n == 0 {
        seq![
            EdgeV {
                id: "e-trigger-end"@,
                source: trigger_id(),
                target: end_id(),
                kind: EdgeType::Direct,
            handle: None,
            },
        ]
    } else if has_approval(appr) {
        approval_chain(ids, appr, n).push(final_edge(ids, appr))
    } else {
        seq![
            EdgeV {
                id: "e-trigger-first"@,
                source: trigger_id(),
                target: ids[0],
                kind: EdgeType::Direct,
            handle: None,
            },
        ] + linear_links(ids, n - 1) + seq![
            EdgeV {
                id: eid(ids[n - 1], end_id()),
                source: ids[n - 1],
                target: end_id(),
                kind: EdgeType::Direct,
            handle: None,
            },
        ]
    }
}

/// Vertical position of step `k`.
pub open spec fn step_y(k: int) -> int {
    150 + 200 * k
}

pub open spec fn result_var(id: Seq<char>) -> Seq<char> {
    id + "_result"@
}

/// The approval settings a step uses: its own, or the defaults.
pub open spec fn approval_settings(s: IndustryStep) -> (Seq<char>, Seq<char>, u64, Seq<char>) {
    match s.approval {
        Some(a) => (a.message@, a.approver@, a.timeout_secs, a.timeout_action@),
        None => (default_approval_message_text(), seq![], 86400u64, default_timeout_action_text()),
    }
}

/// The node of step `k`.
pub open spec fn step_node(
    w: IndustryWorkflow,
    catalog: Seq<ToolV>,
    k: int,
) -> NodeV {
    let s = w.steps@[k];
    let base = BaseV { id: s.id@, title: s.title@, description: seq![], x: 250, y: step_y(k) };
    if is_approval_step(s) {
        let (message, approver, timeout_secs, timeout_action) = approval_settings(s);
        NodeV::Approval(
            base,
            ApprovalV {
                message,
                approver: if approver.len() == 0 {
                    None
                } else {
                    Some(approver)
                },
                timeout_secs,
                timeout_action,
                output_var: result_var(s.id@),
            },
        )
    } else {
        let tools = select_tools(catalog, seq_view(s.tools@));
        NodeV::Agent(
            base,
            AgentV {
                system_prompt: s.prompt@,
                output_var: result_var(s.id@),
                tools,
                exposed_tools: tools.map_values(|t: ToolV| t.name),
                agent_profile_id: Some(w.profile_id@),
                max_tool_rounds: Some(10u32),
                model_role: Some("opc-worker"@),
                hallucination_guard: true,
                input_mapping: pair_seq_view(s.inputs@),
            },
        )
    }
}

pub open spec fn trigger_node_view() -> NodeV {
    NodeV::Trigger(
        BaseV {
            id: trigger_id(),
            title: "手动启动"@,
            description: "用户选择后启动工作流"@,
            x: 250,
            y: 0,
        },
    )
}

pub open spec fn end_node_view(n: int) -> NodeV {
    NodeV::End(BaseV { id: end_id(), title: "完成"@, description: seq![], x: 250, y: step_y(n) })
}

/// The nodes: trigger, one node per step, end.
pub open spec fn pack_nodes(w: IndustryWorkflow, catalog: Seq<ToolV>) -> Seq<NodeV> {
    seq![trigger_node_view()] + Seq::new(w.steps@.len(), |k: int| step_node(w, catalog, k)) + seq![
        end_node_view(w.steps@.len() as int),
    ]
}

/// The template a pack workflow becomes.
pub open spec fn pack_template(
    w: IndustryWorkflow,
    version: i32,
    catalog: Seq<ToolV>,
    now: i64,
) -> TemplateV {
    TemplateV {
        id: w.id@,
        name: w.name@,
        description: w.description@,
        icon: if w.icon@.len() == 0 {
            "📄"@
        } else {
            w.icon@
        },
        tags: seq_view(w.tags@),
        version,
        is_preset: true,
        is_editable: true,
        is_public: false,
        trigger_config: Some(TriggerType::Manual),
        nodes: pack_nodes(w, catalog),
        edges: pack_edges(step_ids(w), step_kinds(w)),
        variables: template_variables(step_prompts(w)),
        error_config: w.error_handling,
        created_at: now,
        updated_at: now,
    }
}

/// Every step maps each input variable once (the inputs are a map).
pub open spec fn inputs_distinct(w: IndustryWorkflow) -> bool {
    forall|k: int| 0 <= k < w.steps@.len() ==> keys_distinct(pair_seq_view(#[trigger] w.steps@[k].inputs@))
}

/// Steps whose positions fit the canvas coordinates.
pub open spec fn pack_fits(w: IndustryWorkflow) -> bool {
    w.steps@.len() < 0x1_0000_0000
}

} // verus!

verus! {

/// Whether a step is a human approval.
pub fn is_approval(s: &IndustryStep) -> (r: bool)
    ensures
        r == is_approval_step(*s),
{
    let a = string_of("approval");
    s.node_type == a
}

fn in_edge_exec(w: &IndustryWorkflow, k: usize) -> (e: WorkflowEdge)
    requires
        k < w.steps.len(),
    ensures
        e.view() == in_edge(step_ids(*w), step_kinds(*w), k as int),
        e.well_formed(),
{
    let sid = w.steps[k].id.as_str();
    proof {
        assert(step_ids(*w)[k as int] == w.steps@[k as int].id@);
    }
    if k == 0 {
        let id = make_eid("trigger", sid);
        edge(id.as_str(), "trigger", sid)
    } else {
        let prev = w.steps[k - 1].id.as_str();
        proof {
            assert(step_ids(*w)[k - 1] == w.steps@[k - 1].id@);
            assert(step_kinds(*w)[k - 1] == is_approval_step(w.steps@[k - 1]));
        }
        if is_approval(&w.steps[k - 1]) {
            let mut id = make_eid(prev, sid);
            push_str(&mut id, "-true");
            cond_edge(id.as_str(), prev, sid, true)
        } else {
            let id = make_eid(prev, sid);
            edge(id.as_str(), prev, sid)
        }
    }
}

/// Whether any step of `w` is an approval.
pub fn any_approval(w: &IndustryWorkflow) -> (r: bool)
    ensures
        r == has_approval(step_kinds(*w)),
{
    let mut k: usize = 0;
    while k < w.steps.len()
        invariant
            k <= w.steps.len(),
            forall|j: int| 0 <= j < k ==> !step_kinds(*w)[j],
        decreases w.steps.len() - k,
    {
        if is_approval(&w.steps[k]) {
            assert(step_kinds(*w)[k as int]);
            return true;
        }
        k = k + 1;
    }
    false
}

/// The edges that chain the steps of `w` (see `pack_edges`).
pub fn build_pack_edges(w: &IndustryWorkflow) -> (edges: Vec<WorkflowEdge>)
    ensures
        edges_view(edges@) == pack_edges(step_ids(*w), step_kinds(*w)),
        edges_well_formed(edges@),
{
    let n = w.steps.len();
    let ghost ids = step_ids(*w);
    let ghost appr = step_kinds(*w);
    let mut edges: Vec<WorkflowEdge> = Vec::new();
    if n == 0 {
        edges.push(edge("e-trigger-end", "trigger", "end"));
        assert(edges_view(edges@) =~= pack_edges(ids, appr));
        return edges;
    }
    if any_approval(w) {
        let mut k: usize = 0;
        while k < n
            invariant
                n == w.steps.len(),
                ids == step_ids(*w),
                appr == step_kinds(*w),
                k <= n,
                edges_view(edges@) == approval_chain(ids, appr, k as int),
                edges_well_formed(edges@),
            decreases n - k,
        {
            let ghost before = edges@;
            let e_in = in_edge_exec(w, k);
            edges.push(e_in);
            assert(appr[k as int] == is_approval_step(w.steps@[k as int]));
            assert(ids[k as int] == w.steps@[k as int].id@);
            if is_approval(&w.steps[k]) {
                let sid = w.steps[k].id.as_str();
                let mut id = string_of("e-");
                push_str(&mut id, sid);
                push_str(&mut id, "-end-false");
                edges.push(cond_edge(id.as_str(), sid, "end", false));
            }
            assert(edges_view(edges@) =~= edges_view(before) + step_edges(ids, appr, k as int));
            k = k + 1;
        }
        let last = w.steps[n - 1].id.as_str();
        assert(ids.last() == w.steps@[n - 1].id@);
        assert(appr.last() == is_approval_step(w.steps@[n - 1]));
        let ghost before = edges@;
        if is_approval(&w.steps[n - 1]) {
            let mut id = string_of("e-");
            push_str(&mut id, last);
            push_str(&mut id, "-end-true");
            edges.push(cond_edge(id.as_str(), last, "end", true));
        } else {
            let id = make_eid(last, "end");
            edges.push(edge(id.as_str(), last, "end"));
        }
        assert(edges_view(edges@) =~= edges_view(before).push(final_edge(ids, appr)));
    } else {
        let first = w.steps[0].id.as_str();
        assert(ids[0] == w.steps@[0].id@);
        edges.push(edge("e-trigger-first", "trigger", first));
        let ghost head = edges_view(edges@);
        let mut k: usize = 1;
        while k < n
            invariant
                n == w.steps.len(),
                ids == step_ids(*w),
                1 <= k <= n,
                edges_view(edges@) == head + linear_links(ids, k - 1),
                edges_well_formed(edges@),
            decreases n - k,
        {
            let a = w.steps[k - 1].id.as_str();
            let b = w.steps[k].id.as_str();
            assert(ids[k - 1] == w.steps@[k - 1].id@);
            assert(ids[k as int] == w.steps@[k as int].id@);
            let id = make_eid(a, b);
            let ghost before = edges@;
            edges.push(edge(id.as_str(), a, b));
            let ghost link = EdgeV {
                id: eid(ids[k - 1], ids[k as int]),
                source: ids[k - 1],
                target: ids[k as int],
                kind: EdgeType::Direct,
            handle: None,
            };
            assert(edges_view(edges@) =~= edges_view(before).push(link));
            assert(linear_links(ids, k as int) == linear_links(ids, k - 1) + seq![link]);
            assert(edges_view(edges@) =~= head + linear_links(ids, k as int));
            k = k + 1;
        }
        let last = w.steps[n - 1].id.as_str();
        assert(ids[n - 1] == w.steps@[n - 1].id@);
        let id = make_eid(last, "end");
        let ghost before = edges@;
        edges.push(edge(id.as_str(), last, "end"));
        let ghost last_e = EdgeV {
            id: eid(ids[n - 1], end_id()),
            source: ids[n - 1],
            target: end_id(),
            kind: EdgeType::Direct,
            handle: None,
        };
        assert(edges_view(edges@) =~= edges_view(before).push(last_e));
        assert(edges_view(edges@) =~= head + linear_links(ids, n - 1) + seq![last_e]);
    }
    assert(edges_view(edges@) =~= pack_edges(ids, appr));
    edges
}

} // verus!

verus! {

fn result_var_exec(id: &String) -> (r: String)
    ensures
        r@ == result_var(id@),
{
    let mut r = copy_string(id);
    push_str(&mut r, "_result");
    r
}

/// The node that step `k` of `w` becomes.
pub fn build_step_node(w: &IndustryWorkflow, catalog: &Vec<ToolDef>, k: usize) -> (node: WorkflowNode)
    requires
        k < w.steps.len(),
        pack_fits(*w),
    ensures
        node.view() == step_node(*w, tools_view(catalog@), k as int),
{
    let s = &w.steps[k];
    let y: i64 = 150 + 200 * (k as i64);
    let base = make_base(s.id.as_str(), s.title.as_str(), "", 250, y);
    let ghost bv = BaseV { id: s.id@, title: s.title@, description: seq![], x: 250, y: step_y(k as int) };
    assert(""@ =~= Seq::<char>::empty()) by {
        reveal_strlit("");
    }
    assert(base.view() == bv);
    if is_approval(s) {
        let (message, approver, timeout_secs, timeout_action) = match &s.approval {
            Some(a) => (
                copy_string(&a.message),
                copy_string(&a.approver),
                a.timeout_secs,
                copy_string(&a.timeout_action),
            ),
            None => (default_approval_message(), String::new(), default_timeout(), default_timeout_action()),
        };
        let ghost st = approval_settings(*s);
        assert(message@ == st.0 && approver@ == st.1 && timeout_secs == st.2 && timeout_action@ == st.3);
        let approver_opt = if approver.as_str().is_empty() {
            None
        } else {
            Some(approver)
        };
        let cfg = ApprovalConfig {
            message,
            approver: approver_opt,
            timeout_secs,
            timeout_action,
            output_var: result_var_exec(&s.id),
        };
        assert(cfg.view() == (ApprovalV {
            message: st.0,
            approver: if st.1.len() == 0 { None } else { Some(st.1) },
            timeout_secs: st.2,
            timeout_action: st.3,
            output_var: result_var(s.id@),
        }));
        WorkflowNode::Approval(base, cfg)
    } else {
        let tools = select_tool_defs(catalog, &s.tools);
        let exposed = tool_names(&tools);
        let cfg = AgentConfig {
            system_prompt: copy_string(&s.prompt),
            output_var: result_var_exec(&s.id),
            tools,
            exposed_tools: exposed,
            agent_profile_id: Some(copy_string(&w.profile_id)),
            max_tool_rounds: Some(10),
            model_role: Some(string_of("opc-worker")),
            hallucination_guard: true,
            input_mapping: copy_pairs(&s.inputs),
        };
        WorkflowNode::Agent(base, cfg)
    }
}

/// The nodes of `w`: trigger, one per step, end (see `pack_nodes`).
pub fn build_pack_nodes(w: &IndustryWorkflow, catalog: &Vec<ToolDef>) -> (nodes: Vec<WorkflowNode>)
    requires
        pack_fits(*w),
    ensures
        nodes_view(nodes@) == pack_nodes(*w, tools_view(catalog@)),
{
    let ghost cat = tools_view(catalog@);
    let mut nodes: Vec<WorkflowNode> = Vec::new();
    nodes.push(
        WorkflowNode::Trigger(make_base("trigger", "手动启动", "用户选择后启动工作流", 250, 0)),
    );
    let n = w.steps.len();
    let mut k: usize = 0;
    while k < n
        invariant
            n == w.steps.len(),
            pack_fits(*w),
            cat == tools_view(catalog@),
            k <= n,
            nodes_view(nodes@) == seq![trigger_node_view()] + Seq::new(
                k as nat,
                |j: int| step_node(*w, cat, j),
            ),
        decreases n - k,
    {
        let ghost before = nodes@;
        nodes.push(build_step_node(w, catalog, k));
        assert(nodes_view(nodes@) =~= nodes_view(before).push(step_node(*w, cat, k as int)));
        assert(Seq::new((k + 1) as nat, |j: int| step_node(*w, cat, j)) =~= Seq::new(
            k as nat,
            |j: int| step_node(*w, cat, j),
        ).push(step_node(*w, cat, k as int)));
        k = k + 1;
    }
    let y: i64 = 150 + 200 * (n as i64);
    let ghost before = nodes@;
    proof {
        reveal_strlit("");
    }
    let eb = make_base("end", "完成", "", 250, y);
    assert(""@ =~= Seq::<char>::empty());
    assert(y as int == step_y(n as int));
    assert(eb.view() == (BaseV { id: end_id(), title: "完成"@, description: seq![], x: 250, y: step_y(n as int) }));
    assert(WorkflowNode::End(eb).view() == end_node_view(n as int));
    nodes.push(WorkflowNode::End(eb));
    assert(nodes_view(nodes@) =~= nodes_view(before).push(end_node_view(n as int)));
    assert(nodes_view(nodes@) =~= pack_nodes(*w, cat));
    nodes
}

/// Every agent node of a pack template maps each input variable once,
/// since each step's inputs do.
pub proof fn lemma_pack_nodes_inputs_distinct(w: IndustryWorkflow, catalog: Seq<ToolV>)
    requires
        inputs_distinct(w),
    ensures
        forall|i: int| 0 <= i < pack_nodes(w, catalog).len() ==> node_inputs_distinct(#[trigger] pack_nodes(w, catalog)[i]),
{
    let ns = pack_nodes(w, catalog);
    let n = w.steps@.len() as int;
    assert forall|i: int| 0 <= i < ns.len() implies node_inputs_distinct(#[trigger] ns[i]) by {
        if 1 <= i <= n {
            assert(ns[i] == step_node(w, catalog, i - 1));
            assert(keys_distinct(pair_seq_view(w.steps@[i - 1].inputs@)));
        } else if i == 0 {
            assert(ns[i] == trigger_node_view());
        } else {
            assert(ns[i] == end_node_view(n));
        }
    }
}

/// The prompts of the steps, in order.
fn step_prompt_strings(w: &IndustryWorkflow) -> (r: Vec<String>)
    ensures
        seq_view(r@) == step_prompts(*w),
{
    let mut r: Vec<String> = Vec::new();
    let mut k: usize = 0;
    while k < w.steps.len()
        invariant
            k <= w.steps.len(),
            seq_view(r@) == step_prompts(*w).take(k as int),
        decreases w.steps.len() - k,
    {
        let ghost before = r@;
        r.push(copy_string(&w.steps[k].prompt));
        assert(seq_view(r@) =~= seq_view(before).push(w.steps@[k as int].prompt@));
        assert(step_prompts(*w).take(k + 1) =~= step_prompts(*w).take(k as int).push(w.steps@[k as int].prompt@));
        k = k + 1;
    }
    assert(step_prompts(*w).take(w.steps.len() as int) =~= step_prompts(*w));
    r
}

/// Builds the template of pack workflow `w` at time `now`: a trigger, one
/// agent or approval node per step, an end node, and the edges that chain
/// them (approvals branch to the next step on "true" and to the end on
/// "false"), the `{name}` variables the prompts read, and the failure
/// policy the workflow declares. `catalog` lists the tools steps may name,
/// in matching order.
pub fn build_workflow_template(
    w: &IndustryWorkflow,
    version: i32,
    catalog: &Vec<ToolDef>,
    now: i64,
) -> (t: WorkflowTemplate)
    requires
        pack_fits(*w),
        inputs_distinct(*w),
    ensures
        t.view() == pack_template(*w, version, tools_view(catalog@), now),
        edges_well_formed(t.edges@),
        forall|i: int| 0 <= i < t.nodes@.len() ==> node_inputs_distinct(#[trigger] t.nodes@[i].view()),
{
    let nodes = build_pack_nodes(w, catalog);
    proof {
        lemma_pack_nodes_inputs_distinct(*w, tools_view(catalog@));
        assert forall|i: int| 0 <= i < nodes@.len() implies node_inputs_distinct(#[trigger] nodes@[i].view()) by {
            assert(nodes_view(nodes@)[i] == nodes@[i].view());
        }
    }
    let edges = build_pack_edges(w);
    let variables = prompt_variables(&step_prompt_strings(w));
    let icon = if w.icon.as_str().is_empty() {
        string_of("📄")
    } else {
        copy_string(&w.icon)
    };
    WorkflowTemplate {
        id: copy_string(&w.id),
        name: copy_string(&w.name),
        description: copy_string(&w.description),
        icon,
        tags: copy_strings(&w.tags),
        version,
        is_preset: true,
        is_editable: true,
        is_public: false,
        trigger_config: Some(TriggerType::Manual),
        nodes,
        edges,
        variables,
        error_config: w.error_handling,
        created_at: now,
        updated_at: now,
    }
}

/// `build_workflow_template` stamped with the current time.
pub fn build_workflow_from_pack(w: &IndustryWorkflow, version: i32, catalog: &Vec<ToolDef>) -> (t:
    WorkflowTemplate)
    requires
        pack_fits(*w),
        inputs_distinct(*w),
    ensures
        t.view() == pack_template(*w, version, tools_view(catalog@), t.created_at),
        edges_well_formed(t.edges@),
        forall|i: int| 0 <= i < t.nodes@.len() ==> node_inputs_distinct(#[trigger] t.nodes@[i].view()),
{
    let now = now_millis();
    build_workflow_template(w, version, catalog, now)
}

} // verus!

verus! {

/// The id of a node.
pub open spec fn node_id(n: NodeV) -> Seq<char> {
    match n {
        NodeV::Trigger(b) => b.id,
        NodeV::Agent(b, _) => b.id,
        NodeV::Approval(b, _) => b.id,
        NodeV::End(b) => b.id,
    }
}

pub open spec fn node_ids(ns: Seq<NodeV>) -> Seq<Seq<char>> {
    ns.map_values(|n: NodeV| node_id(n))
}

/// An edge whose endpoints are among the trigger, the steps and the end.
pub open spec fn edge_in_graph(ids: Seq<Seq<char>>, e: EdgeV) -> bool {
    (e.source == trigger_id() || ids.contains(e.source)) && (e.target == end_id() || ids.contains(
        e.target,
    ))
}

proof fn lemma_chain_in_graph(ids: Seq<Seq<char>>, appr: Seq<bool>, k: int)
    requires
        0 <= k <= ids.len(),
        appr.len() == ids.len(),
    ensures
        forall|i: int|
            0 <= i < approval_chain(ids, appr, k).len() ==> edge_in_graph(
                ids,
                #[trigger] approval_chain(ids, appr, k)[i],
            ),
    decreases k,
{
    if k > 0 {
        lemma_chain_in_graph(ids, appr, k - 1);
        let prev = approval_chain(ids, appr, k - 1);
        let st = step_edges(ids, appr, k - 1);
        assert(ids[k - 1] == ids[k - 1]);
        assert(ids.contains(ids[k - 1]));
        if k - 1 > 0 {
            assert(ids.contains(ids[k - 2]));
        }
        assert forall|i: int| 0 <= i < st.len() implies edge_in_graph(ids, #[trigger] st[i]) by {}
        assert forall|i: int|
            0 <= i < approval_chain(ids, appr, k).len() implies edge_in_graph(
            ids,
            #[trigger] approval_chain(ids, appr, k)[i],
        ) by {
            if i < prev.len() {
                assert(approval_chain(ids, appr, k)[i] == prev[i]);
            } else {
                assert(approval_chain(ids, appr, k)[i] == st[i - prev.len()]);
            }
        }
    }
}

proof fn lemma_links_in_graph(ids: Seq<Seq<char>>, m: int)
    requires
        0 <= m < ids.len(),
    ensures
        forall|i: int|
            0 <= i < linear_links(ids, m).len() ==> edge_in_graph(
                ids,
                #[trigger] linear_links(ids, m)[i],
            ),
    decreases m,
{
    if m > 0 {
        lemma_links_in_graph(ids, m - 1);
        assert(ids.contains(ids[m - 1]));
        assert(ids.contains(ids[m]));
        let prev = linear_links(ids, m - 1);
        assert forall|i: int|
            0 <= i < linear_links(ids, m).len() implies edge_in_graph(
            ids,
            #[trigger] linear_links(ids, m)[i],
        ) by {
            if i < prev.len() {
                assert(linear_links(ids, m)[i] == prev[i]);
            }
        }
    }
}

/// Every edge `pack_edges` makes starts at the trigger or a step and ends
/// at a step or the end.
pub proof fn lemma_pack_edges_in_graph(ids: Seq<Seq<char>>, appr: Seq<bool>)
    requires
        appr.len() == ids.len(),
    ensures
        forall|i: int|
            0 <= i < pack_edges(ids, appr).len() ==> edge_in_graph(
                ids,
                #[trigger] pack_edges(ids, appr)[i],
            ),
{
    let n = ids.len() as int;
    let es = pack_edges(ids, appr);
    if n == 0 {
    } else if has_approval(appr) {
        lemma_chain_in_graph(ids, appr, n);
        assert(ids.contains(ids[n - 1]));
        let ch = approval_chain(ids, appr, n);
        assert forall|i: int| 0 <= i < es.len() implies edge_in_graph(ids, #[trigger] es[i]) by {
            if i < ch.len() {
                assert(es[i] == ch[i]);
            }
        }
    } else {
        lemma_links_in_graph(ids, n - 1);
        assert(ids.contains(ids[0]));
        assert(ids.contains(ids[n - 1]));
        let ln = linear_links(ids, n - 1);
        assert forall|i: int| 0 <= i < es.len() implies edge_in_graph(ids, #[trigger] es[i]) by {
            if 1 <= i < 1 + ln.len() {
                assert(es[i] == ln[i - 1]);
            }
        }
    }
}

/// The node ids of a pack template: the trigger, the step ids, the end.
pub proof fn lemma_pack_node_ids(w: IndustryWorkflow, catalog: Seq<ToolV>)
    ensures
        node_ids(pack_nodes(w, catalog)) == seq![trigger_id()] + step_ids(w) + seq![end_id()],
{
    let ns = pack_nodes(w, catalog);
    let want = seq![trigger_id()] + step_ids(w) + seq![end_id()];
    assert forall|i: int| 0 <= i < ns.len() implies node_ids(ns)[i] == want[i] by {
        if 1 <= i <= w.steps@.len() {
            assert(ns[i] == step_node(w, catalog, i - 1));
        }
    }
    assert(node_ids(ns) =~= want);
}

/// Law: every edge of a template built from a pack starts and ends at a
/// node of that template, and carries the handle its kind calls for.
pub proof fn law_pack_edges_join_nodes(
    w: IndustryWorkflow,
    version: i32,
    catalog: Seq<ToolV>,
    now: i64,
)
    ensures
        ({
            let t = pack_template(w, version, catalog, now);
            forall|i: int|
                0 <= i < t.edges.len() ==> node_ids(t.nodes).contains(#[trigger] t.edges[i].source)
                    && node_ids(t.nodes).contains(t.edges[i].target)
        }),
{
    let t = pack_template(w, version, catalog, now);
    let ids = step_ids(w);
    lemma_pack_edges_in_graph(ids, step_kinds(w));
    lemma_pack_node_ids(w, catalog);
    let nid = node_ids(t.nodes);
    assert(nid[0] == trigger_id());
    assert(nid[nid.len() - 1] == end_id());
    assert forall|i: int| 0 <= i < t.edges.len() implies nid.contains(#[trigger] t.edges[i].source)
        && nid.contains(t.edges[i].target) by {
        let e = t.edges[i];
        assert(edge_in_graph(ids, e));
        if e.source != trigger_id() {
            let j = choose|j: int| 0 <= j < ids.len() && ids[j] == e.source;
            assert(nid[j + 1] == ids[j]);
        }
        if e.target != end_id() {
            let j = choose|j: int| 0 <= j < ids.len() && ids[j] == e.target;
            assert(nid[j + 1] == ids[j]);
        }
    }
}

} // verus!

verus! {

proof fn lemma_chain_contains(ids: Seq<Seq<char>>, appr: Seq<bool>, k: int, j: int)
    requires
        0 <= j < k <= ids.len(),
        appr.len() == ids.len(),
    ensures
        approval_chain(ids, appr, k).contains(in_edge(ids, appr, j)),
        appr[j] ==> approval_chain(ids, appr, k).contains(reject_edge(ids[j])),
    decreases k,
{
    let ch = approval_chain(ids, appr, k);
    let prev = approval_chain(ids, appr, k - 1);
    let st = step_edges(ids, appr, k - 1);
    assert(ch == prev + st);
    if j < k - 1 {
        lemma_chain_contains(ids, appr, k - 1, j);
        let a = choose|a: int| 0 <= a < prev.len() && prev[a] == in_edge(ids, appr, j);
        assert(ch[a] == prev[a]);
        if appr[j] {
            let b = choose|b: int| 0 <= b < prev.len() && prev[b] == reject_edge(ids[j]);
            assert(ch[b] == prev[b]);
        }
    } else {
        assert(ch[prev.len() as int] == st[0]);
        if appr[j] {
            assert(ch[prev.len() as int + 1] == st[1]);
        }
    }
}

/// Edge `e` is one that step `j` of an approval chain contributes.
pub open spec fn from_step(ids: Seq<Seq<char>>, appr: Seq<bool>, j: int, e: EdgeV) -> bool {
    e == in_edge(ids, appr, j) || (appr[j] && e == reject_edge(ids[j]))
}

proof fn lemma_chain_elem(ids: Seq<Seq<char>>, appr: Seq<bool>, k: int, a: int) -> (j: int)
    requires
        0 <= k <= ids.len(),
        appr.len() == ids.len(),
        0 <= a < approval_chain(ids, appr, k).len(),
    ensures
        0 <= j < k,
        from_step(ids, appr, j, approval_chain(ids, appr, k)[a]),
    decreases k,
{
    if k <= 0 {
        assert(approval_chain(ids, appr, k).len() == 0);
        0
    } else {
        let ch = approval_chain(ids, appr, k);
        let prev = approval_chain(ids, appr, k - 1);
        let st = step_edges(ids, appr, k - 1);
        assert(ch == prev + st);
        if a < prev.len() {
            assert(ch[a] == prev[a]);
            lemma_chain_elem(ids, appr, k - 1, a)
        } else {
            assert(ch[a] == st[a - prev.len()]);
            k - 1
        }
    }
}

proof fn lemma_chain_conditional_source(ids: Seq<Seq<char>>, appr: Seq<bool>, j: int, e: EdgeV)
    requires
        appr.len() == ids.len(),
        0 <= j < ids.len(),
        from_step(ids, appr, j, e),
        e.kind != EdgeType::Direct,
    ensures
        exists|m: int| 0 <= m < ids.len() && appr[m] && #[trigger] ids[m] == e.source,
{
    if e == in_edge(ids, appr, j) {
        assert(j > 0 && appr[j - 1]);
        assert(ids[j - 1] == e.source);
    } else {
        assert(ids[j] == e.source);
    }
}

/// Law: every conditional edge of a pack workflow (a "true" or "false"
/// branch) leaves an approval step. So where step ids are distinct and
/// differ from "trigger", a step that is not an approval is never the
/// source of a conditional edge; in particular it enters the next step
/// unconditionally.
pub proof fn law_conditional_edges_leave_approvals(ids: Seq<Seq<char>>, appr: Seq<bool>)
    requires
        appr.len() == ids.len(),
    ensures
        forall|a: int|
            0 <= a < pack_edges(ids, appr).len() && (#[trigger] pack_edges(ids, appr)[a]).kind != EdgeType::Direct
                ==> exists|m: int| 0 <= m < ids.len() && appr[m] && #[trigger] ids[m] == pack_edges(ids, appr)[a].source,
{
    let n = ids.len() as int;
    let es = pack_edges(ids, appr);
    if n > 0 && has_approval(appr) {
        let ch = approval_chain(ids, appr, n);
        assert(es == ch.push(final_edge(ids, appr)));
        assert forall|a: int| 0 <= a < es.len() && (#[trigger] es[a]).kind != EdgeType::Direct implies exists|m: int|
            0 <= m < ids.len() && appr[m] && #[trigger] ids[m] == es[a].source by {
            if a < ch.len() {
                assert(es[a] == ch[a]);
                let j = lemma_chain_elem(ids, appr, n, a);
                lemma_chain_conditional_source(ids, appr, j, es[a]);
            } else {
                assert(es[a] == final_edge(ids, appr));
                assert(appr[n - 1] && ids[n - 1] == es[a].source);
            }
        }
    } else if n > 0 {
        lemma_linear_direct(ids, n - 1);
        let l = linear_links(ids, n - 1);
        assert forall|a: int| 0 <= a < es.len() implies (#[trigger] es[a]).kind == EdgeType::Direct by {
            if 1 <= a < 1 + l.len() {
                assert(es[a] == l[a - 1]);
            }
        }
    }
}

proof fn lemma_linear_direct(ids: Seq<Seq<char>>, m: int)
    ensures
        forall|a: int| 0 <= a < linear_links(ids, m).len() ==> (#[trigger] linear_links(ids, m)[a]).kind == EdgeType::Direct,
        m >= 0 ==> linear_links(ids, m).len() == m,
    decreases m,
{
    if m > 0 {
        lemma_linear_direct(ids, m - 1);
        let l = linear_links(ids, m);
        let p = linear_links(ids, m - 1);
        assert forall|a: int| 0 <= a < l.len() implies (#[trigger] l[a]).kind == EdgeType::Direct by {
            if a < p.len() {
                assert(l[a] == p[a]);
            }
        }
    }
}

/// Law: in a pack workflow with approvals, an approval step `k` is
/// rejected to the end on "false"; its "true" branch leads to the next
/// step, or to the end when it is the last step; and it is entered
/// unconditionally from the trigger (when first) or from a step before it
/// that is not an approval.
pub proof fn law_approval_branches(ids: Seq<Seq<char>>, appr: Seq<bool>, k: int)
    requires
        appr.len() == ids.len(),
        0 <= k < ids.len(),
        appr[k],
    ensures
        pack_edges(ids, appr).contains(
            EdgeV {
                id: "e-"@ + ids[k] + "-end-false"@,
                source: ids[k],
                target: end_id(),
                kind: EdgeType::ConditionFalse,
            handle: Some("false"@),
            },
        ),
        k + 1 < ids.len() ==> pack_edges(ids, appr).contains(
            EdgeV {
                id: eid(ids[k], ids[k + 1]) + "-true"@,
                source: ids[k],
                target: ids[k + 1],
                kind: EdgeType::ConditionTrue,
            handle: Some("true"@),
            },
        ),
        k + 1 == ids.len() ==> pack_edges(ids, appr).contains(
            EdgeV {
                id: "e-"@ + ids[k] + "-end-true"@,
                source: ids[k],
                target: end_id(),
                kind: EdgeType::ConditionTrue,
            handle: Some("true"@),
            },
        ),
        k > 0 && !appr[k - 1] ==> pack_edges(ids, appr).contains(
            EdgeV { id: eid(ids[k - 1], ids[k]), source: ids[k - 1], target: ids[k], kind: EdgeType::Direct, handle: None },
        ),
        k == 0 ==> pack_edges(ids, appr).contains(
            EdgeV { id: eid(trigger_id(), ids[0]), source: trigger_id(), target: ids[0], kind: EdgeType::Direct, handle: None },
        ),
{
    let n = ids.len() as int;
    assert(has_approval(appr));
    let es = pack_edges(ids, appr);
    let ch = approval_chain(ids, appr, n);
    assert(es == ch.push(final_edge(ids, appr)));
    lemma_chain_contains(ids, appr, n, k);
    let b = choose|b: int| 0 <= b < ch.len() && ch[b] == reject_edge(ids[k]);
    assert(es[b] == ch[b]);
    if k + 1 < n {
        lemma_chain_contains(ids, appr, n, k + 1);
        let a = choose|a: int| 0 <= a < ch.len() && ch[a] == in_edge(ids, appr, k + 1);
        assert(es[a] == ch[a]);
    } else {
        assert(es[ch.len() as int] == final_edge(ids, appr));
    }
    if k > 0 && !appr[k - 1] {
        let a = choose|a: int| 0 <= a < ch.len() && ch[a] == in_edge(ids, appr, k);
        assert(es[a] == ch[a]);
    }
    if k == 0 {
        let a = choose|a: int| 0 <= a < ch.len() && ch[a] == in_edge(ids, appr, k);
        assert(es[a] == ch[a]);
    }
}

} // verus!

verus! {

/// What the seeding pass does with one industry pack.
#[derive(PartialEq, Eq, Structural, Clone, Copy, Debug)]
pub enum SeedDecision {
    /// The registry already holds this version (or a newer one), enabled:
    /// the pack counts as seeded and its workflows are left alone.
    AlreadySeeded,
    /// The manifest disables the pack: nothing is written.
    Disabled,
    /// Write the pack's workflows.
    Seed,
}

/// The registry row of a pack as it stood before this pass: its version
/// and its enabled flag (1 = enabled).
pub open spec fn seed_decision_spec(existing: Option<(i32, i32)>, version: i32, enabled: bool) -> SeedDecision {
    match existing {
        Some((v, e)) if v >= version && e == 1 => SeedDecision::AlreadySeeded,
        _ => if !enabled {
            SeedDecision::Disabled
        } else {
            SeedDecision::Seed
        },
    }
}

/// Decides how to seed pack `m` given its registry row before this pass.
pub fn industry_seed_decision(existing: Option<(i32, i32)>, m: &IndustryManifest) -> (d: SeedDecision)
    ensures
        d == seed_decision_spec(existing, m.version, m.enabled),
{
    let already = match existing {
        Some((v, e)) => v >= m.version && e == 1,
        None => false,
    };
    if already {
        SeedDecision::AlreadySeeded
    } else if !m.enabled {
        SeedDecision::Disabled
    } else {
        SeedDecision::Seed
    }
}

/// The version and enabled flag of each manifest of a pass, in order.
pub open spec fn manifest_states(ms: Seq<IndustryManifest>) -> Seq<(i32, bool)> {
    ms.map_values(|m: IndustryManifest| (m.version, m.enabled))
}

/// The decisions of a seeding pass over packs in states `ms`, whose
/// registry rows before the pass are `existing`.
pub open spec fn pass_decisions(existing: Seq<Option<(i32, i32)>>, ms: Seq<(i32, bool)>) -> Seq<SeedDecision> {
    Seq::new(ms.len(), |k: int| seed_decision_spec(existing[k], ms[k].0, ms[k].1))
}

/// The registry rows after a pass: every pack is registered at its
/// manifest's version and enabled flag.
pub open spec fn registry_after_pass(ms: Seq<(i32, bool)>) -> Seq<Option<(i32, i32)>> {
    Seq::new(
        ms.len(),
        |k: int|
            Some(
                (
                    ms[k].0,
                    if ms[k].1 {
                        1i32
                    } else {
                        0i32
                    },
                ),
            ),
    )
}

/// Decides, for every pack of a pass, what the pass does with it;
/// `existing[k]` is the registry row of `manifests[k]` before the pass.
pub fn plan_industry_seeding(existing: &Vec<Option<(i32, i32)>>, manifests: &Vec<IndustryManifest>) -> (d: Vec<
    SeedDecision,
>)
    requires
        existing.len() == manifests.len(),
    ensures
        d@ == pass_decisions(existing@, manifest_states(manifests@)),
{
    let mut d: Vec<SeedDecision> = Vec::new();
    let mut k: usize = 0;
    while k < manifests.len()
        invariant
            k <= manifests.len(),
            existing.len() == manifests.len(),
            d@ == pass_decisions(existing@, manifest_states(manifests@)).take(k as int),
        decreases manifests.len() - k,
    {
        let x = industry_seed_decision(existing[k], &manifests[k]);
        d.push(x);
        assert(d@ =~= pass_decisions(existing@, manifest_states(manifests@)).take(k + 1));
        k = k + 1;
    }
    assert(d@ =~= pass_decisions(existing@, manifest_states(manifests@)));
    d
}

/// Law: seeding twice writes the packs' workflows at most once. Whatever
/// the registry held before the first pass, the second pass over the same
/// packs writes no workflow: it counts every enabled pack as seeded and
/// skips every disabled one; and the registry it leaves is the one the
/// first pass left.
pub proof fn law_second_seed_pass_writes_nothing(existing: Seq<Option<(i32, i32)>>, ms: Seq<(i32, bool)>)
    requires
        existing.len() == ms.len(),
    ensures
        forall|k: int|
            0 <= k < ms.len() ==> {
                let d = #[trigger] pass_decisions(registry_after_pass(ms), ms)[k];
                &&& d != SeedDecision::Seed
                &&& d == if ms[k].1 {
                    SeedDecision::AlreadySeeded
                } else {
                    SeedDecision::Disabled
                }
            },
        forall|k: int|
            0 <= k < ms.len() ==> (#[trigger] pass_decisions(existing, ms)[k] == SeedDecision::Seed) == (ms[k].1
                && !(existing[k] matches Some((v, e)) && v >= ms[k].0 && e == 1)),
{
}

/// Law: the seeding pass never writes the workflows of a pack whose
/// manifest disables it, and always writes those of an enabled pack that
/// the registry does not yet hold at this version.
pub proof fn law_disabled_pack_not_seeded(existing: Option<(i32, i32)>, version: i32, enabled: bool)
    ensures
        !enabled ==> seed_decision_spec(existing, version, enabled) != SeedDecision::Seed,
        enabled && (match existing {
            Some((v, _)) => v < version,
            None => true,
        }) ==> seed_decision_spec(
            existing,
            version,
            enabled,
        ) == SeedDecision::Seed,
{
}

/// Whether a domain pack's workflows are written: domain packs have no
/// registry, so exactly the enabled ones are.
pub fn domain_should_seed(m: &IndustryManifest) -> (r: bool)
    ensures
        r == m.enabled,
{
    m.enabled
}

/// Whether a stored template at `existing` version is replaced by one at
/// `version`: only when none is stored or the stored one is older.
pub fn template_needs_seed(existing: Option<i32>, version: i32) -> (r: bool)
    ensures
        r == match existing {
            Some(v) => v < version,
            None => true,
        },
{
    match existing {
        Some(v) => v < version,
        None => true,
    }
}

/// The ids of `found` that `keep` does not list, in order.
pub open spec fn stale_ids(found: Seq<Seq<char>>, keep: Seq<Seq<char>>) -> Seq<Seq<char>> {
    found.filter(|id: Seq<char>| !keep.contains(id))
}

/// The stored preset templates of a pack that its current files no longer
/// produce: those of `found` that `keep` does not list, in order.
pub fn stale_template_ids(found: &Vec<String>, keep: &Vec<String>) -> (r: Vec<String>)
    ensures
        seq_view(r@) == stale_ids(seq_view(found@), seq_view(keep@)),
{
    let ghost pred = |id: Seq<char>| !seq_view(keep@).contains(id);
    let mut r: Vec<String> = Vec::new();
    let mut i: usize = 0;
    while i < found.len()
        invariant
            i <= found.len(),
            pred == (|id: Seq<char>| !seq_view(keep@).contains(id)),
            seq_view(r@) == seq_view(found@).take(i as int).filter(pred),
        decreases found.len() - i,
    {
        reveal_with_fuel(Seq::<_>::filter, 1);
        assert(seq_view(found@).take(i + 1).drop_last() =~= seq_view(found@).take(i as int));
        assert(seq_view(found@).take(i + 1).last() == found@[i as int]@);
        if !crate::workflow::contains_string(keep, &found[i]) {
            let ghost before = r@;
            r.push(copy_string(&found[i]));
            assert(seq_view(r@) =~= seq_view(before).push(found@[i as int]@));
        }
        i = i + 1;
    }
    assert(seq_view(found@).take(found.len() as int) =~= seq_view(found@));
    r
}

/// The row a pack gets in the industry registry.
#[derive(Debug)]
pub struct IndustryRegistryRow {
    pub id: String,
    pub name: String,
    pub icon: String,
    pub description: String,
    pub version: i32,
    /// 1 when enabled, 0 when disabled.
    pub enabled: i32,
    /// `config/opc/industries/{id}`.
    pub pack_path: String,
    pub installed_at: i64,
    pub updated_at: i64,
}

/// The registry row of manifest `m`, stamped `now`.
pub fn registry_row(m: &IndustryManifest, now: i64) -> (r: IndustryRegistryRow)
    ensures
        r.id@ == m.id@,
        r.name@ == m.name@,
        r.icon@ == m.icon@,
        r.description@ == m.description@,
        r.version == m.version,
        r.enabled == if m.enabled {
            1i32
        } else {
            0i32
        },
        r.pack_path@ == INDUSTRIES_DIR@ + "/"@ + m.id@,
        r.installed_at == now,
        r.updated_at == now,
{
    let mut pack_path = string_of(INDUSTRIES_DIR);
    push_str(&mut pack_path, "/");
    push_str(&mut pack_path, m.id.as_str());
    IndustryRegistryRow {
        id: copy_string(&m.id),
        name: copy_string(&m.name),
        icon: copy_string(&m.icon),
        description: copy_string(&m.description),
        version: m.version,
        enabled: if m.enabled {
            1
        } else {
            0
        },
        pack_path,
        installed_at: now,
        updated_at: now,
    }
}

/// The archive file an exported pack is written to: `{id}.opcip`.
pub fn archive_file_name(id: &str) -> (r: String)
    ensures
        r@ == id@ + ".opcip"@,
{
    let mut r = string_of(id);
    push_str(&mut r, ".opcip");
    r
}

/// The id the orchestrator uses for an industry: underscores become hyphens.
pub fn industry_adapter_id(id: &str) -> (r: String)
    ensures
        r@ == id@.map_values(|c: char| if c == '_' { '-' } else { c }),
{
    let v = crate::text::chars_of(id);
    let mut r = String::new();
    let mut i: usize = 0;
    while i < v.len()
        invariant
            i <= v.len(),
            v@ == id@,
            r@ == id@.take(i as int).map_values(|c: char| if c == '_' { '-' } else { c }),
        decreases v.len() - i,
    {
        let c = v[i];
        crate::text::push_char(&mut r, if c == '_' { '-' } else { c });
        assert(id@.take(i + 1).map_values(|c: char| if c == '_' { '-' } else { c }) =~= id@.take(
            i as int,
        ).map_values(|c: char| if c == '_' { '-' } else { c }).push(if c == '_' { '-' } else { c }));
        i = i + 1;
    }
    assert(id@.take(v.len() as int) =~= id@);
    r
}

} // verus!

verus! {

/// The text of `s` before its first `/` (all of `s` when it has none).
pub open spec fn top_segment(s: Seq<char>) -> Seq<char>
    decreases s.len(),
{
    if s.len() == 0 || s[0] == '/' {
        seq![]
    } else {
        seq![s[0]] + top_segment(s.drop_first())
    }
}

/// Whether `s` ends with `p`.
pub open spec fn ends_with(s: Seq<char>, p: Seq<char>) -> bool {
    p.len() <= s.len() && s.skip(s.len() - p.len()) == p
}

/// The top directory a file entry of an archive sits in, if it has one.
pub open spec fn entry_top(e: (Seq<char>, bool)) -> Option<Seq<char>> {
    if e.1 || top_segment(e.0).len() == 0 {
        None
    } else {
        Some(top_segment(e.0))
    }
}

/// The top directories of the file entries, without repeats, in the order
/// they first appear.
pub open spec fn entry_tops(es: Seq<(Seq<char>, bool)>) -> Seq<Seq<char>>
    decreases es.len(),
{
    if es.len() == 0 {
        seq![]
    } else {
        let prev = entry_tops(es.drop_last());
        match entry_top(es.last()) {
            Some(t) => if prev.contains(t) {
                prev
            } else {
                prev.push(t)
            },
            None => prev,
        }
    }
}

/// Whether some file entry (with a top directory) names a `manifest.yaml`.
pub open spec fn has_manifest_entry(es: Seq<(Seq<char>, bool)>) -> bool {
    exists|k: int|
        0 <= k < es.len() && entry_top(#[trigger] es[k]) is Some && ends_with(es[k].0, "manifest.yaml"@)
}

/// Why an archive is not an importable pack.
#[derive(Debug)]
pub enum PackImportError {
    /// No file of the archive is a `manifest.yaml`.
    MissingManifest,
    /// The files sit under these top directories, not exactly one.
    NotSinglePack(Vec<String>),
}

impl PackImportError {
    /// The message the import reports when the manifest is missing.
    pub fn missing_manifest_message() -> (r: String)
        ensures
            r@ == "归档内未找到 manifest.yaml，不是有效的 .opcip 行业包"@,
    {
        string_of("归档内未找到 manifest.yaml，不是有效的 .opcip 行业包")
    }
}

/// The result of checking an archive's entry list.
pub open spec fn archive_check(es: Seq<(Seq<char>, bool)>) -> Result<Seq<char>, Seq<Seq<char>>> {
    if !has_manifest_entry(es) {
        Err(seq![])
    } else if entry_tops(es).len() != 1 {
        Err(entry_tops(es))
    } else {
        Ok(entry_tops(es)[0])
    }
}

fn top_segment_exec(name: &String) -> (r: String)
    ensures
        r@ == top_segment(name@),
{
    let v = crate::text::chars_of(name.as_str());
    let mut i: usize = 0;
    assert(v@.skip(0) =~= v@);
    assert(v@.take(0) =~= Seq::<char>::empty());
    while i < v.len() && v[i] != '/'
        invariant
            i <= v.len(),
            v@ == name@,
            top_segment(name@) == v@.take(i as int) + top_segment(v@.skip(i as int)),
        decreases v.len() - i,
    {
        assert(v@.skip(i as int).drop_first() =~= v@.skip(i + 1));
        assert(v@.take(i + 1) =~= v@.take(i as int) + seq![v@[i as int]]);
        i = i + 1;
    }
    assert(top_segment(v@.skip(i as int)) =~= Seq::<char>::empty());
    crate::text::string_from_range(&v, 0, i)
}

fn ends_with_exec(s: &String, p: &str) -> (r: bool)
    ensures
        r == ends_with(s@, p@),
{
    let v = crate::text::chars_of(s.as_str());
    let pv = crate::text::chars_of(p);
    if pv.len() > v.len() {
        return false;
    }
    let off = v.len() - pv.len();
    let mut k: usize = 0;
    while k < pv.len()
        invariant
            off + pv.len() == v.len(),
            k <= pv.len(),
            v@ == s@,
            pv@ == p@,
            forall|m: int| 0 <= m < k ==> v@[off + m] == pv@[m],
        decreases pv.len() - k,
    {
        if v[off + k] != pv[k] {
            assert(v@.skip(off as int)[k as int] != pv@[k as int]);
            return false;
        }
        k = k + 1;
    }
    assert(v@.skip(off as int) =~= pv@);
    true
}

/// Checks the entries of an `.opcip` archive (name, whether it is a
/// directory): it must hold a `manifest.yaml` and all its files must sit
/// under one top directory, whose name is the pack id returned.
pub fn check_archive_entries(entries: &Vec<(String, bool)>) -> (r: Result<String, PackImportError>)
    ensures
        match (r, archive_check(entries@.map_values(|e: (String, bool)| (e.0@, e.1)))) {
            (Ok(id), Ok(t)) => id@ == t,
            (Err(PackImportError::MissingManifest), Err(ts)) => ts.len() == 0 && !has_manifest_entry(
                entries@.map_values(|e: (String, bool)| (e.0@, e.1)),
            ),
            (Err(PackImportError::NotSinglePack(tops)), Err(ts)) => seq_view(tops@) == ts
                && has_manifest_entry(entries@.map_values(|e: (String, bool)| (e.0@, e.1))),
            _ => false,
        },
{
    let ghost es = entries@.map_values(|e: (String, bool)| (e.0@, e.1));
    let mut tops: Vec<String> = Vec::new();
    let mut has_manifest = false;
    let mut i: usize = 0;
    while i < entries.len()
        invariant
            i <= entries.len(),
            es == entries@.map_values(|e: (String, bool)| (e.0@, e.1)),
            seq_view(tops@) == entry_tops(es.take(i as int)),
            has_manifest == has_manifest_entry(es.take(i as int)),
        decreases entries.len() - i,
    {
        let ghost pre = es.take(i as int);
        assert(es.take(i + 1).drop_last() =~= pre);
        assert(es.take(i + 1).last() == es[i as int]);
        let (name, is_dir) = &entries[i];
        if !*is_dir {
            let top = top_segment_exec(name);
            if !top.as_str().is_empty() {
                if !crate::workflow::contains_string(&tops, &top) {
                    let ghost before = tops@;
                    tops.push(top);
                    assert(seq_view(tops@) =~= seq_view(before).push(top_segment(name@)));
                }
                if ends_with_exec(name, "manifest.yaml") {
                    has_manifest = true;
                    assert(entry_top(es.take(i + 1)[i as int]) is Some);
                }
            }
        }
        proof {
            let nxt = es.take(i + 1);
            if has_manifest_entry(pre) {
                let k = choose|k: int|
                    0 <= k < pre.len() && entry_top(#[trigger] pre[k]) is Some && ends_with(
                        pre[k].0,
                        "manifest.yaml"@,
                    );
                assert(nxt[k] == pre[k]);
            }
            if has_manifest_entry(nxt) {
                let k = choose|k: int|
                    0 <= k < nxt.len() && entry_top(#[trigger] nxt[k]) is Some && ends_with(
                        nxt[k].0,
                        "manifest.yaml"@,
                    );
                if k < pre.len() {
                    assert(pre[k] == nxt[k]);
                }
            }
        }
        i = i + 1;
    }
    assert(es.take(entries.len() as int) =~= es);
    if !has_manifest {
        return Err(PackImportError::MissingManifest);
    }
    if tops.len() != 1 {
        return Err(PackImportError::NotSinglePack(tops));
    }
    let id = copy_string(&tops[0]);
    Ok(id)
}

/// What the startup sync does with one entry of the bundled config tree.
#[derive(PartialEq, Eq, Structural, Clone, Copy, Debug)]
pub enum SyncAction {
    /// Copy the whole directory; the target has none.
    CopyTree,
    /// The target directory exists: go through the entries inside it.
    MergeChildren,
    /// The target directory exists below the top level: copy only the
    /// files it lacks, at any depth.
    CopyMissing,
    /// Copy the file; the target has none.
    CopyFile,
    /// The target already has this file: keep it.
    Keep,
}

/// The sync of one entry: directories missing at the target are copied
/// whole; existing ones are merged (top level) or filled in (deeper);
/// files are copied only where the target lacks them.
pub open spec fn sync_decision(top_level: bool, src_is_dir: bool, dst_is_dir: bool, dst_exists: bool) -> SyncAction {
    if src_is_dir {
        if !dst_is_dir {
            SyncAction::CopyTree
        } else if top_level {
            SyncAction::MergeChildren
        } else {
            SyncAction::CopyMissing
        }
    } else if dst_exists {
        SyncAction::Keep
    } else {
        SyncAction::CopyFile
    }
}

/// Decides the sync of one entry (see `sync_decision`).
pub fn sync_action(top_level: bool, src_is_dir: bool, dst_is_dir: bool, dst_exists: bool) -> (a: SyncAction)
    ensures
        a == sync_decision(top_level, src_is_dir, dst_is_dir, dst_exists),
{
    if src_is_dir {
        if !dst_is_dir {
            SyncAction::CopyTree
        } else if top_level {
            SyncAction::MergeChildren
        } else {
            SyncAction::CopyMissing
        }
    } else if dst_exists {
        SyncAction::Keep
    } else {
        SyncAction::CopyFile
    }
}

} // verus!

verus! {

/// Law: seeding is idempotent. Once a pack's registry row is written (as
/// `registry_row` writes it), running the seeding pass again for the same
/// manifest writes nothing: an enabled pack counts as already seeded and a
/// disabled one stays skipped.
pub proof fn law_seed_is_idempotent(m: IndustryManifest)
    ensures
        ({
            let row_enabled: i32 = if m.enabled { 1i32 } else { 0i32 };
            let d = seed_decision_spec(Some((m.version, row_enabled)), m.version, m.enabled);
            &&& d != SeedDecision::Seed
            &&& m.enabled ==> d == SeedDecision::AlreadySeeded
        }),
{
}

/// Law: cleaning up a pack never removes a template the pack still
/// produces, and removes every other one it finds.
pub proof fn law_cleanup_spares_kept(found: Seq<Seq<char>>, keep: Seq<Seq<char>>)
    ensures
        forall|id: Seq<char>| #[trigger]
            stale_ids(found, keep).contains(id) <==> (found.contains(id) && !keep.contains(id)),
{
    let pred = |x: Seq<char>| !keep.contains(x);
    assert forall|id: Seq<char>| #[trigger]
        stale_ids(found, keep).contains(id) <==> (found.contains(id) && !keep.contains(id)) by {
        if found.filter(pred).contains(id) {
            found.lemma_filter_contains_rev(pred, id);
            let j = choose|j: int| 0 <= j < found.filter(pred).len() && found.filter(pred)[j] == id;
            found.lemma_filter_pred(pred, j);
        }
        if found.contains(id) && pred(id) {
            let i = choose|i: int| 0 <= i < found.len() && found[i] == id;
            found.lemma_filter_contains(pred, i);
        }
    }
}

/// Law: the startup sync never overwrites a file the target already has,
/// and never copies a whole directory over one the target already has.
pub proof fn law_sync_never_overwrites(top_level: bool, src_is_dir: bool, dst_is_dir: bool, dst_exists: bool)
    ensures
        !src_is_dir && dst_exists ==> sync_decision(top_level, src_is_dir, dst_is_dir, dst_exists)
            == SyncAction::Keep,
        src_is_dir && dst_is_dir ==> sync_decision(top_level, src_is_dir, dst_is_dir, dst_exists)
            != SyncAction::CopyTree,
{
}

proof fn lemma_top_of_prefixed(id: Seq<char>, rest: Seq<char>)
    requires
        !id.contains('/'),
    ensures
        top_segment(id + "/"@ + rest) == id,
    decreases id.len(),
{
    reveal_strlit("/");
    if id.len() == 0 {
        assert((id + "/"@ + rest)[0] == '/');
    } else {
        assert((id + "/"@ + rest)[0] == id[0]);
        assert(!id.drop_first().contains('/')) by {
            if id.drop_first().contains('/') {
                let j = choose|j: int| 0 <= j < id.drop_first().len() && id.drop_first()[j] == '/';
                assert(id[j + 1] == '/');
            }
        }
        assert((id + "/"@ + rest).drop_first() =~= id.drop_first() + "/"@ + rest);
        lemma_top_of_prefixed(id.drop_first(), rest);
        assert(seq![id[0]] + id.drop_first() =~= id);
    }
}

/// Every file entry of `es` sits under directory `id`.
pub open spec fn all_under(es: Seq<(Seq<char>, bool)>, id: Seq<char>) -> bool {
    forall|k: int| 0 <= k < es.len() && !(#[trigger] es[k]).1 ==> starts_with_dir(es[k].0, id)
}

/// `name` is `{id}/...`.
pub open spec fn starts_with_dir(name: Seq<char>, id: Seq<char>) -> bool {
    id.len() + 1 <= name.len() && name.take(id.len() as int) == id && name[id.len() as int] == '/'
}

pub open spec fn has_file(es: Seq<(Seq<char>, bool)>) -> bool {
    exists|k: int| 0 <= k < es.len() && !(#[trigger] es[k]).1
}

proof fn lemma_top_of_dir_entry(name: Seq<char>, id: Seq<char>)
    requires
        !id.contains('/'),
        starts_with_dir(name, id),
    ensures
        top_segment(name) == id,
{
    reveal_strlit("/");
    let rest = name.skip(id.len() as int + 1);
    assert(name =~= id + "/"@ + rest);
    lemma_top_of_prefixed(id, rest);
}

proof fn lemma_tops_single(es: Seq<(Seq<char>, bool)>, id: Seq<char>)
    requires
        id.len() > 0,
        !id.contains('/'),
        all_under(es, id),
    ensures
        entry_tops(es) == (if has_file(es) { seq![id] } else { Seq::<Seq<char>>::empty() }),
    decreases es.len(),
{
    if es.len() == 0 {
        assert(!has_file(es));
    } else {
        let pre = es.drop_last();
        assert(all_under(pre, id)) by {
            assert forall|k: int| 0 <= k < pre.len() && !(#[trigger] pre[k]).1 implies starts_with_dir(
                pre[k].0,
                id,
            ) by {
                assert(pre[k] == es[k]);
            }
        }
        lemma_tops_single(pre, id);
        let last = es.last();
        if !last.1 {
            assert(es[es.len() - 1] == last);
            lemma_top_of_dir_entry(last.0, id);
            assert(entry_top(last) == Some(id));
            assert(has_file(es));
            if has_file(pre) {
                assert(seq![id].contains(id)) by {
                    assert(seq![id][0] == id);
                }
            } else {
                assert(Seq::<Seq<char>>::empty().push(id) =~= seq![id]);
            }
        } else {
            assert(entry_top(last) is None);
            if has_file(pre) {
                let k = choose|k: int| 0 <= k < pre.len() && !(#[trigger] pre[k]).1;
                assert(es[k] == pre[k]);
            }
            if has_file(es) {
                let k = choose|k: int| 0 <= k < es.len() && !(#[trigger] es[k]).1;
                assert(k < pre.len());
                assert(pre[k] == es[k]);
            }
        }
    }
}

/// Law: an archive laid out as a pack export is (every file under one
/// directory `id`, with `id/manifest.yaml` among them) imports as pack
/// `id`.
pub proof fn law_exported_pack_imports_as_its_id(es: Seq<(Seq<char>, bool)>, id: Seq<char>)
    requires
        id.len() > 0,
        !id.contains('/'),
        all_under(es, id),
        es.contains((id + "/manifest.yaml"@, false)),
    ensures
        archive_check(es) == Ok::<Seq<char>, Seq<Seq<char>>>(id),
{
    reveal_strlit("/manifest.yaml");
    reveal_strlit("manifest.yaml");
    let m = id + "/manifest.yaml"@;
    let k = choose|k: int| 0 <= k < es.len() && es[k] == (m, false);
    assert(!es[k].1);
    assert(has_file(es));
    lemma_tops_single(es, id);
    assert(starts_with_dir(m, id)) by {
        assert(m.take(id.len() as int) =~= id);
        assert(m[id.len() as int] == '/');
    }
    lemma_top_of_dir_entry(m, id);
    assert(entry_top(es[k]) == Some(id));
    assert(ends_with(es[k].0, "manifest.yaml"@)) by {
        assert(m.skip(m.len() - "manifest.yaml"@.len()) =~= "manifest.yaml"@);
    }
    assert(has_manifest_entry(es));
}

} // verus!
