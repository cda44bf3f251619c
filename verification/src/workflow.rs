use vstd::prelude::*;
use crate::text::{push_str, string_of};

verus! {

/// How an edge leaves its source node.
#[derive(PartialEq, Eq, Structural, Clone, Copy, Debug)]
pub enum EdgeType {
    Direct,
    ConditionTrue,
    ConditionFalse,
}

/// A canvas position. Every position the seeders place is a whole number.
#[derive(PartialEq, Eq, Structural, Clone, Copy, Debug)]
pub struct Position {
    pub x: i64,
    pub y: i64,
}

/// A tool a node may call: its name, description and parameter schema
/// (the schema as JSON text).
#[derive(Debug)]
pub struct ToolDef {
    pub name: String,
    pub description: Option<String>,
    pub parameters: Option<String>,
}

/// Fields every node has.
#[derive(Debug)]
pub struct NodeBase {
    pub id: String,
    pub title: String,
    pub description: String,
    pub position: Position,
}

/// Configuration of an agent node.
#[derive(Debug)]
pub struct AgentConfig {
    pub system_prompt: String,
    pub output_var: String,
    pub tools: Vec<ToolDef>,
    pub exposed_tools: Vec<String>,
    pub agent_profile_id: Option<String>,
    pub max_tool_rounds: Option<u32>,
    pub model_role: Option<String>,
    /// Whether the hallucination guard is switched on for this node.
    pub hallucination_guard: bool,
    /// Input variable name and the upstream output path it reads; a map,
    /// so no variable name occurs twice (see `keys_distinct`).
    pub input_mapping: Vec<(String, String)>,
}

/// Configuration of a human approval node.
#[derive(Debug)]
pub struct ApprovalConfig {
    pub message: String,
    pub approver: Option<String>,
    pub timeout_secs: u64,
    pub timeout_action: String,
    pub output_var: String,
}

/// A workflow node.
#[derive(Debug)]
pub enum WorkflowNode {
    Trigger(NodeBase),
    Agent(NodeBase, AgentConfig),
    Approval(NodeBase, ApprovalConfig),
    End(NodeBase),
}

/// A workflow edge; `source_handle` is "true"/"false" on conditional edges.
#[derive(Debug)]
pub struct WorkflowEdge {
    pub id: String,
    pub source: String,
    pub source_handle: Option<String>,
    pub target: String,
    pub edge_type: EdgeType,
}

/// How a workflow is started.
#[derive(PartialEq, Eq, Structural, Clone, Copy, Debug)]
pub enum TriggerType {
    /// Started by hand.
    Manual,
}

/// What a run does when a node fails.
#[derive(PartialEq, Eq, Structural, Clone, Copy, Debug)]
pub enum OnFailureAction {
    /// Retry the node, then abort the run.
    RetryThenAbort,
}

/// A workflow template ready to be stored.
#[derive(Debug)]
pub struct WorkflowTemplate {
    pub id: String,
    pub name: String,
    pub description: String,
    pub icon: String,
    pub tags: Vec<String>,
    pub version: i32,
    pub is_preset: bool,
    pub is_editable: bool,
    pub is_public: bool,
    /// How the workflow is started.
    pub trigger_config: Option<TriggerType>,
    pub nodes: Vec<WorkflowNode>,
    pub edges: Vec<WorkflowEdge>,
    /// Names of the `{name}` variables the prompts read, each once.
    pub variables: Vec<String>,
    /// The failure policy, when the template sets one.
    pub error_config: Option<OnFailureAction>,
    pub created_at: i64,
    pub updated_at: i64,
}

// ── mathematical views ──────────────────────────────────────────────

pub struct EdgeV {
    pub id: Seq<char>,
    pub source: Seq<char>,
    pub target: Seq<char>,
    pub kind: EdgeType,
    /// The decision branch the edge leaves from, if any.
    pub handle: Option<Seq<char>>,
}

pub struct BaseV {
    pub id: Seq<char>,
    pub title: Seq<char>,
    pub description: Seq<char>,
    pub x: int,
    pub y: int,
}

pub open spec fn seq_view(s: Seq<String>) -> Seq<Seq<char>> {
    s.map_values(|x: String| x@)
}

pub open spec fn opt_view(o: Option<String>) -> Option<Seq<char>> {
    match o {
        Some(s) => Some(s@),
        None => None,
    }
}

pub open spec fn pair_seq_view(s: Seq<(String, String)>) -> Seq<(Seq<char>, Seq<char>)> {
    s.map_values(|p: (String, String)| (p.0@, p.1@))
}

/// No key occurs twice (a map written as a list of pairs).
pub open spec fn keys_distinct(ps: Seq<(Seq<char>, Seq<char>)>) -> bool {
    forall|i: int, j: int| 0 <= i < j < ps.len() ==> #[trigger] ps[i].0 != #[trigger] ps[j].0
}

pub struct ToolV {
    pub name: Seq<char>,
    pub description: Option<Seq<char>>,
    pub parameters: Option<Seq<char>>,
}

pub struct AgentV {
    pub system_prompt: Seq<char>,
    pub output_var: Seq<char>,
    pub tools: Seq<ToolV>,
    pub exposed_tools: Seq<Seq<char>>,
    pub agent_profile_id: Option<Seq<char>>,
    pub max_tool_rounds: Option<u32>,
    pub model_role: Option<Seq<char>>,
    pub hallucination_guard: bool,
    pub input_mapping: Seq<(Seq<char>, Seq<char>)>,
}

pub struct ApprovalV {
    pub message: Seq<char>,
    pub approver: Option<Seq<char>>,
    pub timeout_secs: u64,
    pub timeout_action: Seq<char>,
    pub output_var: Seq<char>,
}

pub enum NodeV {
    Trigger(BaseV),
    Agent(BaseV, AgentV),
    Approval(BaseV, ApprovalV),
    End(BaseV),
}

impl ToolDef {
    pub open spec fn view(&self) -> ToolV {
        ToolV {
            name: self.name@,
            description: opt_view(self.description),
            parameters: opt_view(self.parameters),
        }
    }
}

pub open spec fn tools_view(s: Seq<ToolDef>) -> Seq<ToolV> {
    s.map_values(|t: ToolDef| t.view())
}

impl NodeBase {
    pub open spec fn view(&self) -> BaseV {
        BaseV {
            id: self.id@,
            title: self.title@,
            description: self.description@,
            x: self.position.x as int,
            y: self.position.y as int,
        }
    }
}

impl AgentConfig {
    pub open spec fn view(&self) -> AgentV {
        AgentV {
            system_prompt: self.system_prompt@,
            output_var: self.output_var@,
            tools: tools_view(self.tools@),
            exposed_tools: seq_view(self.exposed_tools@),
            agent_profile_id: opt_view(self.agent_profile_id),
            max_tool_rounds: self.max_tool_rounds,
            model_role: opt_view(self.model_role),
            hallucination_guard: self.hallucination_guard,
            input_mapping: pair_seq_view(self.input_mapping@),
        }
    }
}

impl ApprovalConfig {
    pub open spec fn view(&self) -> ApprovalV {
        ApprovalV {
            message: self.message@,
            approver: opt_view(self.approver),
            timeout_secs: self.timeout_secs,
            timeout_action: self.timeout_action@,
            output_var: self.output_var@,
        }
    }
}

impl WorkflowNode {
    pub open spec fn view(&self) -> NodeV {
        match self {
            WorkflowNode::Trigger(b) => NodeV::Trigger(b.view()),
            WorkflowNode::Agent(b, c) => NodeV::Agent(b.view(), c.view()),
            WorkflowNode::Approval(b, c) => NodeV::Approval(b.view(), c.view()),
            WorkflowNode::End(b) => NodeV::End(b.view()),
        }
    }
}

/// The handle a well-formed edge of this kind carries.
pub open spec fn handle_of(kind: EdgeType) -> Option<Seq<char>> {
    match kind {
        EdgeType::Direct => None,
        EdgeType::ConditionTrue => Some("true"@),
        EdgeType::ConditionFalse => Some("false"@),
    }
}

impl WorkflowEdge {
    pub open spec fn view(&self) -> EdgeV {
        EdgeV {
            id: self.id@,
            source: self.source@,
            target: self.target@,
            kind: self.edge_type,
            handle: opt_view(self.source_handle),
        }
    }

    /// The handle agrees with the edge kind.
    pub open spec fn well_formed(&self) -> bool {
        opt_view(self.source_handle) == handle_of(self.edge_type)
    }
}

/// An agent node maps each input variable once.
pub open spec fn node_inputs_distinct(n: NodeV) -> bool {
    match n {
        NodeV::Agent(_, a) => keys_distinct(a.input_mapping),
        _ => true,
    }
}

pub open spec fn nodes_view(s: Seq<WorkflowNode>) -> Seq<NodeV> {
    s.map_values(|n: WorkflowNode| n.view())
}

pub open spec fn edges_view(s: Seq<WorkflowEdge>) -> Seq<EdgeV> {
    s.map_values(|e: WorkflowEdge| e.view())
}

pub open spec fn edges_well_formed(s: Seq<WorkflowEdge>) -> bool {
    forall|k: int| 0 <= k < s.len() ==> #[trigger] s[k].well_formed()
}

// ── constructors ────────────────────────────────────────────────────

/// An unconditional edge.
pub fn edge(id: &str, source: &str, target: &str) -> (e: WorkflowEdge)
    ensures
        e.view() == (EdgeV { id: id@, source: source@, target: target@, kind: EdgeType::Direct, handle: None }),
        e.well_formed(),
{
    WorkflowEdge {
        id: string_of(id),
        source: string_of(source),
        source_handle: None,
        target: string_of(target),
        edge_type: EdgeType::Direct,
    }
}

/// A conditional edge taken when the source's decision is `is_true`.
pub fn cond_edge(id: &str, source: &str, target: &str, is_true: bool) -> (e: WorkflowEdge)
    ensures
        e.view() == (EdgeV {
            id: id@,
            source: source@,
            target: target@,
            kind: if is_true {
                EdgeType::ConditionTrue
            } else {
                EdgeType::ConditionFalse
            },
            handle: Some(
                if is_true {
                    "true"@
                } else {
                    "false"@
                },
            ),
        }),
        e.well_formed(),
{
    WorkflowEdge {
        id: string_of(id),
        source: string_of(source),
        source_handle: Some(
            if is_true {
                string_of("true")
            } else {
                string_of("false")
            },
        ),
        target: string_of(target),
        edge_type: if is_true {
            EdgeType::ConditionTrue
        } else {
            EdgeType::ConditionFalse
        },
    }
}

/// The common part of a node.
pub fn make_base(id: &str, title: &str, desc: &str, x: i64, y: i64) -> (b: NodeBase)
    ensures
        b.view() == (BaseV { id: id@, title: title@, description: desc@, x: x as int, y: y as int }),
{
    NodeBase {
        id: string_of(id),
        title: string_of(title),
        description: string_of(desc),
        position: Position { x, y },
    }
}

/// A tool definition that carries only a name.
pub fn td(name: &str) -> (t: ToolDef)
    ensures
        t.view() == (ToolV { name: name@, description: None, parameters: None }),
{
    ToolDef { name: string_of(name), description: None, parameters: None }
}

/// `e-{a}-{b}`.
pub open spec fn eid(a: Seq<char>, b: Seq<char>) -> Seq<char> {
    "e-"@ + a + "-"@ + b
}

/// Builds the edge id `e-{a}-{b}`.
pub fn make_eid(a: &str, b: &str) -> (r: String)
    ensures
        r@ == eid(a@, b@),
{
    let mut s = string_of("e-");
    push_str(&mut s, a);
    push_str(&mut s, "-");
    push_str(&mut s, b);
    s
}

} // verus!

verus! {

pub struct TemplateV {
    pub id: Seq<char>,
    pub name: Seq<char>,
    pub description: Seq<char>,
    pub icon: Seq<char>,
    pub tags: Seq<Seq<char>>,
    pub version: i32,
    pub is_preset: bool,
    pub is_editable: bool,
    pub is_public: bool,
    pub trigger_config: Option<TriggerType>,
    pub nodes: Seq<NodeV>,
    pub edges: Seq<EdgeV>,
    pub variables: Seq<Seq<char>>,
    pub error_config: Option<OnFailureAction>,
    pub created_at: i64,
    pub updated_at: i64,
}

impl WorkflowTemplate {
    pub open spec fn view(&self) -> TemplateV {
        TemplateV {
            id: self.id@,
            name: self.name@,
            description: self.description@,
            icon: self.icon@,
            tags: seq_view(self.tags@),
            version: self.version,
            is_preset: self.is_preset,
            is_editable: self.is_editable,
            is_public: self.is_public,
            trigger_config: self.trigger_config,
            nodes: nodes_view(self.nodes@),
            edges: edges_view(self.edges@),
            variables: seq_view(self.variables@),
            error_config: self.error_config,
            created_at: self.created_at,
            updated_at: self.updated_at,
        }
    }
}

/// A copy of `s` (std's `String::clone`, which vstd specifies).
pub fn copy_string(s: &String) -> (r: String)
    ensures
        r@ == s@,
{
    s.clone()
}

pub fn copy_opt_string(s: &Option<String>) -> (r: Option<String>)
    ensures
        opt_view(r) == opt_view(*s),
{
    match s {
        Some(x) => Some(x.clone()),
        None => None,
    }
}

pub fn copy_strings(v: &Vec<String>) -> (r: Vec<String>)
    ensures
        seq_view(r@) == seq_view(v@),
{
    let mut r: Vec<String> = Vec::new();
    let mut i: usize = 0;
    while i < v.len()
        invariant
            i <= v.len(),
            seq_view(r@) == seq_view(v@).take(i as int),
        decreases v.len() - i,
    {
        let ghost before = r@;
        r.push(v[i].clone());
        assert(seq_view(r@) =~= seq_view(before).push(v@[i as int]@));
        i = i + 1;
        assert(seq_view(r@) =~= seq_view(v@).take(i as int));
    }
    assert(seq_view(v@).take(v.len() as int) =~= seq_view(v@));
    r
}

pub fn copy_pairs(v: &Vec<(String, String)>) -> (r: Vec<(String, String)>)
    ensures
        pair_seq_view(r@) == pair_seq_view(v@),
{
    let mut r: Vec<(String, String)> = Vec::new();
    let mut i: usize = 0;
    while i < v.len()
        invariant
            i <= v.len(),
            pair_seq_view(r@) == pair_seq_view(v@).take(i as int),
        decreases v.len() - i,
    {
        let ghost before = r@;
        let (a, b) = &v[i];
        r.push((a.clone(), b.clone()));
        assert(pair_seq_view(r@) =~= pair_seq_view(before).push((v@[i as int].0@, v@[i as int].1@)));
        i = i + 1;
        assert(pair_seq_view(r@) =~= pair_seq_view(v@).take(i as int));
    }
    assert(pair_seq_view(v@).take(v.len() as int) =~= pair_seq_view(v@));
    r
}

pub fn copy_tool(t: &ToolDef) -> (r: ToolDef)
    ensures
        r.view() == t.view(),
{
    ToolDef {
        name: t.name.clone(),
        description: copy_opt_string(&t.description),
        parameters: copy_opt_string(&t.parameters),
    }
}

/// Whether `names` holds a string equal to `name`.
pub fn contains_string(names: &Vec<String>, name: &String) -> (r: bool)
    ensures
        r == seq_view(names@).contains(name@),
{
    let mut j: usize = 0;
    while j < names.len()
        invariant
            j <= names.len(),
            forall|k: int| 0 <= k < j ==> names@[k]@ != name@,
        decreases names.len() - j,
    {
        if names[j] == *name {
            assert(seq_view(names@)[j as int] == name@);
            return true;
        }
        j = j + 1;
    }
    assert forall|k: int| 0 <= k < seq_view(names@).len() implies seq_view(names@)[k] != name@ by {
        assert(seq_view(names@)[k] == names@[k]@);
    }
    false
}

/// The tools of `catalog` whose name `names` lists, in catalog order.
pub open spec fn select_tools(catalog: Seq<ToolV>, names: Seq<Seq<char>>) -> Seq<ToolV> {
    catalog.filter(|t: ToolV| names.contains(t.name))
}

/// Picks from `catalog`, in its order, the tools that `names` lists.
pub fn select_tool_defs(catalog: &Vec<ToolDef>, names: &Vec<String>) -> (r: Vec<ToolDef>)
    ensures
        tools_view(r@) == select_tools(tools_view(catalog@), seq_view(names@)),
{
    let ghost pred = |t: ToolV| seq_view(names@).contains(t.name);
    let mut r: Vec<ToolDef> = Vec::new();
    let mut i: usize = 0;
    while i < catalog.len()
        invariant
            i <= catalog.len(),
            pred == (|t: ToolV| seq_view(names@).contains(t.name)),
            tools_view(r@) == tools_view(catalog@).take(i as int).filter(pred),
        decreases catalog.len() - i,
    {
        reveal_with_fuel(Seq::<_>::filter, 1);
        assert(tools_view(catalog@).take(i + 1).drop_last() =~= tools_view(catalog@).take(i as int));
        assert(tools_view(catalog@).take(i + 1).last() == catalog@[i as int].view());
        if contains_string(names, &catalog[i].name) {
            let ghost before = r@;
            r.push(copy_tool(&catalog[i]));
            assert(tools_view(r@) =~= tools_view(before).push(catalog@[i as int].view()));
        }
        i = i + 1;
    }
    assert(tools_view(catalog@).take(catalog.len() as int) =~= tools_view(catalog@));
    r
}

/// The names of the given tools.
pub fn tool_names(tools: &Vec<ToolDef>) -> (r: Vec<String>)
    ensures
        seq_view(r@) == tools_view(tools@).map_values(|t: ToolV| t.name),
{
    let mut r: Vec<String> = Vec::new();
    let mut i: usize = 0;
    while i < tools.len()
        invariant
            i <= tools.len(),
            seq_view(r@) == tools_view(tools@).take(i as int).map_values(|t: ToolV| t.name),
        decreases tools.len() - i,
    {
        let ghost before = r@;
        r.push(tools[i].name.clone());
        assert(seq_view(r@) =~= seq_view(before).push(tools@[i as int].name@));
        assert(tools_view(tools@).take(i + 1).map_values(|t: ToolV| t.name) =~= tools_view(
            tools@,
        ).take(i as int).map_values(|t: ToolV| t.name).push(tools@[i as int].name@));
        i = i + 1;
    }
    assert(tools_view(tools@).take(tools.len() as int) =~= tools_view(tools@));
    r
}

} // verus!

verus! {

// ── template variables: the `{name}` references of prompts ──────────

/// A character that may stand in a variable name.
pub open spec fn is_var_char(c: char) -> bool {
    ('a' <= c && c <= 'z') || ('A' <= c && c <= 'Z') || ('0' <= c && c <= '9') || c == '_'
}

/// The end of the run of name characters of `s` that starts at `i`.
pub open spec fn var_end(s: Seq<char>, i: int) -> int
    decreases s.len() - i,
{
    if 0 <= i < s.len() && is_var_char(s[i]) {
        var_end(s, i + 1)
    } else {
        i
    }
}

/// Where a run of name characters ends, and that it holds only such characters.
pub proof fn lemma_var_end_bounds(s: Seq<char>, i: int)
    requires
        0 <= i <= s.len(),
    ensures
        i <= var_end(s, i) <= s.len(),
        forall|j: int| i <= j < var_end(s, i) ==> is_var_char(#[trigger] s[j]),
        var_end(s, i) < s.len() ==> !is_var_char(s[var_end(s, i)]),
    decreases s.len() - i,
{
    if i < s.len() && is_var_char(s[i]) {
        lemma_var_end_bounds(s, i + 1);
    }
}

/// Whether a `{name}` reference opens at `i`: a `{`, a non-empty run of
/// name characters, a `}`.
pub open spec fn ref_at(s: Seq<char>, i: int) -> bool {
    &&& 0 <= i < s.len()
    &&& s[i] == '{'
    &&& var_end(s, i + 1) > i + 1
    &&& var_end(s, i + 1) < s.len()
    &&& s[var_end(s, i + 1)] == '}'
}

/// The names referenced as `{name}` in `s` from position `i` on, in order.
pub open spec fn refs_from(s: Seq<char>, i: int) -> Seq<Seq<char>>
    decreases s.len() - i,
{
    if i < 0 || i >= s.len() {
        seq![]
    } else if ref_at(s, i) {
        proof {
            lemma_var_end_bounds(s, i + 1);
        }
        seq![s.subrange(i + 1, var_end(s, i + 1))] + refs_from(s, var_end(s, i + 1) + 1)
    } else {
        refs_from(s, i + 1)
    }
}

/// The names referenced by a list of prompts, prompt after prompt.
pub open spec fn prompts_refs(ps: Seq<Seq<char>>) -> Seq<Seq<char>>
    decreases ps.len(),
{
    if ps.len() == 0 {
        seq![]
    } else {
        prompts_refs(ps.drop_last()) + refs_from(ps.last(), 0)
    }
}

/// The distinct items of `s`, in the order of their first occurrence.
pub open spec fn distinct_in_order(s: Seq<Seq<char>>) -> Seq<Seq<char>>
    decreases s.len(),
{
    if s.len() == 0 {
        seq![]
    } else if distinct_in_order(s.drop_last()).contains(s.last()) {
        distinct_in_order(s.drop_last())
    } else {
        distinct_in_order(s.drop_last()).push(s.last())
    }
}

/// The variables of a template whose prompts are `ps`.
pub open spec fn template_variables(ps: Seq<Seq<char>>) -> Seq<Seq<char>> {
    distinct_in_order(prompts_refs(ps))
}

/// `distinct_in_order` after one more item.
proof fn lemma_distinct_push(a: Seq<Seq<char>>, x: Seq<char>)
    ensures
        distinct_in_order(a.push(x)) == if distinct_in_order(a).contains(x) {
            distinct_in_order(a)
        } else {
            distinct_in_order(a).push(x)
        },
{
    assert(a.push(x).drop_last() =~= a);
}

/// The index where the run of name characters from `i` ends.
fn var_end_index(v: &Vec<char>, i: usize) -> (e: usize)
    requires
        i <= v.len(),
    ensures
        e == var_end(v@, i as int),
{
    let mut j = i;
    while j < v.len() && (('a' <= v[j] && v[j] <= 'z') || ('A' <= v[j] && v[j] <= 'Z') || ('0' <= v[j]
        && v[j] <= '9') || v[j] == '_')
        invariant
            i <= j <= v.len(),
            var_end(v@, i as int) == var_end(v@, j as int),
        decreases v.len() - j,
    {
        j = j + 1;
    }
    j
}

/// Appends to `vars` the names `prompt` references that it lacks.
fn add_prompt_refs(vars: &mut Vec<String>, prompt: &String, Ghost(before): Ghost<Seq<Seq<char>>>)
    requires
        seq_view(old(vars)@) == distinct_in_order(before),
    ensures
        seq_view(final(vars)@) == distinct_in_order(before + refs_from(prompt@, 0)),
{
    let v = crate::text::chars_of(prompt.as_str());
    let ghost mut done: Seq<Seq<char>> = seq![];
    let mut i: usize = 0;
    while i < v.len()
        invariant
            v@ == prompt@,
            i <= v.len(),
            refs_from(v@, 0) == done + refs_from(v@, i as int),
            seq_view(vars@) == distinct_in_order(before + done),
        decreases v.len() - i,
    {
        let mut next = i + 1;
        if v[i] == '{' {
            let e = var_end_index(&v, i + 1);
            if e > i + 1 && e < v.len() && v[e] == '}' {
                proof {
                    lemma_var_end_bounds(v@, i + 1);
                }
                assert(ref_at(v@, i as int));
                let name = crate::text::string_from_range(&v, i + 1, e);
                let ghost nm = name@;
                assert(refs_from(v@, i as int) == seq![nm] + refs_from(v@, e + 1));
                proof {
                    lemma_distinct_push(before + done, nm);
                    assert((before + done).push(nm) =~= before + done.push(nm));
                    assert(done + (seq![nm] + refs_from(v@, e + 1)) =~= done.push(nm) + refs_from(v@, e + 1));
                }
                if !contains_string(vars, &name) {
                    let ghost vb = vars@;
                    vars.push(name);
                    assert(seq_view(vars@) =~= seq_view(vb).push(nm));
                }
                proof {
                    done = done.push(nm);
                }
                next = e + 1;
            } else {
                assert(!ref_at(v@, i as int));
            }
        }
        if next == i + 1 {
            assert(refs_from(v@, i as int) == refs_from(v@, i + 1));
        }
        i = next;
    }
    assert(refs_from(v@, i as int) == Seq::<Seq<char>>::empty());
    assert(done + Seq::<Seq<char>>::empty() =~= done);
}

/// The variables of a template whose prompts are `prompts`: every name
/// written `{name}` (letters, digits, `_`) in them, each once, in the order
/// of first reference.
pub fn prompt_variables(prompts: &Vec<String>) -> (r: Vec<String>)
    ensures
        seq_view(r@) == template_variables(seq_view(prompts@)),
{
    let mut vars: Vec<String> = Vec::new();
    let mut k: usize = 0;
    while k < prompts.len()
        invariant
            k <= prompts.len(),
            seq_view(vars@) == distinct_in_order(prompts_refs(seq_view(prompts@).take(k as int))),
        decreases prompts.len() - k,
    {
        let ghost before = prompts_refs(seq_view(prompts@).take(k as int));
        add_prompt_refs(&mut vars, &prompts[k], Ghost(before));
        assert(seq_view(prompts@).take(k + 1).drop_last() =~= seq_view(prompts@).take(k as int));
        assert(seq_view(prompts@).take(k + 1).last() == prompts@[k as int]@);
        k = k + 1;
    }
    assert(seq_view(prompts@).take(prompts.len() as int) =~= seq_view(prompts@));
    vars
}

} // verus!
