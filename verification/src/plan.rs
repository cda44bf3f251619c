use vstd::prelude::*;
use vstd::utf8::{decode_utf8, encode_utf8};
use vstd::string::StringSliceAdditionalSpecFns;
use crate::clock::{new_uuid, now_millis, is_uuid_v4_text};
use crate::text::{chars_of, push_str, string_of};
use crate::workflow::{copy_string, opt_view, seq_view};

verus! {

/// Request to draft a plan for a message.
#[derive(Debug)]
pub struct PlanGenerateRequest {
    pub conversation_id: String,
    pub content: String,
}

/// Request to run an approved plan.
#[derive(Debug)]
pub struct PlanExecuteRequest {
    pub conversation_id: String,
    pub plan_id: String,
    pub step_ids: Option<Vec<String>>,
}

/// Request to cancel a plan.
#[derive(Debug)]
pub struct PlanCancelRequest {
    pub conversation_id: String,
    pub plan_id: String,
    pub reason: Option<String>,
}

/// Request for one plan.
#[derive(Debug)]
pub struct PlanGetRequest {
    pub plan_id: String,
}

/// Request for the plans of a conversation.
#[derive(Debug)]
pub struct PlanListRequest {
    pub conversation_id: String,
    pub include_completed: Option<bool>,
}

/// Request to edit, approve or reject a step.
#[derive(Debug)]
pub struct PlanModifyStepRequest {
    pub plan_id: String,
    pub step_id: String,
    pub title: Option<String>,
    pub description: Option<String>,
    pub approved: Option<bool>,
}

/// State of one plan step.
#[derive(PartialEq, Eq, Structural, Clone, Copy, Debug)]
pub enum PlanStepStatus {
    Pending,
    Approved,
    Rejected,
    Running,
    Completed,
    Error,
}

/// State of a plan.
#[derive(PartialEq, Eq, Structural, Clone, Copy, Debug)]
pub enum PlanStatus {
    Draft,
    Reviewing,
    Approved,
    Executing,
    Completed,
    Cancelled,
}

/// One step of a plan.
#[derive(Debug)]
pub struct PlanStep {
    pub id: String,
    pub title: String,
    pub description: String,
    pub status: PlanStepStatus,
    pub estimated_tools: Option<Vec<String>>,
    pub result: Option<String>,
}

/// A plan: steps to carry out a user's request.
#[derive(Debug)]
pub struct Plan {
    pub id: String,
    pub conversation_id: String,
    pub user_message_id: String,
    pub title: String,
    pub steps: Vec<PlanStep>,
    pub status: PlanStatus,
    pub is_active: bool,
    pub created_under_strategy: Option<String>,
    pub created_at: i64,
    pub updated_at: i64,
}

/// Event: a plan was drafted.
#[derive(Debug)]
pub struct PlanGeneratedEvent {
    pub conversation_id: String,
    pub plan: Plan,
}

/// Event: a step changed state.
#[derive(Debug)]
pub struct PlanStepUpdateEvent {
    pub conversation_id: String,
    pub plan_id: String,
    pub step_id: String,
    pub status: PlanStepStatus,
    pub result: Option<String>,
}

/// Event: a plan finished ("completed") or was cancelled ("cancelled").
#[derive(Debug)]
pub struct PlanExecutionCompleteEvent {
    pub conversation_id: String,
    pub plan_id: String,
    pub status: String,
}

// ── classification ──────────────────────────────────────────────────

/// Whether `p` occurs in `s`.
pub open spec fn contains_text(s: Seq<char>, p: Seq<char>) -> bool {
    exists|i: int| 0 <= i && i + p.len() <= s.len() && #[trigger] s.subrange(i, i + p.len()) == p
}

/// Whether `p` occurs in `s` (`str::contains`).
pub fn text_contains(s: &str, p: &str) -> (r: bool)
    ensures
        r == contains_text(s@, p@),
{
    let v = chars_of(s);
    let pv = chars_of(p);
    if pv.len() > v.len() {
        return false;
    }
    let mut i: usize = 0;
    while i <= v.len() - pv.len()
        invariant
            v@ == s@,
            pv@ == p@,
            pv.len() <= v.len(),
            i <= v.len() - pv.len() + 1,
            forall|j: int| 0 <= j < i ==> #[trigger] s@.subrange(j, j + p@.len()) != p@,
        decreases v.len() - pv.len() + 1 - i,
    {
        let mut k: usize = 0;
        let mut same = true;
        while k < pv.len()
            invariant
                v@ == s@,
                pv@ == p@,
                i + pv.len() <= v.len(),
                k <= pv.len(),
                same == forall|m: int| 0 <= m < k ==> v@[i + m] == pv@[m],
            decreases pv.len() - k,
        {
            if v[i + k] != pv[k] {
                same = false;
            }
            k = k + 1;
        }
        if same {
            assert(s@.subrange(i as int, i + p@.len()) =~= p@);
            return true;
        }
        assert(s@.subrange(i as int, i + p@.len()) != p@) by {
            let m = choose|m: int| 0 <= m < pv.len() && v@[i + m] != pv@[m];
            assert(s@.subrange(i as int, i + p@.len())[m] != p@[m]);
        }
        i = i + 1;
    }
    false
}

/// What kind of request a message makes.
#[derive(PartialEq, Eq, Structural, Clone, Copy, Debug)]
pub enum PlanKind {
    Implement,
    Fix,
    General,
}

pub open spec fn plan_kind_of(content: Seq<char>) -> PlanKind {
    if contains_text(content, "implement"@) || contains_text(content, "实现"@) {
        PlanKind::Implement
    } else if contains_text(content, "fix"@) || contains_text(content, "修复"@) || contains_text(
        content,
        "bug"@,
    ) {
        PlanKind::Fix
    } else {
        PlanKind::General
    }
}

/// Classifies a request: "implement"/"实现" first, then "fix"/"修复"/"bug".
pub fn classify_plan_request(content: &str) -> (k: PlanKind)
    ensures
        k == plan_kind_of(content@),
{
    if text_contains(content, "implement") || text_contains(content, "实现") {
        PlanKind::Implement
    } else if text_contains(content, "fix") || text_contains(content, "修复") || text_contains(
        content,
        "bug",
    ) {
        PlanKind::Fix
    } else {
        PlanKind::General
    }
}

/// The (title, description, tools) of each step a kind of plan has.
pub open spec fn plan_step_specs(k: PlanKind) -> Seq<(Seq<char>, Seq<char>, Seq<Seq<char>>)> {
    match k {
        PlanKind::Implement => seq![
            ("Analyze requirements"@, "Understand the task scope and identify key components"@, seq![]),
            ("Design solution"@, "Plan the architecture and component structure"@, seq![]),
            ("Implement changes"@, "Write the actual code changes"@, seq!["Read"@, "Write"@, "Edit"@, "Bash"@]),
            ("Verify & test"@, "Run tests and verify the implementation works correctly"@, seq!["Bash"@]),
        ],
        PlanKind::Fix => seq![
            ("Reproduce the issue"@, "Understand and reproduce the bug"@, seq![]),
            ("Identify root cause"@, "Trace the bug to its source"@, seq!["Read"@, "Grep"@]),
            ("Apply fix"@, "Implement the fix and verify"@, seq!["Edit"@, "Bash"@]),
        ],
        PlanKind::General => seq![
            ("Research"@, "Gather relevant information and context"@, seq!["WebSearch"@, "Read"@]),
            ("Execute"@, "Perform the requested task"@, seq![]),
            ("Deliver"@, "Present results and summary"@, seq![]),
        ],
    }
}

/// Number of steps a kind of plan has.
pub fn plan_step_count(k: PlanKind) -> (n: usize)
    ensures
        n == plan_step_specs(k).len(),
{
    match k {
        PlanKind::Implement => 4,
        _ => 3,
    }
}

// ── title ───────────────────────────────────────────────────────────

/// Byte length of `s` in UTF-8.
pub open spec fn utf8_len(s: Seq<char>) -> nat {
    encode_utf8(s).len()
}

/// The title of a plan: the message itself, or its first 60 bytes and
/// "..." when it is longer.
pub open spec fn plan_title(content: Seq<char>) -> Seq<char> {
    if utf8_len(content) > 60 {
        decode_utf8(encode_utf8(content).subrange(0, 60)) + "..."@
    } else {
        content
    }
}

/// The message fits in memory and can be cut after 60 bytes: byte 60
/// does not fall inside a character (slicing there would panic).
pub open spec fn title_cut_ok(content: Seq<char>) -> bool {
    &&& utf8_len(content) <= usize::MAX
    &&& utf8_len(content) > 60 ==> vstd::utf8::is_char_boundary(encode_utf8(content), 60)
}

/// Computes the plan title (see `plan_title`).
pub fn make_plan_title(content: &str) -> (r: String)
    requires
        title_cut_ok(content@),
    ensures
        r@ == plan_title(content@),
{
    if content.len() > 60 {
        let (head, _tail) = content.split_at(60);
        let mut r = string_of(head);
        push_str(&mut r, "...");
        proof {
            vstd::utf8::encode_utf8_decode_utf8(head@);
            assert(head.spec_bytes() == encode_utf8(head@));
            assert(content.spec_bytes() == encode_utf8(content@));
            assert(encode_utf8(head@) == encode_utf8(content@).subrange(0, 60));
            assert(head@ == decode_utf8(encode_utf8(content@).subrange(0, 60)));
        }
        r
    } else {
        string_of(content)
    }
}

} // verus!

verus! {

pub struct StepV {
    pub id: Seq<char>,
    pub title: Seq<char>,
    pub description: Seq<char>,
    pub status: PlanStepStatus,
    pub estimated_tools: Option<Seq<Seq<char>>>,
    pub result: Option<Seq<char>>,
}

pub struct PlanV {
    pub id: Seq<char>,
    pub conversation_id: Seq<char>,
    pub user_message_id: Seq<char>,
    pub title: Seq<char>,
    pub steps: Seq<StepV>,
    pub status: PlanStatus,
    pub is_active: bool,
    pub created_under_strategy: Option<Seq<char>>,
    pub created_at: i64,
    pub updated_at: i64,
}

impl PlanStep {
    pub open spec fn view(&self) -> StepV {
        StepV {
            id: self.id@,
            title: self.title@,
            description: self.description@,
            status: self.status,
            estimated_tools: match self.estimated_tools {
                Some(v) => Some(seq_view(v@)),
                None => None,
            },
            result: opt_view(self.result),
        }
    }
}

impl Plan {
    pub open spec fn view(&self) -> PlanV {
        PlanV {
            id: self.id@,
            conversation_id: self.conversation_id@,
            user_message_id: self.user_message_id@,
            title: self.title@,
            steps: self.steps@.map_values(|s: PlanStep| s.view()),
            status: self.status,
            is_active: self.is_active,
            created_under_strategy: opt_view(self.created_under_strategy),
            created_at: self.created_at,
            updated_at: self.updated_at,
        }
    }

    pub open spec fn step_id_views(&self) -> Seq<Seq<char>> {
        self.steps@.map_values(|s: PlanStep| s.id@)
    }
}

/// The plan drafted for `content` with the given ids and time.
pub open spec fn plan_spec(
    conversation_id: Seq<char>,
    content: Seq<char>,
    user_message_id: Seq<char>,
    step_ids: Seq<Seq<char>>,
    plan_id: Seq<char>,
    now: i64,
) -> PlanV {
    let specs = plan_step_specs(plan_kind_of(content));
    PlanV {
        id: plan_id,
        conversation_id,
        user_message_id,
        title: plan_title(content),
        steps: Seq::new(
            specs.len(),
            |k: int|
                StepV {
                    id: step_ids[k],
                    title: specs[k].0,
                    description: specs[k].1,
                    status: PlanStepStatus::Pending,
                    estimated_tools: Some(specs[k].2),
                    result: None,
                },
        ),
        status: PlanStatus::Reviewing,
        is_active: true,
        created_under_strategy: Some("plan"@),
        created_at: now,
        updated_at: now,
    }
}

fn step_template(kind: PlanKind, k: usize) -> (r: (String, String, Vec<String>))
    requires
        k < plan_step_specs(kind).len(),
    ensures
        r.0@ == plan_step_specs(kind)[k as int].0,
        r.1@ == plan_step_specs(kind)[k as int].1,
        seq_view(r.2@) == plan_step_specs(kind)[k as int].2,
{
    let r = match kind {
        PlanKind::Implement => {
            if k == 0 {
                (string_of("Analyze requirements"), string_of("Understand the task scope and identify key components"), vec![])
            } else if k == 1 {
                (string_of("Design solution"), string_of("Plan the architecture and component structure"), vec![])
            } else if k == 2 {
                (string_of("Implement changes"), string_of("Write the actual code changes"), vec![
                    string_of("Read"),
                    string_of("Write"),
                    string_of("Edit"),
                    string_of("Bash"),
                ])
            } else {
                (string_of("Verify & test"), string_of("Run tests and verify the implementation works correctly"), vec![string_of("Bash")])
            }
        },
        PlanKind::Fix => {
            if k == 0 {
                (string_of("Reproduce the issue"), string_of("Understand and reproduce the bug"), vec![])
            } else if k == 1 {
                (string_of("Identify root cause"), string_of("Trace the bug to its source"), vec![
                    string_of("Read"),
                    string_of("Grep"),
                ])
            } else {
                (string_of("Apply fix"), string_of("Implement the fix and verify"), vec![
                    string_of("Edit"),
                    string_of("Bash"),
                ])
            }
        },
        PlanKind::General => {
            if k == 0 {
                (string_of("Research"), string_of("Gather relevant information and context"), vec![
                    string_of("WebSearch"),
                    string_of("Read"),
                ])
            } else if k == 1 {
                (string_of("Execute"), string_of("Perform the requested task"), vec![])
            } else {
                (string_of("Deliver"), string_of("Present results and summary"), vec![])
            }
        },
    };
    assert(seq_view(r.2@) =~= plan_step_specs(kind)[k as int].2);
    r
}

/// Drafts the plan for `content` (see `plan_spec`) with the given step ids,
/// plan id and time: a plan under review whose steps, all pending, follow
/// the kind of request the message makes.
pub fn build_plan(
    conversation_id: &str,
    content: &str,
    user_message_id: &str,
    step_ids: Vec<String>,
    plan_id: String,
    now: i64,
) -> (p: Plan)
    requires
        step_ids.len() == plan_step_specs(plan_kind_of(content@)).len(),
        title_cut_ok(content@),
    ensures
        p.view() == plan_spec(
            conversation_id@,
            content@,
            user_message_id@,
            seq_view(step_ids@),
            plan_id@,
            now,
        ),
{
    let kind = classify_plan_request(content);
    let n = plan_step_count(kind);
    let ghost specs = plan_step_specs(kind);
    let ghost ids = seq_view(step_ids@);
    let mut steps: Vec<PlanStep> = Vec::new();
    let mut k: usize = 0;
    while k < n
        invariant
            n == specs.len() == step_ids.len(),
            specs == plan_step_specs(kind),
            ids == seq_view(step_ids@),
            k <= n,
            steps@.map_values(|s: PlanStep| s.view()) == Seq::new(
                k as nat,
                |j: int|
                    StepV {
                        id: ids[j],
                        title: specs[j].0,
                        description: specs[j].1,
                        status: PlanStepStatus::Pending,
                        estimated_tools: Some(specs[j].2),
                        result: None,
                    },
            ),
        decreases n - k,
    {
        let (title, description, tools) = step_template(kind, k);
        let ghost before = steps@;
        let st = PlanStep {
            id: copy_string(&step_ids[k]),
            title,
            description,
            status: PlanStepStatus::Pending,
            estimated_tools: Some(tools),
            result: None,
        };
        steps.push(st);
        assert(steps@.map_values(|s: PlanStep| s.view()) =~= before.map_values(|s: PlanStep| s.view()).push(st.view()));
        k = k + 1;
    }
    Plan {
        id: plan_id,
        conversation_id: string_of(conversation_id),
        user_message_id: string_of(user_message_id),
        title: make_plan_title(content),
        steps,
        status: PlanStatus::Reviewing,
        is_active: true,
        created_under_strategy: Some(string_of("plan")),
        created_at: now,
        updated_at: now,
    }
}

/// Drafts a plan for a user's message, with fresh random ids and the
/// current time (see `build_plan`).
pub fn generate_plan_from_input(conversation_id: &str, content: &str, user_message_id: &str) -> (p: Plan)
    requires
        title_cut_ok(content@),
    ensures
        p.view() == plan_spec(
            conversation_id@,
            content@,
            user_message_id@,
            p.step_id_views(),
            p.id@,
            p.created_at,
        ),
        is_uuid_v4_text(p.id@),
        forall|k: int| 0 <= k < p.steps@.len() ==> is_uuid_v4_text(#[trigger] p.steps@[k].id@),
{
    let now = now_millis();
    let kind = classify_plan_request(content);
    let n = plan_step_count(kind);
    let mut ids: Vec<String> = Vec::new();
    let mut k: usize = 0;
    while k < n
        invariant
            k <= n,
            ids.len() == k,
            forall|j: int| 0 <= j < k ==> is_uuid_v4_text(#[trigger] ids@[j]@),
        decreases n - k,
    {
        ids.push(new_uuid());
        k = k + 1;
    }
    let plan_id = new_uuid();
    let ghost idv = seq_view(ids@);
    let p = build_plan(conversation_id, content, user_message_id, ids, plan_id, now);
    assert(p.view().steps.len() == p.steps@.len());
    assert(p.steps@.len() == idv.len());
    assert(p.step_id_views() =~= idv) by {
        assert forall|j: int| 0 <= j < p.steps@.len() implies p.step_id_views()[j] == idv[j] by {
            assert(p.steps@[j].view() == p.view().steps[j]);
            assert(p.view().steps[j].id == idv[j]);
            assert(p.step_id_views()[j] == p.steps@[j].id@);
        }
    }
    assert forall|j: int| 0 <= j < p.steps@.len() implies is_uuid_v4_text(#[trigger] p.steps@[j].id@) by {
        assert(p.steps@[j].view() == p.view().steps[j]);
        assert(idv[j] == ids@[j]@);
    }
    p
}


proof fn lemma_encode_concat(a: Seq<char>, b: Seq<char>)
    ensures
        encode_utf8(a + b) == encode_utf8(a) + encode_utf8(b),
    decreases a.len(),
{
    if a.len() == 0 {
        assert(a + b =~= b);
        assert(encode_utf8(a) =~= Seq::<u8>::empty());
        assert(Seq::<u8>::empty() + encode_utf8(b) =~= encode_utf8(b));
    } else {
        assert((a + b).drop_first() =~= a.drop_first() + b);
        assert((a + b)[0] == a[0]);
        lemma_encode_concat(a.drop_first(), b);
        assert(encode_utf8(a + b) =~= encode_utf8(a) + encode_utf8(b));
    }
}

/// Law: a plan title never takes more than 63 bytes (60 of the message
/// and "..."), and a message of at most 60 bytes is its own title.
pub proof fn law_plan_title_is_short(content: Seq<char>)
    requires
        title_cut_ok(content),
    ensures
        utf8_len(plan_title(content)) <= 63,
        utf8_len(content) <= 60 ==> plan_title(content) == content,
{
    if utf8_len(content) > 60 {
        let bytes = encode_utf8(content);
        let head = bytes.subrange(0, 60);
        vstd::utf8::encode_utf8_valid_utf8(content);
        vstd::utf8::valid_utf8_split(bytes, 60);
        vstd::utf8::decode_utf8_encode_utf8(head);
        reveal_strlit("...");
        lemma_encode_concat(decode_utf8(head), "..."@);
        assert(encode_utf8("..."@).len() == 3) by {
            reveal_with_fuel(encode_utf8, 4);
            assert("..."@.drop_first().drop_first().drop_first() =~= Seq::<char>::empty());
        }
    }
}

/// Law: a drafted plan is under review and active, was made under the
/// "plan" strategy, is stamped once (created = updated), is titled after
/// the message (see `plan_title`), and has three or four steps, each
/// pending with no result. No premise on the message is needed.
pub proof fn law_plan_fields(
    conversation_id: Seq<char>,
    content: Seq<char>,
    user_message_id: Seq<char>,
    step_ids: Seq<Seq<char>>,
    plan_id: Seq<char>,
    now: i64,
)
    ensures
        ({
            let p = plan_spec(conversation_id, content, user_message_id, step_ids, plan_id, now);
            &&& p.conversation_id == conversation_id
            &&& p.user_message_id == user_message_id
            &&& p.status == PlanStatus::Reviewing
            &&& p.is_active
            &&& p.created_under_strategy == Some("plan"@)
            &&& p.created_at == p.updated_at
            &&& p.title == plan_title(content)
            &&& (p.steps.len() == 3 || p.steps.len() == 4)
            &&& forall|k: int|
                0 <= k < p.steps.len() ==> (#[trigger] p.steps[k]).status == PlanStepStatus::Pending
                    && p.steps[k].result is None
        }),
{
}

// ── commands whose storage is not wired yet ─────────────────────────

/// Looks a plan up. Plans are not stored yet, so there is never one.
pub fn plan_get(request: PlanGetRequest) -> (r: Result<Option<Plan>, String>)
    ensures
        r matches Ok(None),
{
    let _ = request;
    Ok(None)
}

/// Lists the plans of a conversation. Plans are not stored yet, so the
/// list is empty.
pub fn plan_list(request: PlanListRequest) -> (r: Result<Vec<Plan>, String>)
    ensures
        r matches Ok(v) && v@.len() == 0,
{
    let _ = request;
    Ok(Vec::new())
}

/// Edits a step of a stored plan. Plans are not stored yet, so no plan
/// comes back.
pub fn plan_modify_step(request: PlanModifyStepRequest) -> (r: Result<Option<Plan>, String>)
    ensures
        r matches Ok(None),
{
    let _ = request;
    Ok(None)
}

/// The event announcing that a plan ran to its end.
pub fn plan_execute_event(request: PlanExecuteRequest) -> (e: PlanExecutionCompleteEvent)
    ensures
        e.conversation_id@ == request.conversation_id@,
        e.plan_id@ == request.plan_id@,
        e.status@ == "completed"@,
{
    PlanExecutionCompleteEvent {
        conversation_id: request.conversation_id,
        plan_id: request.plan_id,
        status: string_of("completed"),
    }
}

/// The event announcing that a plan was cancelled.
pub fn plan_cancel_event(request: PlanCancelRequest) -> (e: PlanExecutionCompleteEvent)
    ensures
        e.conversation_id@ == request.conversation_id@,
        e.plan_id@ == request.plan_id@,
        e.status@ == "cancelled"@,
{
    PlanExecutionCompleteEvent {
        conversation_id: request.conversation_id,
        plan_id: request.plan_id,
        status: string_of("cancelled"),
    }
}

} // verus!

verus! {

/// Law: the steps of a drafted plan follow the kind of request, step by
/// step. A message asking to implement ("implement" or "实现") gets
/// analyze, design, implement (reading, writing, editing files and
/// running commands), then verify & test (running commands); one asking
/// to fix ("fix", "修复" or "bug") gets reproduce, identify the root cause
/// (reading and searching), then apply the fix (editing and running
/// commands); any other gets research (web search and reading), execute,
/// deliver. The k-th step carries the k-th given step id.
pub proof fn law_plan_steps_follow_request(
    conversation_id: Seq<char>,
    content: Seq<char>,
    user_message_id: Seq<char>,
    step_ids: Seq<Seq<char>>,
    plan_id: Seq<char>,
    now: i64,
)
    ensures
        ({
            let p = plan_spec(conversation_id, content, user_message_id, step_ids, plan_id, now);
            let titles = p.steps.map_values(|s: StepV| s.title);
            let tools = p.steps.map_values(|s: StepV| s.estimated_tools);
            let descs = p.steps.map_values(|s: StepV| s.description);
            let implement = contains_text(content, "implement"@) || contains_text(content, "实现"@);
            let fix = contains_text(content, "fix"@) || contains_text(content, "修复"@) || contains_text(
                content,
                "bug"@,
            );
            &&& forall|k: int| 0 <= k < p.steps.len() ==> (#[trigger] p.steps[k]).id == step_ids[k]
            &&& implement ==> titles == seq![
                "Analyze requirements"@,
                "Design solution"@,
                "Implement changes"@,
                "Verify & test"@,
            ] && descs == seq![
                "Understand the task scope and identify key components"@,
                "Plan the architecture and component structure"@,
                "Write the actual code changes"@,
                "Run tests and verify the implementation works correctly"@,
            ] && tools == seq![
                Some(Seq::<Seq<char>>::empty()),
                Some(Seq::<Seq<char>>::empty()),
                Some(seq!["Read"@, "Write"@, "Edit"@, "Bash"@]),
                Some(seq!["Bash"@]),
            ]
            &&& !implement && fix ==> titles == seq![
                "Reproduce the issue"@,
                "Identify root cause"@,
                "Apply fix"@,
            ] && descs == seq![
                "Understand and reproduce the bug"@,
                "Trace the bug to its source"@,
                "Implement the fix and verify"@,
            ] && tools == seq![
                Some(Seq::<Seq<char>>::empty()),
                Some(seq!["Read"@, "Grep"@]),
                Some(seq!["Edit"@, "Bash"@]),
            ]
            &&& !implement && !fix ==> titles == seq!["Research"@, "Execute"@, "Deliver"@] && descs == seq![
                "Gather relevant information and context"@,
                "Perform the requested task"@,
                "Present results and summary"@,
            ] && tools == seq![
                Some(seq!["WebSearch"@, "Read"@]),
                Some(Seq::<Seq<char>>::empty()),
                Some(Seq::<Seq<char>>::empty()),
            ]
        }),
{
    let p = plan_spec(conversation_id, content, user_message_id, step_ids, plan_id, now);
    let titles = p.steps.map_values(|s: StepV| s.title);
    let tools = p.steps.map_values(|s: StepV| s.estimated_tools);
    let descs = p.steps.map_values(|s: StepV| s.description);
    let implement = contains_text(content, "implement"@) || contains_text(content, "实现"@);
    let fix = contains_text(content, "fix"@) || contains_text(content, "修复"@) || contains_text(content, "bug"@);
    if implement {
        assert(titles =~= seq!["Analyze requirements"@, "Design solution"@, "Implement changes"@, "Verify & test"@]);
        assert(descs =~= seq![
            "Understand the task scope and identify key components"@,
            "Plan the architecture and component structure"@,
            "Write the actual code changes"@,
            "Run tests and verify the implementation works correctly"@,
        ]);
        assert(tools =~= seq![
            Some(Seq::<Seq<char>>::empty()),
            Some(Seq::<Seq<char>>::empty()),
            Some(seq!["Read"@, "Write"@, "Edit"@, "Bash"@]),
            Some(seq!["Bash"@]),
        ]);
    } else if fix {
        assert(titles =~= seq!["Reproduce the issue"@, "Identify root cause"@, "Apply fix"@]);
        assert(descs =~= seq![
            "Understand and reproduce the bug"@,
            "Trace the bug to its source"@,
            "Implement the fix and verify"@,
        ]);
        assert(tools =~= seq![
            Some(Seq::<Seq<char>>::empty()),
            Some(seq!["Read"@, "Grep"@]),
            Some(seq!["Edit"@, "Bash"@]),
        ]);
    } else {
        assert(titles =~= seq!["Research"@, "Execute"@, "Deliver"@]);
        assert(descs =~= seq![
            "Gather relevant information and context"@,
            "Perform the requested task"@,
            "Present results and summary"@,
        ]);
        assert(tools =~= seq![
            Some(seq!["WebSearch"@, "Read"@]),
            Some(Seq::<Seq<char>>::empty()),
            Some(Seq::<Seq<char>>::empty()),
        ]);
    }
}

} // verus!
