use vstd::prelude::*;
use crate::text::{push_decimal, push_str, string_of};
use crate::workflow::{copy_string, WorkflowNode};

verus! {

/// What a stream chunk carries.
#[derive(PartialEq, Eq, Structural, Clone, Copy, Debug)]
pub enum StreamChunkKind {
    TextDelta,
    Progress,
}

/// A piece of an agent's streamed output.
#[derive(Debug)]
pub struct AgentStreamChunk {
    pub agent_id: String,
    pub sub_task_id: String,
    pub kind: StreamChunkKind,
    /// The payload as JSON text.
    pub payload: String,
    pub timestamp: i64,
}

pub struct ChunkV {
    pub agent_id: Seq<char>,
    pub sub_task_id: Seq<char>,
    pub kind: StreamChunkKind,
    pub payload: Seq<char>,
    pub timestamp: i64,
}

impl AgentStreamChunk {
    pub open spec fn view(&self) -> ChunkV {
        ChunkV {
            agent_id: self.agent_id@,
            sub_task_id: self.sub_task_id@,
            kind: self.kind,
            payload: self.payload@,
            timestamp: self.timestamp,
        }
    }

    /// A copy of this chunk.
    pub fn copy(&self) -> (r: AgentStreamChunk)
        ensures
            r.view() == self.view(),
    {
        AgentStreamChunk {
            agent_id: copy_string(&self.agent_id),
            sub_task_id: copy_string(&self.sub_task_id),
            kind: self.kind,
            payload: copy_string(&self.payload),
            timestamp: self.timestamp,
        }
    }
}

/// How many undelivered chunks a subscription holds; when more arrive the
/// oldest are dropped.
pub const STREAM_CAPACITY: usize = 256;

/// `q` with `c` appended, dropping the oldest chunk when `q` is full.
pub open spec fn bounded_push(q: Seq<ChunkV>, c: ChunkV) -> Seq<ChunkV> {
    if q.len() >= STREAM_CAPACITY {
        q.drop_first().push(c)
    } else {
        q.push(c)
    }
}

/// Routes streamed chunks to the subscribers of the agent that produced
/// them and, when it is bound to the application, marks each chunk for
/// emission as an application event too.
pub struct TauriEventStreamReporter {
    emits_events: bool,
    agents: Vec<String>,
    queues: Vec<Vec<AgentStreamChunk>>,
}

pub open spec fn chunks_view(q: Seq<AgentStreamChunk>) -> Seq<ChunkV> {
    q.map_values(|c: AgentStreamChunk| c.view())
}

fn copy_chunks(q: &Vec<AgentStreamChunk>, from: usize) -> (r: Vec<AgentStreamChunk>)
    requires
        from <= q.len(),
    ensures
        chunks_view(r@) == chunks_view(q@).skip(from as int),
{
    let mut r: Vec<AgentStreamChunk> = Vec::new();
    let mut i = from;
    while i < q.len()
        invariant
            from <= i <= q.len(),
            chunks_view(r@) == chunks_view(q@).subrange(from as int, i as int),
        decreases q.len() - i,
    {
        let ghost before = r@;
        r.push(q[i].copy());
        assert(chunks_view(r@) =~= chunks_view(before).push(q@[i as int].view()));
        i = i + 1;
        assert(chunks_view(r@) =~= chunks_view(q@).subrange(from as int, i as int));
    }
    assert(chunks_view(q@).subrange(from as int, q.len() as int) =~= chunks_view(q@).skip(from as int));
    r
}

impl TauriEventStreamReporter {
    #[verifier::type_invariant]
    spec fn inv(self) -> bool {
        self.agents.len() == self.queues.len()
    }

    /// Whether reported chunks are also emitted as application events.
    pub closed spec fn emits_events(&self) -> bool {
        self.emits_events
    }

    /// The agent each subscription listens to, by subscription number.
    pub closed spec fn agents(&self) -> Seq<Seq<char>> {
        self.agents@.map_values(|a: String| a@)
    }

    /// The chunks waiting in each subscription, oldest first.
    pub closed spec fn queues(&self) -> Seq<Seq<ChunkV>> {
        self.queues@.map_values(|q: Vec<AgentStreamChunk>| chunks_view(q@))
    }

    /// A reporter with no subscriptions that does not emit events.
    pub fn new() -> (r: Self)
        ensures
            !r.emits_events(),
            r.agents().len() == 0,
            r.queues().len() == 0,
    {
        let r = TauriEventStreamReporter { emits_events: false, agents: Vec::new(), queues: Vec::new() };
        assert(r.agents() =~= Seq::<Seq<char>>::empty());
        assert(r.queues() =~= Seq::<Seq<ChunkV>>::empty());
        r
    }

    /// A reporter with no subscriptions that also emits every chunk as an
    /// application event.
    pub fn with_event_emission() -> (r: Self)
        ensures
            r.emits_events(),
            r.agents().len() == 0,
            r.queues().len() == 0,
    {
        let r = TauriEventStreamReporter { emits_events: true, agents: Vec::new(), queues: Vec::new() };
        assert(r.agents() =~= Seq::<Seq<char>>::empty());
        assert(r.queues() =~= Seq::<Seq<ChunkV>>::empty());
        r
    }

    /// Name of the application event each chunk is emitted as.
    pub const EVENT_NAME: &'static str = "orchestrator://stream-chunk";

    /// Subscribes to the chunks of `agent_id` reported from now on; returns
    /// the subscription's number.
    pub fn subscribe(&mut self, agent_id: &str) -> (id: usize)
        ensures
            final(self).emits_events() == old(self).emits_events(),
            final(self).agents() == old(self).agents().push(agent_id@),
            final(self).queues() == old(self).queues().push(Seq::<ChunkV>::empty()),
            final(self).agents().len() == final(self).queues().len(),
            id == old(self).agents().len(),
    {
        proof {
            use_type_invariant(&*self);
        }
        let id = self.agents.len();
        let ghost old_agents = self.agents@;
        let ghost old_queues = self.queues@;
        let mut agents = copy_agent_list(&self.agents);
        agents.push(string_of(agent_id));
        let mut queues = copy_queue_list(&self.queues);
        let empty_q: Vec<AgentStreamChunk> = Vec::new();
        assert(chunks_view(empty_q@) =~= Seq::<ChunkV>::empty());
        queues.push(empty_q);
        let ghost na = agents@;
        let ghost nq = queues@;
        *self = TauriEventStreamReporter { emits_events: self.emits_events, agents, queues };
        assert(self.agents() =~= old_agents.map_values(|a: String| a@).push(agent_id@));
        assert(self.queues() =~= old_queues.map_values(
            |q: Vec<AgentStreamChunk>| chunks_view(q@),
        ).push(Seq::<ChunkV>::empty()));
        id
    }
}

impl TauriEventStreamReporter {
    /// The queues after `c` is delivered to every subscription of its agent.
    pub open spec fn routed(agents: Seq<Seq<char>>, queues: Seq<Seq<ChunkV>>, c: ChunkV) -> Seq<Seq<ChunkV>> {
        Seq::new(
            queues.len(),
            |i: int|
                if agents[i] == c.agent_id {
                    bounded_push(queues[i], c)
                } else {
                    queues[i]
                },
        )
    }

    /// Delivers `chunk` to every subscription of its agent (a full
    /// subscription drops its oldest chunk) and hands the chunk back when
    /// it is to be emitted as an application event too.
    pub fn report_chunk(&mut self, chunk: AgentStreamChunk) -> (emit: Option<AgentStreamChunk>)
        ensures
            final(self).emits_events() == old(self).emits_events(),
            final(self).agents() == old(self).agents(),
            final(self).queues() == Self::routed(old(self).agents(), old(self).queues(), chunk.view()),
            final(self).agents().len() == final(self).queues().len(),
            match emit {
                Some(c) => old(self).emits_events() && c.view() == chunk.view(),
                None => !old(self).emits_events(),
            },
    {
        proof {
            use_type_invariant(&*self);
        }
        let ghost ag = self.agents();
        let ghost qs = self.queues();
        let n = self.queues.len();
        let mut nq: Vec<Vec<AgentStreamChunk>> = Vec::new();
        let mut i: usize = 0;
        while i < n
            invariant
                n == self.queues.len() == self.agents.len(),
                ag == self.agents(),
                qs == self.queues(),
                i <= n,
                nq.len() == i,
                nq@.map_values(|q: Vec<AgentStreamChunk>| chunks_view(q@)) == Self::routed(ag, qs, chunk.view()).take(i as int),
            decreases n - i,
        {
            let ghost before = nq@;
            assert(qs[i as int] == chunks_view(self.queues@[i as int]@));
            assert(ag[i as int] == self.agents@[i as int]@);
            let q = if self.agents[i] == chunk.agent_id {
                let full = self.queues[i].len() >= STREAM_CAPACITY;
                let mut q = if full {
                    copy_chunks(&self.queues[i], 1)
                } else {
                    copy_chunks(&self.queues[i], 0)
                };
                q.push(chunk.copy());
                proof {
                    assert(chunks_view(self.queues@[i as int]@).skip(0) =~= chunks_view(self.queues@[i as int]@));
                    assert(chunks_view(self.queues@[i as int]@).skip(1) =~= chunks_view(self.queues@[i as int]@).drop_first());
                    assert(chunks_view(q@) =~= bounded_push(qs[i as int], chunk.view()));
                }
                q
            } else {
                let q = copy_chunks(&self.queues[i], 0);
                assert(chunks_view(self.queues@[i as int]@).skip(0) =~= chunks_view(self.queues@[i as int]@));
                q
            };
            nq.push(q);
            assert(nq@.map_values(|q: Vec<AgentStreamChunk>| chunks_view(q@)) =~= Self::routed(ag, qs, chunk.view()).take(i + 1));
            i = i + 1;
        }
        assert(Self::routed(ag, qs, chunk.view()).take(n as int) =~= Self::routed(ag, qs, chunk.view()));
        let agents = copy_agent_list(&self.agents);
        *self = TauriEventStreamReporter { emits_events: self.emits_events, agents, queues: nq };
        if self.emits_events {
            Some(chunk)
        } else {
            None
        }
    }

    /// Takes the oldest chunk waiting in subscription `id`, if any.
    pub fn recv(&mut self, id: usize) -> (r: Option<AgentStreamChunk>)
        requires
            id < old(self).queues().len(),
        ensures
            final(self).emits_events() == old(self).emits_events(),
            final(self).agents() == old(self).agents(),
            final(self).agents().len() == final(self).queues().len(),
            old(self).queues()[id as int].len() == 0 ==> r is None && final(self).queues() == old(self).queues(),
            old(self).queues()[id as int].len() > 0 ==> r is Some && r->0.view() == old(self).queues()[id as int][0]
                && final(self).queues() == old(self).queues().update(id as int, old(self).queues()[id as int].drop_first()),
    {
        proof {
            use_type_invariant(&*self);
        }
        if self.queues[id].len() == 0 {
            return None;
        }
        let ghost qs = self.queues();
        let first = self.queues[id][0].copy();
        let n = self.queues.len();
        let mut nq: Vec<Vec<AgentStreamChunk>> = Vec::new();
        let mut i: usize = 0;
        let ghost want = qs.update(id as int, qs[id as int].drop_first());
        while i < n
            invariant
                n == self.queues.len() == self.agents.len(),
                qs == self.queues(),
                id < n,
                self.queues@[id as int].len() > 0,
                want == qs.update(id as int, qs[id as int].drop_first()),
                i <= n,
                nq.len() == i,
                nq@.map_values(|q: Vec<AgentStreamChunk>| chunks_view(q@)) == want.take(i as int),
            decreases n - i,
        {
            assert(qs[i as int] == chunks_view(self.queues@[i as int]@));
            let from: usize = if i == id { 1 } else { 0 };
            let q = copy_chunks(&self.queues[i], from);
            proof {
                assert(chunks_view(self.queues@[i as int]@).skip(0) =~= chunks_view(self.queues@[i as int]@));
                assert(chunks_view(self.queues@[i as int]@).skip(1) =~= chunks_view(self.queues@[i as int]@).drop_first());
            }
            nq.push(q);
            assert(nq@.map_values(|q: Vec<AgentStreamChunk>| chunks_view(q@)) =~= want.take(i + 1));
            i = i + 1;
        }
        assert(want.take(n as int) =~= want);
        let agents = copy_agent_list(&self.agents);
        *self = TauriEventStreamReporter { emits_events: self.emits_events, agents, queues: nq };
        Some(first)
    }
}

impl Default for TauriEventStreamReporter {
    /// The same as `new`.
    fn default() -> (r: Self)
        ensures
            !r.emits_events(),
            r.agents().len() == 0,
            r.queues().len() == 0,
    {
        Self::new()
    }
}

fn copy_agent_list(v: &Vec<String>) -> (r: Vec<String>)
    ensures
        r.len() == v.len(),
        r@.map_values(|a: String| a@) == v@.map_values(|a: String| a@),
{
    let mut r: Vec<String> = Vec::new();
    let mut i: usize = 0;
    while i < v.len()
        invariant
            i <= v.len(),
            r@.map_values(|a: String| a@) == v@.take(i as int).map_values(|a: String| a@),
            r.len() == i,
        decreases v.len() - i,
    {
        let ghost before = r@;
        r.push(copy_string(&v[i]));
        assert(r@.map_values(|a: String| a@) =~= before.map_values(|a: String| a@).push(v@[i as int]@));
        assert(v@.take(i + 1).map_values(|a: String| a@) =~= v@.take(i as int).map_values(|a: String| a@).push(v@[i as int]@));
        i = i + 1;
    }
    assert(v@.take(v.len() as int) =~= v@);
    r
}

fn copy_queue_list(v: &Vec<Vec<AgentStreamChunk>>) -> (r: Vec<Vec<AgentStreamChunk>>)
    ensures
        r.len() == v.len(),
        r@.map_values(|q: Vec<AgentStreamChunk>| chunks_view(q@)) == v@.map_values(
            |q: Vec<AgentStreamChunk>| chunks_view(q@),
        ),
{
    let mut r: Vec<Vec<AgentStreamChunk>> = Vec::new();
    let mut i: usize = 0;
    while i < v.len()
        invariant
            i <= v.len(),
            r@.map_values(|q: Vec<AgentStreamChunk>| chunks_view(q@)) == v@.take(i as int).map_values(
                |q: Vec<AgentStreamChunk>| chunks_view(q@),
            ),
            r.len() == i,
        decreases v.len() - i,
    {
        let q = copy_chunks(&v[i], 0);
        assert(chunks_view(v@[i as int]@).skip(0) =~= chunks_view(v@[i as int]@));
        let ghost before = r@;
        r.push(q);
        assert(r@.map_values(|q: Vec<AgentStreamChunk>| chunks_view(q@)) =~= before.map_values(
            |q: Vec<AgentStreamChunk>| chunks_view(q@),
        ).push(chunks_view(v@[i as int]@)));
        assert(v@.take(i + 1).map_values(|q: Vec<AgentStreamChunk>| chunks_view(q@)) =~= v@.take(i as int).map_values(
            |q: Vec<AgentStreamChunk>| chunks_view(q@),
        ).push(chunks_view(v@[i as int]@)));
        i = i + 1;
    }
    assert(v@.take(v.len() as int) =~= v@);
    r
}

} // verus!

verus! {

/// The queue of a subscription to `agent` holding `q`, after the chunks
/// `cs` are reported in order.
pub open spec fn after_reports(agent: Seq<char>, q: Seq<ChunkV>, cs: Seq<ChunkV>) -> Seq<ChunkV>
    decreases cs.len(),
{
    if cs.len() == 0 {
        q
    } else {
        let p = after_reports(agent, q, cs.drop_last());
        if cs.last().agent_id == agent {
            bounded_push(p, cs.last())
        } else {
            p
        }
    }
}

/// The last `n` elements of `s` (all of it when it is shorter).
pub open spec fn last_n(s: Seq<ChunkV>, n: nat) -> Seq<ChunkV> {
    if s.len() <= n {
        s
    } else {
        s.skip(s.len() - n)
    }
}

/// One report moves each subscription's queue as `after_reports` does.
pub proof fn lemma_routed_is_one_report(agents: Seq<Seq<char>>, queues: Seq<Seq<ChunkV>>, c: ChunkV, i: int)
    requires
        0 <= i < queues.len(),
    ensures
        TauriEventStreamReporter::routed(agents, queues, c)[i] == after_reports(agents[i], queues[i], seq![c]),
{
    assert(seq![c].drop_last() =~= Seq::<ChunkV>::empty());
    assert(after_reports(agents[i], queues[i], Seq::<ChunkV>::empty()) == queues[i]);
    assert(seq![c].last() == c);
}

/// Law: a subscription receives exactly the chunks reported for its agent
/// after it subscribed, oldest first; when it falls behind it keeps the
/// most recent `STREAM_CAPACITY` of them. Chunks of other agents never
/// reach it.
pub proof fn law_subscription_sees_its_agent(agent: Seq<char>, cs: Seq<ChunkV>)
    ensures
        after_reports(agent, seq![], cs) == last_n(
            cs.filter(|c: ChunkV| c.agent_id == agent),
            STREAM_CAPACITY as nat,
        ),
    decreases cs.len(),
{
    let pred = |c: ChunkV| c.agent_id == agent;
    if cs.len() == 0 {
        assert(cs.filter(pred) =~= Seq::<ChunkV>::empty()) by {
            reveal_with_fuel(Seq::<_>::filter, 1);
        }
    } else {
        law_subscription_sees_its_agent(agent, cs.drop_last());
        let f0 = cs.drop_last().filter(pred);
        assert(cs.filter(pred) == if pred(cs.last()) {
            f0.push(cs.last())
        } else {
            f0
        }) by {
            reveal_with_fuel(Seq::<_>::filter, 1);
        }
        if pred(cs.last()) {
            let c = cs.last();
            let cap = STREAM_CAPACITY as int;
            if f0.len() < cap {
                assert(last_n(f0, cap as nat) == f0);
            } else {
                let l0 = last_n(f0, cap as nat);
                if f0.len() == cap {
                    assert(l0 == f0);
                }
                assert(l0.len() == cap);
                assert(l0.drop_first().push(c) =~= f0.push(c).skip(f0.len() + 1 - cap));
            }
        }
    }
}

} // verus!

verus! {

/// How the sub-tasks of a mission are run.
#[derive(PartialEq, Eq, Structural, Clone, Copy, Debug)]
pub enum OrchestrationStrategy {
    Ordered,
    FanOut,
    Pipeline,
    Race,
    Debate,
    Dynamic,
}

pub open spec fn strategy_from_name(name: Option<Seq<char>>) -> OrchestrationStrategy {
    match name {
        Some(n) => if n == "fan_out"@ {
            OrchestrationStrategy::FanOut
        } else if n == "pipeline"@ {
            OrchestrationStrategy::Pipeline
        } else if n == "race"@ {
            OrchestrationStrategy::Race
        } else if n == "debate"@ {
            OrchestrationStrategy::Debate
        } else if n == "dynamic"@ {
            OrchestrationStrategy::Dynamic
        } else {
            OrchestrationStrategy::Ordered
        },
        None => OrchestrationStrategy::Ordered,
    }
}

/// The strategy a request names; anything unrecognised (or nothing) is
/// `Ordered`.
pub fn parse_strategy(name: Option<&str>) -> (s: OrchestrationStrategy)
    ensures
        s == strategy_from_name(match name {
            Some(n) => Some(n@),
            None => None,
        }),
{
    match name {
        Some(n) => if crate::text::str_eq(n, "fan_out") {
            OrchestrationStrategy::FanOut
        } else if crate::text::str_eq(n, "pipeline") {
            OrchestrationStrategy::Pipeline
        } else if crate::text::str_eq(n, "race") {
            OrchestrationStrategy::Race
        } else if crate::text::str_eq(n, "debate") {
            OrchestrationStrategy::Debate
        } else if crate::text::str_eq(n, "dynamic") {
            OrchestrationStrategy::Dynamic
        } else {
            OrchestrationStrategy::Ordered
        },
        None => OrchestrationStrategy::Ordered,
    }
}

pub open spec fn strategy_name(s: OrchestrationStrategy) -> Seq<char> {
    match s {
        OrchestrationStrategy::Ordered => "ordered"@,
        OrchestrationStrategy::FanOut => "fan_out"@,
        OrchestrationStrategy::Pipeline => "pipeline"@,
        OrchestrationStrategy::Race => "race"@,
        OrchestrationStrategy::Debate => "debate"@,
        OrchestrationStrategy::Dynamic => "dynamic"@,
    }
}

/// The name of a strategy.
pub fn strategy_label(s: OrchestrationStrategy) -> (r: String)
    ensures
        r@ == strategy_name(s),
{
    match s {
        OrchestrationStrategy::Ordered => string_of("ordered"),
        OrchestrationStrategy::FanOut => string_of("fan_out"),
        OrchestrationStrategy::Pipeline => string_of("pipeline"),
        OrchestrationStrategy::Race => string_of("race"),
        OrchestrationStrategy::Debate => string_of("debate"),
        OrchestrationStrategy::Dynamic => string_of("dynamic"),
    }
}

/// Law: each strategy is named after its variant in snake case, and a
/// request naming a strategy gets that strategy; no name (or an unknown
/// one, see `parse_strategy`) gets `Ordered`.
pub proof fn law_strategy_names(s: OrchestrationStrategy)
    ensures
        strategy_name(s) == match s {
            OrchestrationStrategy::Ordered => "ordered"@,
            OrchestrationStrategy::FanOut => "fan_out"@,
            OrchestrationStrategy::Pipeline => "pipeline"@,
            OrchestrationStrategy::Race => "race"@,
            OrchestrationStrategy::Debate => "debate"@,
            OrchestrationStrategy::Dynamic => "dynamic"@,
        },
        strategy_from_name(Some(strategy_name(s))) == s,
        strategy_from_name(None) == OrchestrationStrategy::Ordered,
{
    law_strategy_name_roundtrip(s);
}

/// Law: every named strategy is read back from its own name.
pub proof fn law_strategy_name_roundtrip(s: OrchestrationStrategy)
    ensures
        strategy_from_name(Some(strategy_name(s))) == s,
{
    reveal_strlit("ordered");
    reveal_strlit("fan_out");
    reveal_strlit("pipeline");
    reveal_strlit("race");
    reveal_strlit("debate");
    reveal_strlit("dynamic");
    match s {
        OrchestrationStrategy::Ordered => {
            assert("ordered"@[0] != "fan_out"@[0]);
            assert("ordered"@.len() != "pipeline"@.len());
            assert("ordered"@.len() != "race"@.len());
            assert("ordered"@.len() != "debate"@.len());
            assert("ordered"@[0] != "dynamic"@[0]);
        },
        OrchestrationStrategy::FanOut => {
            assert("fan_out"@.len() != "pipeline"@.len());
            assert("fan_out"@.len() != "race"@.len());
            assert("fan_out"@.len() != "debate"@.len());
            assert("fan_out"@[0] != "dynamic"@[0]);
        },
        OrchestrationStrategy::Pipeline => {
            assert("pipeline"@.len() != "fan_out"@.len());
            assert("pipeline"@.len() != "race"@.len());
            assert("pipeline"@.len() != "debate"@.len());
            assert("pipeline"@.len() != "dynamic"@.len());
        },
        OrchestrationStrategy::Race => {
            assert("race"@.len() != "fan_out"@.len());
            assert("race"@.len() != "pipeline"@.len());
            assert("race"@.len() != "debate"@.len());
            assert("race"@.len() != "dynamic"@.len());
        },
        OrchestrationStrategy::Debate => {
            assert("debate"@.len() != "fan_out"@.len());
            assert("debate"@.len() != "pipeline"@.len());
            assert("debate"@.len() != "race"@.len());
            assert("debate"@.len() != "dynamic"@.len());
        },
        OrchestrationStrategy::Dynamic => {
            assert("dynamic"@[0] != "fan_out"@[0]);
            assert("dynamic"@.len() != "pipeline"@.len());
            assert("dynamic"@.len() != "race"@.len());
            assert("dynamic"@.len() != "debate"@.len());
        },
    }
}

/// The explanation returned with a decomposed mission.
pub open spec fn explanation_text(mission: Seq<char>, count: nat, s: OrchestrationStrategy) -> Seq<char> {
    "已将使命「"@ + mission + "」分解为 "@ + crate::text::decimal(count) + " 个子任务，策略："@
        + strategy_name(s)
}

/// Explains a decomposition: the mission, how many sub-tasks it became and
/// the strategy.
pub fn mission_explanation(mission: &str, sub_task_count: u64, s: OrchestrationStrategy) -> (r: String)
    ensures
        r@ == explanation_text(mission@, sub_task_count as nat, s),
{
    let mut r = string_of("已将使命「");
    push_str(&mut r, mission);
    push_str(&mut r, "」分解为 ");
    push_decimal(&mut r, sub_task_count);
    push_str(&mut r, " 个子任务，策略：");
    let name = strategy_label(s);
    push_str(&mut r, name.as_str());
    r
}

/// The result of decomposing a mission: the sub-task nodes and an
/// explanation.
#[derive(Debug)]
pub struct OrchestrateResult {
    pub nodes: Vec<WorkflowNode>,
    pub explanation: String,
}

/// The reporter installed at startup: it emits every chunk as an
/// application event as well.
pub fn create_stream_reporter() -> (r: TauriEventStreamReporter)
    ensures
        r.emits_events(),
        r.agents().len() == 0,
        r.queues().len() == 0,
{
    TauriEventStreamReporter::with_event_emission()
}

} // verus!
