use opc_commands::orchestrator::{
    create_stream_reporter, mission_explanation, parse_strategy, strategy_label, AgentStreamChunk,
    OrchestrationStrategy, StreamChunkKind, TauriEventStreamReporter, STREAM_CAPACITY,
};

fn chunk(agent: &str, task: &str, kind: StreamChunkKind, payload: &str) -> AgentStreamChunk {
    AgentStreamChunk {
        agent_id: agent.to_string(),
        sub_task_id: task.to_string(),
        kind,
        payload: payload.to_string(),
        timestamp: 1700000000,
    }
}

#[test]
fn test_reporter_new() {
    let mut reporter = TauriEventStreamReporter::new();
    let c = chunk("agent-1", "task-1", StreamChunkKind::TextDelta, "{\"text\":\"hello\"}");
    let emitted = reporter.report_chunk(c);
    assert!(emitted.is_none());
}

#[test]
fn test_subscribe_and_receive() {
    let mut reporter = TauriEventStreamReporter::new();
    let rx = reporter.subscribe("agent-1");
    let c = chunk("agent-1", "task-1", StreamChunkKind::Progress, "{\"percent\":50}");
    reporter.report_chunk(c.copy());
    let received = reporter.recv(rx).expect("应收到 chunk");
    assert_eq!(received.agent_id, "agent-1");
    assert_eq!(received.sub_task_id, "task-1");
}

#[test]
fn test_subscribe_no_agent() {
    let mut reporter = TauriEventStreamReporter::new();
    let rx = reporter.subscribe("agent-x");
    let c = chunk("agent-other", "task-1", StreamChunkKind::TextDelta, "{\"text\":\"hello\"}");
    reporter.report_chunk(c);
    assert!(reporter.recv(rx).is_none(), "不应收到其他 agent 的 chunk");
}

#[test]
fn chunks_arrive_in_order_for_every_subscriber() {
    let mut reporter = TauriEventStreamReporter::default();
    let a = reporter.subscribe("agent-1");
    let b = reporter.subscribe("agent-1");
    let other = reporter.subscribe("agent-2");
    reporter.report_chunk(chunk("agent-1", "t1", StreamChunkKind::TextDelta, "1"));
    reporter.report_chunk(chunk("agent-2", "t2", StreamChunkKind::TextDelta, "2"));
    reporter.report_chunk(chunk("agent-1", "t3", StreamChunkKind::Progress, "3"));
    for sub in [a, b] {
        assert_eq!(reporter.recv(sub).unwrap().sub_task_id, "t1");
        let second = reporter.recv(sub).unwrap();
        assert_eq!(second.sub_task_id, "t3");
        assert_eq!(second.kind, StreamChunkKind::Progress);
        assert_eq!(second.payload, "3");
        assert!(reporter.recv(sub).is_none());
    }
    assert_eq!(reporter.recv(other).unwrap().sub_task_id, "t2");
    assert!(reporter.recv(other).is_none());
}

#[test]
fn late_subscriber_misses_earlier_chunks() {
    let mut reporter = TauriEventStreamReporter::new();
    reporter.report_chunk(chunk("agent-1", "early", StreamChunkKind::TextDelta, ""));
    let rx = reporter.subscribe("agent-1");
    assert!(reporter.recv(rx).is_none());
    reporter.report_chunk(chunk("agent-1", "late", StreamChunkKind::TextDelta, ""));
    assert_eq!(reporter.recv(rx).unwrap().sub_task_id, "late");
}

#[test]
fn slow_subscriber_keeps_most_recent_chunks() {
    let mut reporter = TauriEventStreamReporter::new();
    let rx = reporter.subscribe("agent-1");
    let total = STREAM_CAPACITY + 4;
    for i in 0..total {
        reporter.report_chunk(chunk("agent-1", &format!("t{i}"), StreamChunkKind::TextDelta, ""));
    }
    let mut got: Vec<String> = Vec::new();
    while let Some(c) = reporter.recv(rx) {
        got.push(c.sub_task_id);
    }
    assert_eq!(got.len(), STREAM_CAPACITY);
    assert_eq!(got[0], "t4");
    assert_eq!(got[got.len() - 1], format!("t{}", total - 1));
}

#[test]
fn bound_reporter_hands_chunks_back_for_emission() {
    let mut reporter = create_stream_reporter();
    let c = chunk("agent-1", "task-1", StreamChunkKind::TextDelta, "x");
    let emitted = reporter.report_chunk(c).expect("emitted");
    assert_eq!(emitted.agent_id, "agent-1");
    assert_eq!(emitted.payload, "x");
    assert_eq!(TauriEventStreamReporter::EVENT_NAME, "orchestrator://stream-chunk");
}

#[test]
fn strategy_names() {
    assert_eq!(parse_strategy(Some("fan_out")), OrchestrationStrategy::FanOut);
    assert_eq!(parse_strategy(Some("pipeline")), OrchestrationStrategy::Pipeline);
    assert_eq!(parse_strategy(Some("race")), OrchestrationStrategy::Race);
    assert_eq!(parse_strategy(Some("debate")), OrchestrationStrategy::Debate);
    assert_eq!(parse_strategy(Some("dynamic")), OrchestrationStrategy::Dynamic);
    assert_eq!(parse_strategy(Some("whatever")), OrchestrationStrategy::Ordered);
    assert_eq!(parse_strategy(None), OrchestrationStrategy::Ordered);
    for s in [
        OrchestrationStrategy::Ordered,
        OrchestrationStrategy::FanOut,
        OrchestrationStrategy::Pipeline,
        OrchestrationStrategy::Race,
        OrchestrationStrategy::Debate,
        OrchestrationStrategy::Dynamic,
    ] {
        let name = strategy_label(s);
        assert_eq!(parse_strategy(Some(name.as_str())), s);
    }
}

#[test]
fn mission_explanation_text() {
    assert_eq!(
        mission_explanation("写一篇博客", 3, OrchestrationStrategy::Pipeline),
        "已将使命「写一篇博客」分解为 3 个子任务，策略：pipeline"
    );
    assert_eq!(
        mission_explanation("m", 0, OrchestrationStrategy::Ordered),
        "已将使命「m」分解为 0 个子任务，策略：ordered"
    );
}
