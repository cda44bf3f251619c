# opc_commands

The decision logic behind the OPC ("one-person company") commands of the
desktop agent, written in Verus and proved against its contracts.

## Layout

- `src/` — the verified library.
  - `industry_pack.rs` — industry/domain packs: a pack workflow becomes a
    workflow template (nodes, chained edges, approval branches, the
    `{name}` variables of its prompts, its declared failure policy); seeding
    decisions, registry rows, `.opcip` archive checks, the config sync
    decision; laws on edges, approvals, seeding, cleanup, sync and import.
  - `domain_seed.rs` — building blocks of hand-built domain templates.
  - `domain_templates/` — the hand-built workflows of each domain, each
    stated node by node.
  - `demand_template.rs` — the demand-discovery template (six analyst
    pairs in a parallel container, the CEO decision, a notification).
  - `workflow.rs` — the workflow template model and its views; the scan
    of prompts for template variables.
  - `plan.rs` — heuristic plan drafting and the plan commands.
  - `orchestrator.rs` — stream routing to subscribers, strategies,
    mission explanations.
  - `personality.rs` — fenced code block parsing, style samples, naming
    and indentation choices, profile updates, persona records.
  - `reminder.rs`, `reco_cron.rs`, `retrieval.rs`, `platform.rs`,
    `plugin.rs`, `pty.rs`, `quickbar.rs`, `domain_workflows.rs`,
    `opc_setup.rs` — validation, ids, texts and tables of the other
    commands.
  - `text.rs`, `clock.rs` — string helpers with specifications; the
    clock, random ids and RFC 3339 parsing behind trusted wrappers.
- `tests/` — tests of the library on concrete values.
- `app/` — the I/O around it: serde forms of the types, pack files and
  archives on disk, the config sync, the seeding passes over a template
  store, the shared stream reporter, and the floating-point style scores.
