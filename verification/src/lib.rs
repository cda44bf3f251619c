//! Command-layer logic of the OPC workspace: workflow construction from
//! industry packs, plan heuristics, style learning helpers, reminder and
//! cron validation, and the stream routing used by the orchestrator.

pub mod text;
pub mod personality;
pub mod workflow;
pub mod clock;
pub mod industry_pack;
pub mod plan;
pub mod orchestrator;
pub mod domain_workflows;
pub mod domain_seed;
pub mod domain_templates;
pub mod reminder;
pub mod retrieval;
pub mod reco_cron;
pub mod pty;
pub mod plugin;
pub mod platform;
pub mod quickbar;
pub mod opc_setup;
pub mod demand_template;
