//! Routing of inbound chat messages to per-conversation AI responders:
//! trigger detection, the command grammar, the per-conversation actor's
//! decisions, the queue lifecycle and the orchestrator's bookkeeping.

pub mod ai_clients;
pub mod bluebubbles;
pub mod chat_agent;
pub mod clock;
pub mod commands;
pub mod config;
pub mod database;
pub mod dedupe;
pub mod orchestrator;
pub mod registry;
pub mod text;
pub mod types;
