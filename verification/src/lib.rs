//! Verified core of an LLM agent host: chat logs kept within a token
//! budget, prompts for local models, streamed replies, the decisions an
//! agent makes between model and script, session bookkeeping, login tokens
//! and the small text formats the host reads and writes.

pub mod text;
pub mod messages;
pub mod json;
pub mod chatlog;
pub mod llamacppchat;
pub mod openai_chat;
pub mod api;
pub mod jwt_util;
pub mod agent;
pub mod agentmgr;
pub mod scripts;
pub mod errors;
pub mod ex;
pub mod cat;
pub mod axumtest;
pub mod connector;
