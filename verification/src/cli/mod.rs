//! The components of the tool.

pub mod ai_configer;
pub mod changes;
pub mod command;
pub mod commit;
pub mod custom_param;
pub mod entry;
pub mod http;
pub mod outcome;
pub mod pipeline;
pub mod pipeline_laws;
pub mod prompt;
pub mod update;
pub mod verbose;
