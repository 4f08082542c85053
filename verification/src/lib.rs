//! Knowledge state and incremental compilation engine for a project's
//! working memory: the durable data model, the checkpointed transcript
//! ingestion protocol, and the session-isolated working-set pipeline.

pub mod compile;
pub mod engine;
pub mod error;
pub mod extract;
pub mod init;
pub mod json;
pub mod oracle;
pub mod show;
pub mod state;
pub mod text;
pub mod transcript;
pub mod types;
