//! The tools: what each one asks of the Feishu API and what it answers.

pub mod documents;
pub mod messages;
pub mod tasks;
