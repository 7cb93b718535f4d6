//! A conversational relay: which inbound chat events deserve an answer, what
//! is asked of the generation backend, what is remembered of each
//! conversation, and how an answer is cut up for delivery.

pub mod chunk;
pub mod classify;
pub mod commands;
pub mod dispatch;
pub mod event;
pub mod history;
pub mod prompt;
pub mod summarize;
pub mod text;
