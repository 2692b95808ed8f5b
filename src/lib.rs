//! A text-to-text conversation stage: each incoming chunk of text becomes a
//! user turn of a chat conversation, a chat-completion request is queued for a
//! single background worker, and the assistant's reply is emitted later as a
//! line of text.

pub mod config;
pub mod conversation;
pub mod dispatcher;
pub mod filter;
pub mod message;
pub mod request;
pub mod response;

pub use message::{Message, MessageView, Role};
pub use conversation::{ConversationState, PERSONA};
pub use request::CompletionRequest;
pub use response::{Choice, CompletionResponse};
pub use dispatcher::{Dispatcher, Job};
pub use config::{Config, ConfigurationError, DEFAULT_ENDPOINT};
pub use filter::{
    decide_reply, CallOutcome, EmissionSignal, OpenaiChatFilter, StageError, TaskError, DEFAULT_MODEL,
};
