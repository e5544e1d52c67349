//! Orchestration core of a retrieval-augmented question-answering service:
//! messages and conversations, the conversation store, the name-keyed
//! component registry and the bookkeeping of document synchronization.
pub mod agent;
pub mod app;
pub mod conversation;
pub mod conversation_store;
pub mod document;
pub mod document_store;
pub mod integration;
pub mod llm;
pub mod message;
pub mod registry;
pub mod synchronization;
pub mod turn;
