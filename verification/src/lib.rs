//! # motosan-agent-primitives
//!
//! Contract layer of the Motosan agent framework: shared data types and
//! abstract middleware traits that every other crate in the family agrees on,
//! with their wire format.
//!
//! This crate is the leaf of the dependency graph: it has no agent loop, no
//! LLM client, no sandbox, no provider SDKs.
//!
//! ## What lives here
//!
//! - [`message`]: [`Message`], [`Role`], [`ContentBlock`] and friends
//! - [`tool`]: data-only [`ToolCall`], [`ToolResult`], [`ToolAnnotations`]
//! - [`permission`]: [`PermissionPolicy`] trait, [`Permission`],
//!   [`PermissionMode`], [`PermissionContext`]
//! - [`approval`]: [`ReviewDecision`] and the request that it answers
//! - [`hook`]: [`Hook`] trait and the nine lifecycle context structs
//! - [`event`]: [`AgentEvent`] streaming output enum
//! - [`memory`]: [`MemorySchema`] declaration types (schema only, no storage)
//! - [`wire`] and [`stamp`]: how values are written as JSON and read back
//! - [`json`], [`content`], [`clock`]: what the modules above are built from
//! - [`laws`]: what the wire format promises, part by part
//!
//! ## What is proved
//!
//! Every type that travels implements [`Wire`], or [`StampedWire`] where it
//! carries message ids or creation times. Either trait says, over a model of
//! JSON documents, which document a value is written as, what is read from any
//! document, and that a written value is read back as it was. The one exception
//! is a hook's rewrite to `null`, which is read as no rewrite.

pub mod approval;
pub mod clock;
pub mod content;
pub mod event;
pub mod hook;
pub mod json;
pub mod laws;
pub mod memory;
pub mod message;
pub mod permission;
pub mod stamp;
pub mod tool;
pub mod wire;

pub use approval::{ApprovalRequest, ReviewDecision};
pub use clock::Timestamp;
pub use event::{AgentEvent, SubagentResult};
pub use hook::{
    Hook, HookResult, IdleHook, PostToolUseCtx, PostToolUseFailureCtx, PreCompactCtx,
    PreToolUseCtx, SessionEndCtx, SessionStartCtx, StopCtx, StopReason, SubagentStopCtx,
    ToolFailure, UserPromptSubmitCtx,
};
pub use memory::{MemoryKey, MemoryKind, MemorySchema};
pub use message::{ContentBlock, DocumentSource, ImageSource, Message, MessageId, Role};
pub use permission::{Permission, PermissionContext, PermissionMode, PermissionPolicy};
pub use stamp::{Source, Stamp, StampedWire};
pub use tool::{ToolAnnotations, ToolCall, ToolResult};
pub use wire::{Wire, WireError};
