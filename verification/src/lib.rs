//! Command dispatch and readiness gating for an interactive chat service.

pub mod cooldown;
pub mod gate;
pub mod handler;
pub mod moderation;
pub mod registry;
pub mod respond;
pub mod text;
