//! Verified core of a team secrets tool: input validation, display
//! sanitisation, resource limits, local-state permission rules and the trust
//! decisions taken before a secret is read or written.

pub mod error;
pub mod text;
pub mod ids;
pub mod limits;
pub mod validation;
pub mod display;
pub mod json_limits;
pub mod timing;
pub mod warning;
pub mod path;
pub mod shell;
pub mod post_write;
pub mod fs;
pub mod secret;
pub mod model;
pub mod online;
pub mod trust;
pub mod ssh;
pub mod registration;
pub mod operation;
pub mod rewrap;
pub mod rewrap_session;
pub mod read;
pub mod member;
