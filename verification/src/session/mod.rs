//! Session management: statuses, phases, events, the session entity and
//! the decisions of the session manager.

pub mod status;
pub mod entity;
pub mod event;
pub mod manager;
pub mod rows;
pub mod shutdown;
