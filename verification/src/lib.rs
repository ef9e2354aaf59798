//! Verified core of the Boson operations console: status keys, table records,
//! timestamp labels, live-event predicates, and the queue and task-config
//! state machines that the Leptos pages drive.

pub mod columns;
pub mod dto;
pub mod email_override;
pub mod labels;
pub mod live;
pub mod pages;
pub mod parse;
pub mod permissions;
pub mod photon_ws;
pub mod queue;
pub mod records;
pub mod status;
pub mod task_config;
pub mod text;
pub mod timestamps;
