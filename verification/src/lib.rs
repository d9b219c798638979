//! An event-sourced ledger, verified with Verus.
//!
//! The state of an aggregate is derived from an append-only log of events
//! and from nothing else. A command is decided on the replayed state and
//! answered with new events or with a refusal; the events are appended under
//! an optimistic concurrency guard and then handed to subscribers, among
//! them a projector that keeps a read model per aggregate.
//!
//! - `aggregate`: the aggregate and event traits, and replay.
//! - `event_log`: the mathematical event log and its laws.
//! - `event_store`: the store in memory, with `load` and `append`.
//! - `cqrs`: the framework that carries out commands.
//! - `projection`, `view_repository`, `query`: read models and subscribers.
//! - `bank_account_*`: the bank account aggregate, its read model and its
//!   endpoints.
//! - `task`: the task aggregate.
//! - `todo`, `project`, `memory`, `todo_service`, `todo_handlers`,
//!   `todo_dtos`, `app_error`: the todo list.
//! - `configuration`, `metadata_extension`, `error`, `prelude`, `text`:
//!   what the rest leans on.

pub mod aggregate;
pub mod app_error;
pub mod bank_account_aggregate;
pub mod bank_account_commands;
pub mod bank_account_errors;
pub mod bank_account_events;
pub mod bank_account_graphql;
pub mod bank_account_handlers;
pub mod bank_account_service;
pub mod bank_account_views;
pub mod configuration;
pub mod cqrs;
pub mod error;
pub mod event_log;
pub mod event_store;
pub mod memory;
pub mod metadata_extension;
pub mod prelude;
pub mod project;
pub mod projection;
pub mod query;
pub mod task;
pub mod text;
pub mod todo;
pub mod todo_dtos;
pub mod todo_handlers;
pub mod todo_service;
pub mod view_repository;
