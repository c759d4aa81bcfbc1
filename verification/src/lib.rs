//! Evaluation and enqueue pipeline of a scheduled notification engine.
//!
//! Evaluators look at the configurations that are due, compare what they
//! observe with the state kept from earlier cycles, and send a notification
//! for each change. A notification becomes events, one per distinct
//! address, ready for delivery.
//!
//! The library works on an in-memory image of the storage
//! ([`repository::StorageConnection`]): callers load rows into it, run the
//! pipeline and write back what changed.
//!
//! The library does not call the template engine. It says how an engine is
//! to be set up and what is to be rendered, and takes what came of it as
//! text: see [`enqueue`] and [`datasource`].

pub mod coldchain;
pub mod datasource;
pub mod enqueue;
pub mod graphql;
pub mod json;
pub mod mock;
pub mod notification_config;
pub mod plugin_store;
pub mod query;
pub mod recipient_list;
pub mod repository;
pub mod scheduler;
pub mod service_provider;
pub mod settings;
pub mod telegram;
pub mod templates;
pub mod test_utils;
pub mod text;
pub mod util;
