//! An Elm-style reactive runtime core: batchable commands describing deferred
//! asynchronous effects, declarative subscriptions with identity-based change
//! detection, and a mailbox-driven per-frame protocol that folds messages into
//! an application model in arrival order.

pub mod command;
pub mod driver;
pub mod mailbox;
pub mod program;
pub mod subscription;
pub mod token;
pub mod view;
