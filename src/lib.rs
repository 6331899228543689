//! Keeps chat forum threads and tracker tickets in step.
//!
//! A thread is linked to a ticket by its identifier, embedded in the ticket's
//! title (`codec`). Each synchronisation cycle compares the open tickets with
//! the threads and decides, per thread, whether it must be reopened or closed
//! (`reconcile`); a closed ticket is found from the notifications that the bot
//! posted in the thread (`discovery`).

pub mod audit;
pub mod auth;
pub mod cli;
pub mod codec;
pub mod config;
pub mod constants;
pub mod cycle;
pub mod decimal;
pub mod discovery;
pub mod issue;
pub mod reconcile;
pub mod text;
