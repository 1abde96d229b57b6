use vstd::prelude::*;

pub mod auth;
pub mod cli;
pub mod codec;
pub mod config;
pub mod folders;
pub mod install;
pub mod lifecycle;
pub mod locations;
pub mod messages;
pub mod naming;
pub mod panel;
pub mod paths;
pub mod port_sets;
pub mod port_tracker;
pub mod proxy_flow;
pub mod proxy_registry;
pub mod removal;
pub mod scheme_handler;
pub mod service;
pub mod status;
pub mod steps;
pub mod templates;
pub mod text;
pub mod url_events;
pub mod urls;

verus! {
} // verus!
