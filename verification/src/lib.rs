//! Tool dispatch and remote-execution correlation for an editor that runs
//! scripts in an embedded webview and posts their results back over HTTP.
//!
//! A tool call is decoded into typed parameters, checked, and turned into
//! a script. The script is wrapped in an envelope that posts its outcome
//! to a callback path, the request is registered under a fresh identifier,
//! and the posted body, a timeout or a failed push ends it. This crate
//! takes every decision on that way and proves what it decides; pushing
//! the script, waiting, and talking to the network and the disk are left
//! to the caller, who hands back what happened.
//!
//! - [`selection`]: which project is open, and whether it has unsaved changes.
//! - [`registry`]: request identifiers and their one-shot result slots.
//! - [`bridge`]: the envelope, the start and the end of an execution, and
//!   the callback endpoint.
//! - [`json`], [`text`]: JSON string literals, documents read one level
//!   deep, and the building of text.
//! - [`response`]: tool results, errors and the enrichment of results.
//! - [`dispatch`]: the dispatcher and the run of a tool's script.
//! - [`params`]: the parameters of the tools.
//! - [`page`], [`component`], [`selector`], [`site`], [`cms`], [`website`],
//!   [`session`]: the tools.

pub mod bridge;
pub mod cms;
pub mod component;
pub mod dispatch;
pub mod json;
pub mod page;
pub mod params;
pub mod registry;
pub mod response;
pub mod selection;
pub mod selector;
pub mod session;
pub mod site;
pub mod text;
pub mod website;
