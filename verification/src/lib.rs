//! A verified bridge between a hot-reloadable script and a host
//! application's per-frame drawing context.
//!
//! The crate models the three hard parts of such a bridge and proves
//! their contracts:
//! - a single-slot, overwrite-semantics mailbox carrying pending script
//!   source from a watcher thread to the frame loop ([`mailbox`]);
//! - a per-frame drawing canvas whose capability handles are scoped to
//!   one frame and fail closed once that frame has ended ([`canvas`]);
//! - a declarative registry of script-visible bindings, re-applied in
//!   full whenever the underlying script engine is replaced
//!   ([`registry`], [`rye`]).
//!
//! The script runtime itself is an external collaborator; every call
//! into it goes through a small trusted surface in [`runtime`].

pub mod canvas;
pub mod data;
pub mod mailbox;
pub mod modules;
pub mod registry;
pub mod runtime;
pub mod rye;
