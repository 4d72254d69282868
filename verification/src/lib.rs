//! Service-state synchronization and action-resolution engine for a terminal
//! tool that inspects and controls OS-level background services over an
//! asynchronous, job-based management protocol.
//!
//! The engine converts the protocol's fire-and-forget control calls into
//! synchronous, UI-consumable results ([`resolver`]), maintains a live
//! filterable view of all services backed by a fast initial fetch plus
//! slower background enrichment ([`list_sync`], [`table`], [`worker`]),
//! decodes asynchronous failure notifications ([`unit_path`], [`notifier`]),
//! and sequences all view-state mutation through a single orchestrator
//! ([`orchestrator`]).

pub mod errors;
pub mod filter_input;
pub mod list_sync;
pub mod notifier;
pub mod orchestrator;
pub mod resolver;
pub mod service;
pub mod service_property;
pub mod table;
pub mod text;
pub mod unit_path;
pub mod worker;
