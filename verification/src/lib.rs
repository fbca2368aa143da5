//! A verified registry of Legal Officer Cases (LOCs).
//!
//! A LOC is an append-mostly administrative record binding an owning
//! authority, an optional requester and a growing body of attached
//! evidence (metadata, files, links to other cases) through a lifecycle
//! of open, closed and optionally void/replaced. A Collection LOC
//! additionally hosts a bounded catalogue of immutable collection items.
//!
//! The crate implements the whole state machine over an in-memory record
//! store. Every public operation carries a contract that pins down, for
//! every input, which error it returns and how the stored records change;
//! the laws module states and proves the global properties that tie the
//! operations together.

pub mod types;
pub mod store;
pub mod rules;
pub mod pallet;
pub mod laws;
