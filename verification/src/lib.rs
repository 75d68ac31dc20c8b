//! Typed, non-owning handles to reference-counted foreign objects that expose
//! several interfaces, and chains of interface versions ordered by capability.
//!
//! The library never calls into the foreign object model itself. Whoever does
//! hands the reply to [`WeakPtr::cast`], and performs the release that
//! [`WeakPtr::as_unknown`] names the target of.

pub mod chain;
pub mod handle;
pub mod protocol;

pub use chain::{Chain, ChainView, Family, Level, LevelError};
pub use handle::{Unknown, WeakPtr};
pub use protocol::{ForeignObject, InterfaceId, QueryReply};
