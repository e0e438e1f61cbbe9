//! Verified core of the Phoenix hardware corridor checker.
//!
//! The corridor geometry and the Lyapunov-style residuals are computed in
//! floating point by the command-line program; this library holds the parts
//! of the checker that are exact: how a document's format is chosen from its
//! path, the survival-cycle ratios of the material axis, the identity that is
//! stamped on an emitted shard, and the order in which a check proceeds.

pub mod check_flow;
pub mod format;
pub mod identity;
pub mod material;

