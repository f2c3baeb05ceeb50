//! An M-of-N group-authority engine.
//!
//! A group of owners collectively controls an authority identity. Any owner
//! may propose an external operation; once a quorum of owners has approved
//! it, anyone may execute it exactly once under the group's authority. The
//! group amends its own owner list and threshold only through the same
//! quorum mechanism, presenting the derived authority as proof of consent.

pub mod approval;
pub mod authority;
pub mod creation;
pub mod error;
pub mod escrow;
pub mod execution;
pub mod governance;
pub mod key;
pub mod state;
