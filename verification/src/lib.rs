//! Identification of a host platform: canonical operating-system, CPU
//! architecture (with an optional instruction-set variant) and libc values,
//! each parsed from and formatted back to canonical token strings, together
//! with a preference ordering over architectures and an execution
//! compatibility predicate.

pub mod arch;
pub mod error;
pub mod libc;
pub mod os;
pub mod strutil;
pub mod tags;
pub mod variant;
