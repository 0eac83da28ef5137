//! A staged syscall allowlist.
//!
//! A process narrows the kernel operations it may perform in two steps: a setup
//! stage that still allows privileged initialisation, then a steady-state stage
//! that keeps only what request processing over already-open descriptors needs.
//! Each stage is a table of symbolic syscall names with the architectures on
//! which each name applies; the table is resolved into a flat list for one
//! architecture before any rule is added. An activation drives a filter context
//! through create, permit, commit and release, and every decision it takes is
//! made by the verified state machine in [`activation`].
pub mod activation;
pub mod stages;
pub mod syscall;
