//! Early-boot init library for GPU-accelerated container hosts.
//!
//! The library holds the decision logic of the init process: parsing the
//! kernel command line, filtering the PCI device tree for supported GPUs,
//! gating discovered device ids against an allow-list, resolving a single
//! consistent confidential-computing mode across all GPUs, sequencing the
//! container-toolkit provisioning commands, and the supervisor state
//! machine that splits boot into a one-shot handoff and a forever-running
//! revalidation loop. All I/O (files, subprocesses, fork/exec) lives in
//! the surrounding binary, which hands the library plain values.

pub mod check_supported;
pub mod container_toolkit;
pub mod cpu_vendor;
pub mod get_devices;
pub mod proc_cmdline;
pub mod query_cc_mode;
pub mod strings;
pub mod supervisor;
