//! Verified core logic of a lightweight virtual machine monitor: the I/O rate limiter
//! (token buckets), its configuration objects and log lines; the CPUID model, the changes
//! applied to it for a guest vCPU and the check that one CPUID supports another; bit fields
//! of registers and the parser of bit-field definitions; the decisions the monitor takes on
//! the events of its serial console, its API adapter and its vCPUs; and the aarch64 system
//! call table and the names of generated code.

pub mod api_adapter;
pub mod bit_fields;
pub mod construct;
pub mod cpu_config;
pub mod cpuid;
pub mod member_parser;
pub mod rate_limiter;
pub mod serial;
pub mod syscall_table;
pub mod vmm;
pub mod vmm_config;
