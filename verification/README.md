# firecracker (verified core)

The logic of a lightweight virtual machine monitor, written in Verus and proved against
its contracts.

## Layout

- `src/` — the verified library:
  - `rate_limiter.rs`: token buckets and the rate limiter of device I/O, with the timer that
    wakes a blocked device;
  - `vmm_config.rs`: the configuration objects of the rate limiter and the logger, log levels
    and the head of log lines;
  - `cpuid/`: the CPUID entries of a guest vCPU (`mod.rs`), the Intel and AMD changes made to
    them (`intel.rs`, `amd.rs`), the cache descriptors of leaf 2 (`leaf2.rs`) and the check
    that one CPUID supports another (`support.rs`);
  - `bit_fields.rs`: reading and writing bit ranges and flags of registers;
  - `member_parser.rs`: the parser of the members of a bit-field definition;
  - `serial.rs`, `api_adapter.rs`, `vmm.rs`: the decisions the monitor takes on the events of
    its serial console, of its API thread and on the answers of its vCPUs; exit codes;
  - `cpu_config.rs`: CPU templates; `syscall_table.rs`: the aarch64 system call numbers;
    `construct.rs`: the names of generated code.
- `tests/` — tests of the library.
- `app/` — ordinary Rust around the library: I/O, the serde forms of the configuration
  objects, the host's CPUID instruction, the jail, the event loops that carry out the
  library's decisions.

Each module states its laws as public proof functions (`lemma_*`) next to the functions
they speak of.
