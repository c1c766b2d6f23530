//! Exit codes and errors of the virtual machine monitor, the vCPU affinity values it hands
//! to KVM, and its decisions on the answers of the vCPUs to the events it sends them.

use vstd::prelude::*;

verus! {

/// Exit code of the monitor process.
#[derive(Debug, Clone, Copy, PartialEq, Eq)]
pub enum FcExitCode {
    /// Success exit code.
    Success,
    /// Generic error exit code.
    GenericError,
    /// Generic exit code for an error considered not possible to occur if the program logic is
    /// sound.
    UnexpectedError,
    /// Shut down after intercepting a restricted system call.
    BadSyscall,
    /// Shut down after intercepting `SIGBUS`.
    SIGBUS,
    /// Shut down after intercepting `SIGSEGV`.
    SIGSEGV,
    /// Shut down after intercepting `SIGXFSZ`.
    SIGXFSZ,
    /// Shut down after intercepting `SIGXCPU`.
    SIGXCPU,
    /// Shut down after intercepting `SIGPIPE`.
    SIGPIPE,
    /// Shut down after intercepting `SIGHUP`.
    SIGHUP,
    /// Shut down after intercepting `SIGILL`.
    SIGILL,
    /// Bad configuration for the microVM's resources, when using a single json.
    BadConfiguration,
    /// Command line arguments parsing error.
    ArgParsing,
}

/// The process exit status of each exit code.
pub open spec fn exit_status(c: FcExitCode) -> i32 {
    match c {
        FcExitCode::Success => 0,
        FcExitCode::GenericError => 1,
        FcExitCode::UnexpectedError => 2,
        FcExitCode::BadSyscall => 148,
        FcExitCode::SIGBUS => 149,
        FcExitCode::SIGSEGV => 150,
        FcExitCode::SIGXFSZ => 151,
        FcExitCode::SIGXCPU => 154,
        FcExitCode::SIGPIPE => 155,
        FcExitCode::SIGHUP => 156,
        FcExitCode::SIGILL => 157,
        FcExitCode::BadConfiguration => 152,
        FcExitCode::ArgParsing => 153,
    }
}

impl FcExitCode {
    /// The process exit status of this exit code.
    pub fn code(self) -> (r: i32)
        ensures
            r == exit_status(self),
    {
        match self {
            FcExitCode::Success => 0,
            FcExitCode::GenericError => 1,
            FcExitCode::UnexpectedError => 2,
            FcExitCode::BadSyscall => 148,
            FcExitCode::SIGBUS => 149,
            FcExitCode::SIGSEGV => 150,
            FcExitCode::SIGXFSZ => 151,
            FcExitCode::SIGXCPU => 154,
            FcExitCode::SIGPIPE => 155,
            FcExitCode::SIGHUP => 156,
            FcExitCode::SIGILL => 157,
            FcExitCode::BadConfiguration => 152,
            FcExitCode::ArgParsing => 153,
        }
    }
}

/// Distinct exit codes exit with distinct statuses.
pub proof fn lemma_exit_status_injective(a: FcExitCode, b: FcExitCode)
    requires
        a != b,
    ensures
        exit_status(a) != exit_status(b),
{
}

/// Error of emulating the initialisation of the serial console.
#[derive(Debug)]
pub struct EmulateSerialInitError(pub std::io::Error);

/// Error of restoring the vCPU states.
#[derive(Debug, Clone, PartialEq, Eq)]
pub enum RestoreVcpusError {
    /// Invalid input.
    InvalidInput,
    /// Failed to send an event to a vCPU.
    SendEvent,
    /// Vcpu is in unexpected state.
    UnexpectedVcpuResponse,
    /// Failed to restore vCPU state.
    RestoreVcpuState,
    /// Not allowed.
    NotAllowed(String),
}

/// Error of dumping the CPU configuration.
#[derive(Debug, Clone, PartialEq, Eq)]
pub enum DumpCpuConfigError {
    /// Failed to send an event to vcpu thread.
    SendEvent,
    /// Got an unexpected response from vcpu thread.
    UnexpectedResponse,
    /// Failed to dump CPU config.
    DumpCpuConfig,
    /// Operation not allowed.
    NotAllowed(String),
}

/// The KVM form of an MPIDR_EL1 value: affinity fields Aff0, Aff1 and Aff2 (bits 0..24) and
/// Aff3 (bits 32..40) packed into the top 32 bits, Aff0 lowest.
pub open spec fn kvm_mpidr(mpidr: u64) -> u64 {
    (((mpidr & 0xFF_0000_0000u64) >> 8u64) | (mpidr & 0xFF_FFFFu64)) << 32u64
}

/// The KVM form of each vCPU's MPIDR_EL1 value, in order.
pub fn construct_kvm_mpidrs(mpidrs: &[u64]) -> (r: Vec<u64>)
    ensures
        r@ == Seq::new(mpidrs@.len(), |i: int| kvm_mpidr(mpidrs@[i])),
{
    let mut r: Vec<u64> = Vec::new();
    let mut i: usize = 0;
    while i < mpidrs.len()
        invariant
            0 <= i <= mpidrs.len(),
            r@ == Seq::new(i as nat, |j: int| kvm_mpidr(mpidrs@[j])),
        decreases mpidrs.len() - i,
    {
        let m = mpidrs[i];
        let cpu_affid = ((m & 0xFF_0000_0000u64) >> 8u64) | (m & 0xFF_FFFFu64);
        r.push(cpu_affid << 32u64);
        i = i + 1;
        assert(r@ =~= Seq::new(i as nat, |j: int| kvm_mpidr(mpidrs@[j])));
    }
    r
}

/// Each affinity field lands where KVM expects it: Aff0 in bits 32..40, Aff1 in 40..48,
/// Aff2 in 48..56 and Aff3 in 56..64, with the low 32 bits clear.
pub proof fn lemma_kvm_mpidr_layout(mpidr: u64)
    ensures
        (kvm_mpidr(mpidr) >> 32u64) & 0xff == mpidr & 0xff,
        (kvm_mpidr(mpidr) >> 40u64) & 0xff == (mpidr >> 8u64) & 0xff,
        (kvm_mpidr(mpidr) >> 48u64) & 0xff == (mpidr >> 16u64) & 0xff,
        (kvm_mpidr(mpidr) >> 56u64) & 0xff == (mpidr >> 32u64) & 0xff,
        kvm_mpidr(mpidr) & 0xffff_ffff == 0,
{
    assert(((((mpidr & 0xFF_0000_0000u64) >> 8u64) | (mpidr & 0xFF_FFFFu64)) << 32u64 >> 32u64) & 0xff == mpidr & 0xff) by (bit_vector);
    assert(((((mpidr & 0xFF_0000_0000u64) >> 8u64) | (mpidr & 0xFF_FFFFu64)) << 32u64 >> 40u64) & 0xff == (mpidr >> 8u64) & 0xff) by (bit_vector);
    assert(((((mpidr & 0xFF_0000_0000u64) >> 8u64) | (mpidr & 0xFF_FFFFu64)) << 32u64 >> 48u64) & 0xff == (mpidr >> 16u64) & 0xff) by (bit_vector);
    assert(((((mpidr & 0xFF_0000_0000u64) >> 8u64) | (mpidr & 0xFF_FFFFu64)) << 32u64 >> 56u64) & 0xff == (mpidr >> 32u64) & 0xff) by (bit_vector);
    assert(((((mpidr & 0xFF_0000_0000u64) >> 8u64) | (mpidr & 0xFF_FFFFu64)) << 32u64) & 0xffff_ffff == 0) by (bit_vector);
}

/// A vCPU's answer to an event sent to it. The payloads that the vCPU module defines are held
/// as `S` (a saved vCPU state) and `C` (a CPU configuration); a failure carries no detail.
#[derive(Debug, Clone, PartialEq, Eq)]
pub enum VcpuResponse<S, C> {
    /// The vCPU failed to handle the event.
    Error,
    /// The vCPU exited with this code.
    Exited(FcExitCode),
    /// The event is not allowed in the vCPU's state, for this reason.
    NotAllowed(String),
    /// The vCPU paused.
    Paused,
    /// The vCPU resumed.
    Resumed,
    /// The vCPU restored its state.
    RestoredState,
    /// The vCPU saved its state.
    SavedState(S),
    /// The vCPU dumped its CPU configuration.
    DumpedCpuConfig(C),
}

/// Every vCPU answered in time (an answer that did not come in time is `None`).
pub open spec fn all_received<S, C>(rs: Seq<Option<VcpuResponse<S, C>>>) -> bool {
    forall|i: int| 0 <= i < rs.len() ==> (#[trigger] rs[i]) is Some
}

/// Every vCPU answered `answer` in time.
pub open spec fn all_answered<S, C>(rs: Seq<Option<VcpuResponse<S, C>>>, answer: VcpuResponse<S, C>) -> bool {
    forall|i: int| 0 <= i < rs.len() ==> #[trigger] rs[i] == Some(answer)
}

/// Whether every vCPU answered a pause event in time with [`VcpuResponse::Paused`]; only
/// then is the machine paused.
pub fn vcpus_paused<S, C>(responses: &Vec<Option<VcpuResponse<S, C>>>) -> (r: bool)
    ensures
        r == all_answered(responses@, VcpuResponse::Paused),
{
    let mut i: usize = 0;
    while i < responses.len()
        invariant
            0 <= i <= responses.len(),
            all_answered(responses@.subrange(0, i as int), VcpuResponse::Paused),
        decreases responses.len() - i,
    {
        match &responses[i] {
            Some(VcpuResponse::Paused) => {},
            _ => {
                assert(!all_answered(responses@, VcpuResponse::Paused)) by {
                    assert(responses@[i as int] != Some(VcpuResponse::<S, C>::Paused));
                }
                return false;
            },
        }
        i = i + 1;
        assert forall|j: int| 0 <= j < i implies #[trigger] responses@.subrange(0, i as int)[j]
            == Some(VcpuResponse::<S, C>::Paused) by {
            if j < i - 1 {
                assert(responses@.subrange(0, i - 1)[j] == responses@[j]);
            }
        }
    }
    assert(responses@.subrange(0, i as int) =~= responses@);
    true
}

/// Whether every vCPU answered a resume event in time with [`VcpuResponse::Resumed`]; only
/// then is the machine running.
pub fn vcpus_resumed<S, C>(responses: &Vec<Option<VcpuResponse<S, C>>>) -> (r: bool)
    ensures
        r == all_answered(responses@, VcpuResponse::Resumed),
{
    let mut i: usize = 0;
    while i < responses.len()
        invariant
            0 <= i <= responses.len(),
            all_answered(responses@.subrange(0, i as int), VcpuResponse::Resumed),
        decreases responses.len() - i,
    {
        match &responses[i] {
            Some(VcpuResponse::Resumed) => {},
            _ => {
                assert(!all_answered(responses@, VcpuResponse::Resumed)) by {
                    assert(responses@[i as int] != Some(VcpuResponse::<S, C>::Resumed));
                }
                return false;
            },
        }
        i = i + 1;
        assert forall|j: int| 0 <= j < i implies #[trigger] responses@.subrange(0, i as int)[j]
            == Some(VcpuResponse::<S, C>::Resumed) by {
            if j < i - 1 {
                assert(responses@.subrange(0, i - 1)[j] == responses@[j]);
            }
        }
    }
    assert(responses@.subrange(0, i as int) =~= responses@);
    true
}

/// The verdict on the answers from index `i` on to restore events: the first answer that is
/// not [`VcpuResponse::RestoredState`] decides the error (a vCPU failure, a refusal with its
/// reason, or an unexpected answer).
pub open spec fn restore_failure<S, C>(rs: Seq<Option<VcpuResponse<S, C>>>, i: int) -> Result<
    (),
    RestoreVcpusError,
>
    decreases rs.len() - i,
{
    if i < 0 || i >= rs.len() {
        Ok(())
    } else {
        match rs[i] {
            Some(VcpuResponse::RestoredState) => restore_failure(rs, i + 1),
            Some(VcpuResponse::Error) => Err(RestoreVcpusError::RestoreVcpuState),
            Some(VcpuResponse::NotAllowed(reason)) => Err(RestoreVcpusError::NotAllowed(reason)),
            _ => Err(RestoreVcpusError::UnexpectedVcpuResponse),
        }
    }
}

/// The outcome of restoring the vCPU states from the answers to the restore events: an answer
/// that did not come in time is an unexpected answer, whatever the others; else the first
/// answer that is not a success decides.
pub open spec fn restore_outcome<S, C>(rs: Seq<Option<VcpuResponse<S, C>>>) -> Result<
    (),
    RestoreVcpusError,
> {
    if !all_received(rs) {
        Err(RestoreVcpusError::UnexpectedVcpuResponse)
    } else {
        restore_failure(rs, 0)
    }
}

/// Whether a restore may be attempted: one state is given for each vCPU.
pub fn check_restore_input(states: usize, vcpus: usize) -> (r: Result<(), RestoreVcpusError>)
    ensures
        r == (if states == vcpus {
            Ok::<(), RestoreVcpusError>(())
        } else {
            Err(RestoreVcpusError::InvalidInput)
        }),
{
    if states != vcpus {
        return Err(RestoreVcpusError::InvalidInput);
    }
    Ok(())
}

/// Finds an answer that did not come in time, if any.
fn first_missing<S, C>(responses: &Vec<Option<VcpuResponse<S, C>>>) -> (r: bool)
    ensures
        r == !all_received(responses@),
{
    let mut i: usize = 0;
    while i < responses.len()
        invariant
            0 <= i <= responses.len(),
            forall|j: int| 0 <= j < i ==> (#[trigger] responses@[j]) is Some,
        decreases responses.len() - i,
    {
        if responses[i].is_none() {
            return true;
        }
        i = i + 1;
    }
    false
}

/// The outcome of restoring the vCPU states from the answers to the restore events (see
/// [`restore_outcome`]).
pub fn restore_vcpus_outcome<S, C>(responses: &Vec<Option<VcpuResponse<S, C>>>) -> (r: Result<
    (),
    RestoreVcpusError,
>)
    ensures
        r == restore_outcome(responses@),
{
    if first_missing(responses) {
        return Err(RestoreVcpusError::UnexpectedVcpuResponse);
    }
    let mut i: usize = 0;
    while i < responses.len()
        invariant
            0 <= i <= responses.len(),
            all_received(responses@),
            restore_failure(responses@, 0) == restore_failure(responses@, i as int),
        decreases responses.len() - i,
    {
        match &responses[i] {
            Some(VcpuResponse::RestoredState) => {},
            Some(VcpuResponse::Error) => return Err(RestoreVcpusError::RestoreVcpuState),
            Some(VcpuResponse::NotAllowed(reason)) => {
                return Err(RestoreVcpusError::NotAllowed(reason.clone()));
            },
            _ => return Err(RestoreVcpusError::UnexpectedVcpuResponse),
        }
        i = i + 1;
    }
    Ok(())
}

/// The first refusal among the answers from index `i` on to dump events: the first answer
/// that is not [`VcpuResponse::DumpedCpuConfig`] decides the error (a vCPU failure, a refusal
/// with its reason, or an unexpected answer); `None` when all are dumps.
pub open spec fn dump_failure<S, C>(rs: Seq<Option<VcpuResponse<S, C>>>, i: int) -> Option<
    DumpCpuConfigError,
>
    decreases rs.len() - i,
{
    if i < 0 || i >= rs.len() {
        None
    } else {
        match rs[i] {
            Some(VcpuResponse::DumpedCpuConfig(_)) => dump_failure(rs, i + 1),
            Some(VcpuResponse::Error) => Some(DumpCpuConfigError::DumpCpuConfig),
            Some(VcpuResponse::NotAllowed(reason)) => Some(DumpCpuConfigError::NotAllowed(reason)),
            _ => Some(DumpCpuConfigError::UnexpectedResponse),
        }
    }
}

/// The outcome of dumping the CPU configurations from the answers to the dump events: an
/// answer that did not come in time is an unexpected answer, whatever the others; else the
/// first answer that is not a dump decides the error; else the dumped configurations, in the
/// order of the vCPUs.
pub open spec fn dump_outcome<S, C>(rs: Seq<Option<VcpuResponse<S, C>>>) -> Result<
    Seq<C>,
    DumpCpuConfigError,
> {
    if !all_received(rs) {
        Err(DumpCpuConfigError::UnexpectedResponse)
    } else {
        match dump_failure(rs, 0) {
            Some(e) => Err(e),
            None => Ok(Seq::new(rs.len(), |j: int| rs[j]->Some_0->DumpedCpuConfig_0)),
        }
    }
}

/// The outcome of dumping the CPU configurations from the answers to the dump events (see
/// [`dump_outcome`]); the configurations are moved out of the answers.
pub fn dump_cpu_config_outcome<S, C>(responses: Vec<Option<VcpuResponse<S, C>>>) -> (r: Result<
    Vec<C>,
    DumpCpuConfigError,
>)
    ensures
        match (r, dump_outcome(responses@)) {
            (Ok(v), Ok(s)) => v@ == s,
            (Err(e), Err(f)) => e == f,
            _ => false,
        },
{
    if first_missing(&responses) {
        return Err(DumpCpuConfigError::UnexpectedResponse);
    }
    let ghost rs = responses@;
    let mut rest = responses;
    let mut configs: Vec<C> = Vec::new();
    let ghost mut k: int = 0;
    while rest.len() > 0
        invariant
            0 <= k <= rs.len(),
            rs == responses@,
            all_received(rs),
            rest@ == rs.subrange(k, rs.len() as int),
            dump_failure(rs, 0) == dump_failure(rs, k),
            configs@ == Seq::new(k as nat, |j: int| rs[j]->Some_0->DumpedCpuConfig_0),
        decreases rest.len(),
    {
        let answer = rest.remove(0);
        assert(answer == rs[k]);
        match answer {
            Some(VcpuResponse::DumpedCpuConfig(c)) => {
                configs.push(c);
                proof {
                    k = k + 1;
                }
                assert(configs@ =~= Seq::new(k as nat, |j: int| rs[j]->Some_0->DumpedCpuConfig_0));
                assert(rest@ =~= rs.subrange(k, rs.len() as int));
            },
            Some(VcpuResponse::Error) => return Err(DumpCpuConfigError::DumpCpuConfig),
            Some(VcpuResponse::NotAllowed(reason)) => {
                return Err(DumpCpuConfigError::NotAllowed(reason));
            },
            _ => return Err(DumpCpuConfigError::UnexpectedResponse),
        }
    }
    assert(k == rs.len());
    Ok(configs)
}

/// The exit code that the answers from index `i` on report: the code of the first
/// [`VcpuResponse::Exited`] answer; other answers, and answers not yet there (`None`), are
/// passed over; without one, success.
pub open spec fn first_exit_code<S, C>(rs: Seq<Option<VcpuResponse<S, C>>>, i: int) -> FcExitCode
    decreases rs.len() - i,
{
    if i < 0 || i >= rs.len() {
        FcExitCode::Success
    } else {
        match rs[i] {
            Some(VcpuResponse::Exited(code)) => code,
            _ => first_exit_code(rs, i + 1),
        }
    }
}

/// The exit code with which the monitor stops when a vCPU signalled its exit, from the
/// answers pending on the vCPUs' channels (see [`first_exit_code`]).
pub fn vcpus_exit_code<S, C>(responses: &Vec<Option<VcpuResponse<S, C>>>) -> (r: FcExitCode)
    ensures
        r == first_exit_code(responses@, 0),
{
    let mut i: usize = 0;
    while i < responses.len()
        invariant
            0 <= i <= responses.len(),
            first_exit_code(responses@, 0) == first_exit_code(responses@, i as int),
        decreases responses.len() - i,
    {
        if let Some(VcpuResponse::Exited(code)) = &responses[i] {
            return *code;
        }
        i = i + 1;
    }
    FcExitCode::Success
}

} // verus!
