//! The serial console: its output, its events, and the decisions taken on an event of its
//! input (the reading and the event registrations are done by the caller).

use vstd::prelude::*;

verus! {

#[verifier::external_type_specification]
#[verifier::external_body]
pub struct ExSink(std::io::Sink);

#[verifier::external_type_specification]
#[verifier::external_body]
pub struct ExStdout(std::io::Stdout);

/// Where the serial console writes.
#[derive(Debug)]
pub enum SerialOut {
    /// Output discarded.
    Sink(std::io::Sink),
    /// Output to the standard output.
    Stdout(std::io::Stdout),
}

/// The events of the serial console: the event signalled when its input buffer is ready
/// for more bytes, by its file descriptor.
#[derive(Debug, Clone, Copy, PartialEq, Eq)]
pub struct SerialEventsWrapper {
    /// Buffer ready event.
    pub buffer_ready_event_fd: Option<i32>,
}

/// Why reading the serial input into the serial FIFO failed.
#[derive(Debug, Clone, Copy, PartialEq, Eq)]
pub enum ReceiveError {
    /// The FIFO has no room (`ENOBUFS`).
    NoBufferSpace,
    /// Reading would block (`EWOULDBLOCK`).
    WouldBlock,
    /// The serial has no input source (`ENOTTY`).
    NoInput,
    /// Any other error.
    Other,
}

/// What to do next on an event of the serial input.
#[derive(Debug, Clone, Copy, PartialEq, Eq)]
pub enum SerialAction {
    /// Nothing more to do.
    Done,
    /// The serial has no configured input source: report it and stop.
    ReportNoInput,
    /// Consume the buffer-ready event, then decide with [`after_buffer_ready`].
    ConsumeBufferReady,
    /// Read the input into the FIFO, then decide with [`after_receive`].
    Receive,
    /// Stop watching the input.
    DetachInput,
    /// Stop watching the input and the buffer-ready event.
    DetachBoth,
    /// Reading would have blocked: watch the input again and signal the buffer ready.
    HandleWouldBlock,
}

/// The first decision on an event of file descriptor `event_fd`: without an input or a
/// buffer-ready event nothing can be done; a buffer-ready event is consumed first; any
/// other event leads to reading the input.
pub fn on_event(input_fd: i32, buffer_ready_fd: i32, event_fd: i32) -> (r: SerialAction)
    ensures
        r == (if input_fd < 0 || buffer_ready_fd < 0 {
            SerialAction::ReportNoInput
        } else if buffer_ready_fd == event_fd {
            SerialAction::ConsumeBufferReady
        } else {
            SerialAction::Receive
        }),
{
    if input_fd < 0 || buffer_ready_fd < 0 {
        SerialAction::ReportNoInput
    } else if buffer_ready_fd == event_fd {
        SerialAction::ConsumeBufferReady
    } else {
        SerialAction::Receive
    }
}

/// The decision once the buffer-ready event was consumed (or failed to be): on failure the
/// serial input is detached, else the input is read.
pub fn after_buffer_ready(consumed: bool) -> (r: SerialAction)
    ensures
        r == (if consumed {
            SerialAction::Receive
        } else {
            SerialAction::DetachBoth
        }),
{
    if consumed {
        SerialAction::Receive
    } else {
        SerialAction::DetachBoth
    }
}

/// The decision once the input was read: the end of the input seen on an event of the
/// input itself detaches it; a full FIFO stops watching the input; a read that would block
/// watches it again; a missing or failing input is detached.
pub fn after_receive(input_fd: i32, event_fd: i32, received: Result<usize, ReceiveError>) -> (r: SerialAction)
    ensures
        r == match received {
            Ok(count) => if input_fd == event_fd && count == 0 {
                SerialAction::DetachBoth
            } else {
                SerialAction::Done
            },
            Err(ReceiveError::NoBufferSpace) => SerialAction::DetachInput,
            Err(ReceiveError::WouldBlock) => SerialAction::HandleWouldBlock,
            Err(ReceiveError::NoInput) => SerialAction::DetachBoth,
            Err(ReceiveError::Other) => SerialAction::DetachBoth,
        },
{
    match received {
        Ok(count) => {
            if input_fd == event_fd && count == 0 {
                SerialAction::DetachBoth
            } else {
                SerialAction::Done
            }
        },
        Err(ReceiveError::NoBufferSpace) => SerialAction::DetachInput,
        Err(ReceiveError::WouldBlock) => SerialAction::HandleWouldBlock,
        Err(ReceiveError::NoInput) => SerialAction::DetachBoth,
        Err(ReceiveError::Other) => SerialAction::DetachBoth,
    }
}

/// How many bytes to read from the input: the free room of the FIFO, or an error when it
/// has none or there is no input.
pub fn receive_capacity(fifo_capacity: usize, has_input: bool) -> (r: Result<usize, ReceiveError>)
    ensures
        r == (if fifo_capacity == 0 {
            Err::<usize, ReceiveError>(ReceiveError::NoBufferSpace)
        } else if !has_input {
            Err(ReceiveError::NoInput)
        } else {
            Ok(fifo_capacity)
        }),
{
    if fifo_capacity == 0 {
        return Err(ReceiveError::NoBufferSpace);
    }
    if !has_input {
        return Err(ReceiveError::NoInput);
    }
    Ok(fifo_capacity)
}

/// Whether raw input of `len` bytes may be queued in a FIFO with room for `capacity`: it
/// may when it fits.
pub fn raw_input_fits(len: usize, capacity: usize) -> (r: bool)
    ensures
        r == (len <= capacity),
{
    len <= capacity
}

/// How registering the serial input with the event manager went.
#[derive(Debug, Clone, Copy, PartialEq, Eq)]
pub enum Registration {
    /// The input is now watched.
    Registered,
    /// The input was already watched.
    AlreadyRegistered,
    /// The registration failed for another reason.
    Failed,
}

/// What to do once a read of the input would have blocked.
#[derive(Debug, Clone, Copy, PartialEq, Eq)]
pub enum WouldBlockAction {
    /// The serial has no configured input source: report it and stop.
    ReportNoInput,
    /// Watch the input again, then decide with [`after_registration`].
    RegisterInput,
}

/// What to do after the registration of the input.
#[derive(Debug, Clone, Copy, PartialEq, Eq)]
pub enum RegistrationAction {
    /// Nothing more to do.
    Done,
    /// Report the failure.
    ReportFailure,
    /// Signal that the input buffer is ready for more bytes.
    SignalBufferReady,
}

/// The first decision once a read of the input would have blocked: without an input or a
/// buffer-ready event nothing can be done; else the input is watched again.
pub fn on_would_block(input_fd: i32, buffer_ready_fd: i32) -> (r: WouldBlockAction)
    ensures
        r == (if input_fd < 0 || buffer_ready_fd < 0 {
            WouldBlockAction::ReportNoInput
        } else {
            WouldBlockAction::RegisterInput
        }),
{
    if input_fd < 0 || buffer_ready_fd < 0 {
        WouldBlockAction::ReportNoInput
    } else {
        WouldBlockAction::RegisterInput
    }
}

/// The decision after watching the input again: a new registration signals the buffer
/// ready, an existing one needs nothing, a failure is reported.
pub fn after_registration(registration: Registration) -> (r: RegistrationAction)
    ensures
        r == match registration {
            Registration::Registered => RegistrationAction::SignalBufferReady,
            Registration::AlreadyRegistered => RegistrationAction::Done,
            Registration::Failed => RegistrationAction::ReportFailure,
        },
{
    match registration {
        Registration::Registered => RegistrationAction::SignalBufferReady,
        Registration::AlreadyRegistered => RegistrationAction::Done,
        Registration::Failed => RegistrationAction::ReportFailure,
    }
}

/// Which event sources to watch when the serial console starts, as (input, buffer-ready
/// event): both only when the serial has an input and a buffer-ready event, and the input
/// only when its descriptor is not -1.
pub fn init_registrations(has_input: bool, has_buffer_ready: bool, input_fd: i32) -> (r: (bool, bool))
    ensures
        r == (if has_input && has_buffer_ready {
            (input_fd != -1, true)
        } else {
            (false, false)
        }),
{
    if has_input && has_buffer_ready {
        (input_fd != -1, true)
    } else {
        (false, false)
    }
}

/// Whether a bus access of `len` bytes is served: the serial registers are one byte wide, so
/// any other length counts as a missed access.
pub fn single_byte_access(len: usize) -> (r: bool)
    ensures
        r == (len == 1),
{
    len == 1
}

} // verus!
