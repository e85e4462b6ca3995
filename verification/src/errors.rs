//! Error types for every operation of the threading system.
//!
//! Each concern (spawning, joining, scheduling, memory, timers, the
//! architecture port, thread-local storage, permissions, resource limits and
//! invalid operations) has its own enum, and `ThreadError` gathers them all.

use vstd::prelude::*;

verus! {

/// Result type for threading operations.
pub type ThreadResult<T> = Result<T, ThreadError>;

/// Top-level error type covering all threading operations.
#[derive(Debug, Clone, PartialEq, Eq)]
pub enum ThreadError {
    /// Thread spawning errors
    Spawn(SpawnError),
    /// Thread joining errors
    Join(JoinError),
    /// Scheduling errors
    Schedule(ScheduleError),
    /// Memory allocation errors
    Memory(MemoryError),
    /// Timer and timing errors
    Timer(TimerError),
    /// Architecture-specific errors
    Arch(ArchError),
    /// Thread-local storage errors
    Tls(TlsError),
    /// Permission and security errors
    Permission(PermissionError),
    /// Resource limit errors
    Resource(ResourceError),
    /// Invalid operation errors
    InvalidOperation(InvalidOperationError),
}

/// Errors that can occur during thread spawning.
#[derive(Debug, Clone, PartialEq, Eq)]
pub enum SpawnError {
    /// System is not initialized
    NotInitialized,
    /// Out of memory for stack allocation
    OutOfMemory,
    /// Maximum number of threads reached
    TooManyThreads,
    /// Invalid stack size specified
    InvalidStackSize(usize),
    /// Invalid priority specified
    InvalidPriority(u8),
    /// Invalid CPU affinity specified
    InvalidAffinity(u64),
    /// Thread name is invalid or too long
    InvalidName(String),
    /// Architecture does not support requested feature
    UnsupportedFeature(String),
    /// Scheduler rejected the thread
    SchedulerRejected,
}

/// Errors that can occur during thread joining.
#[derive(Debug, Clone, PartialEq, Eq)]
pub enum JoinError {
    /// Thread has already been joined
    AlreadyJoined,
    /// Thread panicked during execution
    ThreadPanicked,
    /// Thread was terminated abnormally
    Terminated,
    /// Join operation timed out
    Timeout,
    /// Thread is still running (for try_join)
    StillRunning,
    /// Invalid thread handle
    InvalidHandle,
}

/// Errors related to scheduling operations.
#[derive(Debug, Clone, PartialEq, Eq)]
pub enum ScheduleError {
    /// No schedulable threads available
    NoThreadsAvailable,
    /// Scheduler is in an invalid state
    InvalidState,
    /// CPU does not exist or is offline
    InvalidCpu(usize),
    /// Priority change not allowed
    PriorityChangeNotAllowed,
    /// Scheduler queue is full
    QueueFull,
    /// Preemption is disabled
    PreemptionDisabled,
}

/// Memory-related errors.
#[derive(Debug, Clone, PartialEq, Eq)]
pub enum MemoryError {
    /// Out of memory
    OutOfMemory,
    /// Stack overflow detected
    StackOverflow,
    /// Stack underflow detected
    StackUnderflow,
    /// Invalid memory address
    InvalidAddress(usize),
    /// Memory alignment error
    AlignmentError,
    /// Memory pool exhausted
    PoolExhausted,
    /// Invalid memory layout
    InvalidLayout,
}

/// Timer and timing related errors.
#[derive(Debug, Clone, PartialEq, Eq)]
pub enum TimerError {
    /// Timer not initialized
    NotInitialized,
    /// Timer already running
    AlreadyRunning,
    /// Timer not running
    NotRunning,
    /// Invalid timer frequency
    InvalidFrequency(u32),
    /// Timer hardware not available
    HardwareNotAvailable,
    /// Invalid timer configuration
    InvalidConfig,
}

/// Architecture-specific errors.
#[derive(Debug, Clone, PartialEq, Eq)]
pub enum ArchError {
    /// Unsupported architecture
    UnsupportedArchitecture,
    /// Context switch failed
    ContextSwitchFailed,
    /// Invalid CPU state
    InvalidCpuState,
    /// Interrupt handling error
    InterruptError,
    /// FPU operation error
    FpuError,
    /// Invalid instruction
    InvalidInstruction,
}

/// Thread-local storage errors.
#[derive(Debug, Clone, PartialEq, Eq)]
pub enum TlsError {
    /// TLS key not found
    KeyNotFound,
    /// TLS storage exhausted
    StorageExhausted,
    /// Invalid TLS key
    InvalidKey,
    /// TLS data corrupted
    DataCorrupted,
    /// TLS not supported
    NotSupported,
}

/// Permission and security errors.
#[derive(Debug, Clone, PartialEq, Eq)]
pub enum PermissionError {
    /// Operation not permitted
    NotPermitted,
    /// Access denied
    AccessDenied,
    /// Insufficient privileges
    InsufficientPrivileges,
    /// Security policy violation
    SecurityViolation,
    /// Operation would compromise security
    SecurityRisk,
}

/// Resource limit errors.
#[derive(Debug, Clone, PartialEq, Eq)]
pub enum ResourceError {
    /// Maximum threads per process exceeded
    MaxThreadsPerProcess,
    /// Maximum threads per user exceeded
    MaxThreadsPerUser,
    /// Maximum memory usage exceeded
    MaxMemoryUsage,
    /// Maximum CPU time exceeded
    MaxCpuTime,
    /// Maximum file descriptors exceeded
    MaxFileDescriptors,
    /// Resource temporarily unavailable
    ResourceUnavailable,
}

/// Invalid operation errors.
#[derive(Debug, Clone, PartialEq, Eq)]
pub enum InvalidOperationError {
    /// Operation called on wrong thread
    WrongThread,
    /// Operation called in wrong state
    WrongState,
    /// Invalid parameter provided
    InvalidParameter(String),
    /// Operation not supported in current context
    NotSupported,
    /// Deadlock would occur
    WouldDeadlock,
    /// Operation already in progress
    AlreadyInProgress,
}

impl From<SpawnError> for ThreadError {
    fn from(error: SpawnError) -> (r: Self) {
        ThreadError::Spawn(error)
    }
}

impl vstd::std_specs::convert::FromSpecImpl<SpawnError> for ThreadError {
    open spec fn obeys_from_spec() -> bool {
        true
    }

    open spec fn from_spec(error: SpawnError) -> Self {
        ThreadError::Spawn(error)
    }
}

impl From<JoinError> for ThreadError {
    fn from(error: JoinError) -> (r: Self) {
        ThreadError::Join(error)
    }
}

impl vstd::std_specs::convert::FromSpecImpl<JoinError> for ThreadError {
    open spec fn obeys_from_spec() -> bool {
        true
    }

    open spec fn from_spec(error: JoinError) -> Self {
        ThreadError::Join(error)
    }
}

impl From<ScheduleError> for ThreadError {
    fn from(error: ScheduleError) -> (r: Self) {
        ThreadError::Schedule(error)
    }
}

impl vstd::std_specs::convert::FromSpecImpl<ScheduleError> for ThreadError {
    open spec fn obeys_from_spec() -> bool {
        true
    }

    open spec fn from_spec(error: ScheduleError) -> Self {
        ThreadError::Schedule(error)
    }
}

impl From<MemoryError> for ThreadError {
    fn from(error: MemoryError) -> (r: Self) {
        ThreadError::Memory(error)
    }
}

impl vstd::std_specs::convert::FromSpecImpl<MemoryError> for ThreadError {
    open spec fn obeys_from_spec() -> bool {
        true
    }

    open spec fn from_spec(error: MemoryError) -> Self {
        ThreadError::Memory(error)
    }
}

impl From<TimerError> for ThreadError {
    fn from(error: TimerError) -> (r: Self) {
        ThreadError::Timer(error)
    }
}

impl vstd::std_specs::convert::FromSpecImpl<TimerError> for ThreadError {
    open spec fn obeys_from_spec() -> bool {
        true
    }

    open spec fn from_spec(error: TimerError) -> Self {
        ThreadError::Timer(error)
    }
}

impl From<ArchError> for ThreadError {
    fn from(error: ArchError) -> (r: Self) {
        ThreadError::Arch(error)
    }
}

impl vstd::std_specs::convert::FromSpecImpl<ArchError> for ThreadError {
    open spec fn obeys_from_spec() -> bool {
        true
    }

    open spec fn from_spec(error: ArchError) -> Self {
        ThreadError::Arch(error)
    }
}

impl From<TlsError> for ThreadError {
    fn from(error: TlsError) -> (r: Self) {
        ThreadError::Tls(error)
    }
}

impl vstd::std_specs::convert::FromSpecImpl<TlsError> for ThreadError {
    open spec fn obeys_from_spec() -> bool {
        true
    }

    open spec fn from_spec(error: TlsError) -> Self {
        ThreadError::Tls(error)
    }
}

impl From<PermissionError> for ThreadError {
    fn from(error: PermissionError) -> (r: Self) {
        ThreadError::Permission(error)
    }
}

impl vstd::std_specs::convert::FromSpecImpl<PermissionError> for ThreadError {
    open spec fn obeys_from_spec() -> bool {
        true
    }

    open spec fn from_spec(error: PermissionError) -> Self {
        ThreadError::Permission(error)
    }
}

impl From<ResourceError> for ThreadError {
    fn from(error: ResourceError) -> (r: Self) {
        ThreadError::Resource(error)
    }
}

impl vstd::std_specs::convert::FromSpecImpl<ResourceError> for ThreadError {
    open spec fn obeys_from_spec() -> bool {
        true
    }

    open spec fn from_spec(error: ResourceError) -> Self {
        ThreadError::Resource(error)
    }
}

impl From<InvalidOperationError> for ThreadError {
    fn from(error: InvalidOperationError) -> (r: Self) {
        ThreadError::InvalidOperation(error)
    }
}

impl vstd::std_specs::convert::FromSpecImpl<InvalidOperationError> for ThreadError {
    open spec fn obeys_from_spec() -> bool {
        true
    }

    open spec fn from_spec(error: InvalidOperationError) -> Self {
        ThreadError::InvalidOperation(error)
    }
}

impl ThreadError {
    /// Create a memory error.
    pub fn memory_error() -> (r: Self)
        ensures
            r == ThreadError::Memory(MemoryError::OutOfMemory),
    {
        ThreadError::Memory(MemoryError::OutOfMemory)
    }

    /// Create a resource exhaustion error.
    pub fn resource_exhaustion() -> (r: Self)
        ensures
            r == ThreadError::Resource(ResourceError::ResourceUnavailable),
    {
        ThreadError::Resource(ResourceError::ResourceUnavailable)
    }

    /// Create an invalid state error.
    pub fn invalid_state() -> (r: Self)
        ensures
            r == ThreadError::Schedule(ScheduleError::InvalidState),
    {
        ThreadError::Schedule(ScheduleError::InvalidState)
    }

    /// Create a permission denied error.
    pub fn permission_denied() -> (r: Self)
        ensures
            r == ThreadError::Permission(PermissionError::AccessDenied),
    {
        ThreadError::Permission(PermissionError::AccessDenied)
    }

    /// Create an unsupported operation error.
    pub fn unsupported_operation(msg: String) -> (r: Self)
        ensures
            r == ThreadError::InvalidOperation(InvalidOperationError::InvalidParameter(msg)),
    {
        ThreadError::InvalidOperation(InvalidOperationError::InvalidParameter(msg))
    }

    /// Create a generic error with a message.
    pub fn other(msg: String) -> (r: Self)
        ensures
            r == ThreadError::InvalidOperation(InvalidOperationError::InvalidParameter(msg)),
    {
        ThreadError::InvalidOperation(InvalidOperationError::InvalidParameter(msg))
    }
}

} // verus!
