//! Thread builder for configuring thread creation.

use vstd::prelude::*;
use super::{Thread, JoinHandle, ThreadId};
use crate::errors::SpawnError;
use crate::mem::stack_pool::{StackPool, StackSizeClass, DEFAULT_STACK_CANARY, word_at_top};
use crate::time::{Duration, quantum_for};
use vstd::utf8::encode_utf8;

verus! {

/// Builder for configuring and creating new threads: stack sizing, priority,
/// naming, canary protection, scheduling attributes and resource limits.
pub struct ThreadBuilder {
    /// Stack size class to use.
    pub stack_size_class: Option<StackSizeClass>,
    /// Custom stack size in bytes.
    pub custom_stack_size: Option<usize>,
    /// Thread priority (0-255, higher = more important).
    pub priority: u8,
    /// Thread name (for debugging and profiling).
    pub name: Option<String>,
    /// CPU affinity mask (bitfield of allowed CPUs).
    pub cpu_affinity: Option<u64>,
    /// Thread group ID for resource accounting.
    pub group_id: Option<u32>,
    /// Whether to enable stack guard pages (needs an MMU; unused here).
    pub stack_guard_pages: bool,
    /// Whether to enable stack canary protection.
    pub stack_canary: bool,
    /// Custom stack canary value.
    pub custom_canary: Option<u64>,
    /// Time slice duration override.
    pub time_slice: Option<Duration>,
    /// Whether this thread is critical.
    pub critical: bool,
    /// Whether this thread can be preempted.
    pub preemptible: bool,
    /// Thread-local storage size reservation.
    pub tls_size: Option<usize>,
    /// Whether to keep detailed debugging info.
    pub debug_info: bool,
    /// Custom thread attributes.
    pub attributes: ThreadAttributes,
}

/// Custom thread attributes for advanced configuration.
#[derive(Debug, Clone)]
pub struct ThreadAttributes {
    /// Real-time scheduling priority.
    pub rt_priority: Option<u8>,
    /// Nice value for process priority.
    pub nice_value: i8,
    /// Whether to inherit the parent's signal mask.
    pub inherit_signal_mask: bool,
    /// Custom environment variables.
    pub environment: Option<Vec<(String, String)>>,
    /// Resource limits.
    pub limits: ResourceLimits,
}

/// Resource limits for threads.
#[derive(Debug, Clone)]
pub struct ResourceLimits {
    /// Maximum CPU time (in nanoseconds).
    pub max_cpu_time: Option<u64>,
    /// Maximum memory usage (in bytes).
    pub max_memory: Option<usize>,
    /// Maximum number of file descriptors.
    pub max_files: Option<u32>,
    /// Maximum number of child threads.
    pub max_children: Option<u32>,
}

/// The default attribute set: no real-time priority, neutral nice value,
/// inherited signal mask, no environment and no limits.
pub open spec fn default_attributes() -> ThreadAttributes {
    ThreadAttributes {
        rt_priority: None,
        nice_value: 0i8,
        inherit_signal_mask: true,
        environment: None,
        limits: ResourceLimits {
            max_cpu_time: None,
            max_memory: None,
            max_files: None,
            max_children: None,
        },
    }
}

/// A configured name is invalid when it is longer than 64 bytes.
pub open spec fn name_invalid(b: &ThreadBuilder) -> bool {
    match b.name {
        Some(n) => encode_utf8(n@).len() as usize > 64,
        None => false,
    }
}

/// A configured affinity mask is invalid when it allows no CPU at all.
pub open spec fn affinity_invalid(b: &ThreadBuilder) -> bool {
    b.cpu_affinity == Some(0u64)
}

/// A custom stack size is invalid outside 4 KiB ..= 16 MiB.
pub open spec fn stack_size_invalid(b: &ThreadBuilder) -> bool {
    match b.custom_stack_size {
        Some(cs) => cs < 4096 || cs > 16777216,
        None => false,
    }
}

/// The size class a builder's configuration selects: the closest class for
/// a custom size, the configured class otherwise, and Small by default.
pub open spec fn chosen_class(b: &ThreadBuilder) -> StackSizeClass {
    match b.custom_stack_size {
        Some(cs) => if cs <= 16384 {
            StackSizeClass::Small
        } else if cs <= 65536 {
            StackSizeClass::Medium
        } else if cs <= 262144 {
            StackSizeClass::Large
        } else {
            StackSizeClass::ExtraLarge
        },
        None => match b.stack_size_class {
            Some(c) => c,
            None => StackSizeClass::Small,
        },
    }
}

/// The canary the builder installs when canary protection is on.
pub open spec fn chosen_canary(b: &ThreadBuilder) -> u64 {
    match b.custom_canary {
        Some(c) => c,
        None => DEFAULT_STACK_CANARY,
    }
}

impl ThreadBuilder {
    /// Create a new thread builder with default settings.
    pub fn new() -> (r: Self)
        ensures
            r.stack_size_class is None,
            r.custom_stack_size is None,
            r.priority == 128,
            r.name is None,
            r.cpu_affinity is None,
            r.group_id is None,
            !r.stack_guard_pages,
            r.stack_canary,
            r.custom_canary is None,
            r.time_slice is None,
            !r.critical,
            r.preemptible,
            r.tls_size is None,
            !r.debug_info,
            r.attributes == default_attributes(),
    {
        ThreadBuilder {
            stack_size_class: None,
            custom_stack_size: None,
            priority: 128,
            name: None,
            cpu_affinity: None,
            group_id: None,
            stack_guard_pages: false,
            stack_canary: true,
            custom_canary: None,
            time_slice: None,
            critical: false,
            preemptible: true,
            tls_size: None,
            debug_info: false,
            attributes: ThreadAttributes {
                rt_priority: None,
                nice_value: 0,
                inherit_signal_mask: true,
                environment: None,
                limits: ResourceLimits {
                    max_cpu_time: None,
                    max_memory: None,
                    max_files: None,
                    max_children: None,
                },
            },
        }
    }

    /// Set the stack size class for the thread.
    pub fn stack_size_class(self, size_class: StackSizeClass) -> (r: Self)
        ensures
            r == (ThreadBuilder {
                stack_size_class: Some(size_class),
                custom_stack_size: None,
                ..self
            }),
    {
        ThreadBuilder { stack_size_class: Some(size_class), custom_stack_size: None, ..self }
    }

    /// Set the stack size in bytes.
    pub fn stack_size(self, size: usize) -> (r: Self)
        ensures
            r == (ThreadBuilder { custom_stack_size: Some(size), stack_size_class: None, ..self }),
    {
        ThreadBuilder { custom_stack_size: Some(size), stack_size_class: None, ..self }
    }

    /// Set the thread priority.
    pub fn priority(self, priority: u8) -> (r: Self)
        ensures
            r == (ThreadBuilder { priority, ..self }),
    {
        ThreadBuilder { priority, ..self }
    }

    /// Set the thread name for debugging purposes.
    pub fn name(self, name: String) -> (r: Self)
        ensures
            r == (ThreadBuilder { name: Some(name), ..self }),
    {
        ThreadBuilder { name: Some(name), ..self }
    }

    /// Set the CPU affinity mask.
    pub fn cpu_affinity(self, mask: u64) -> (r: Self)
        ensures
            r == (ThreadBuilder { cpu_affinity: Some(mask), ..self }),
    {
        ThreadBuilder { cpu_affinity: Some(mask), ..self }
    }

    /// Set the thread group ID for resource accounting.
    pub fn group_id(self, group: u32) -> (r: Self)
        ensures
            r == (ThreadBuilder { group_id: Some(group), ..self }),
    {
        ThreadBuilder { group_id: Some(group), ..self }
    }

    /// Enable or disable stack guard pages.
    pub fn stack_guard_pages(self, enabled: bool) -> (r: Self)
        ensures
            r == (ThreadBuilder { stack_guard_pages: enabled, ..self }),
    {
        ThreadBuilder { stack_guard_pages: enabled, ..self }
    }

    /// Enable or disable stack canary protection.
    pub fn stack_canary(self, enabled: bool) -> (r: Self)
        ensures
            r == (ThreadBuilder { stack_canary: enabled, ..self }),
    {
        ThreadBuilder { stack_canary: enabled, ..self }
    }

    /// Set a custom stack canary value (and turn canary protection on).
    pub fn custom_canary(self, canary: u64) -> (r: Self)
        ensures
            r == (ThreadBuilder { custom_canary: Some(canary), stack_canary: true, ..self }),
    {
        ThreadBuilder { custom_canary: Some(canary), stack_canary: true, ..self }
    }

    /// Set a custom time slice duration.
    pub fn time_slice(self, duration: Duration) -> (r: Self)
        ensures
            r == (ThreadBuilder { time_slice: Some(duration), ..self }),
    {
        ThreadBuilder { time_slice: Some(duration), ..self }
    }

    /// Mark this thread as critical.
    pub fn critical(self, critical: bool) -> (r: Self)
        ensures
            r == (ThreadBuilder { critical, ..self }),
    {
        ThreadBuilder { critical, ..self }
    }

    /// Set whether this thread can be preempted.
    pub fn preemptible(self, preemptible: bool) -> (r: Self)
        ensures
            r == (ThreadBuilder { preemptible, ..self }),
    {
        ThreadBuilder { preemptible, ..self }
    }

    /// Reserve space for thread-local storage.
    pub fn tls_size(self, size: usize) -> (r: Self)
        ensures
            r == (ThreadBuilder { tls_size: Some(size), ..self }),
    {
        ThreadBuilder { tls_size: Some(size), ..self }
    }

    /// Enable or disable detailed debugging information.
    pub fn debug_info(self, enabled: bool) -> (r: Self)
        ensures
            r == (ThreadBuilder { debug_info: enabled, ..self }),
    {
        ThreadBuilder { debug_info: enabled, ..self }
    }

    /// Set custom thread attributes.
    pub fn attributes(self, attributes: ThreadAttributes) -> (r: Self)
        ensures
            r == (ThreadBuilder { attributes, ..self }),
    {
        ThreadBuilder { attributes, ..self }
    }

    /// Spawn a new thread with the configured parameters.
    ///
    /// Validates the configuration, allocates a stack of the selected class
    /// from the pool, installs the canary when requested, and builds the
    /// thread record with every configured attribute applied.  Each
    /// validation failure reports its own error; allocation fails with
    /// `OutOfMemory` exactly when the pool is at capacity.
    #[verifier::rlimit(100)]
    #[verifier::spinoff_prover]
    pub fn spawn(self, thread_id: ThreadId, stack_pool: &mut StackPool, entry_point: usize) -> (r:
        Result<(Thread, JoinHandle), SpawnError>)
        requires
            thread_id.wf(),
            entry_point != 0,
            old(stack_pool).wf(),
        ensures
            final(stack_pool).wf(),
            final(stack_pool).capacity == old(stack_pool).capacity,
            name_invalid(&self) ==> r == Err::<(Thread, JoinHandle), SpawnError>(
                SpawnError::InvalidName(self.name->Some_0),
            ) && *final(stack_pool) == *old(stack_pool),
            !name_invalid(&self) && affinity_invalid(&self) ==> r == Err::<
                (Thread, JoinHandle),
                SpawnError,
            >(SpawnError::InvalidAffinity(0)) && *final(stack_pool) == *old(stack_pool),
            !name_invalid(&self) && !affinity_invalid(&self) && stack_size_invalid(&self) ==> r
                == Err::<(Thread, JoinHandle), SpawnError>(
                SpawnError::InvalidStackSize(self.custom_stack_size->Some_0),
            ) && *final(stack_pool) == *old(stack_pool),
            !name_invalid(&self) && !affinity_invalid(&self) && !stack_size_invalid(&self) ==> (
            match r {
                Ok(pair) => {
                    &&& old(stack_pool).in_use@ < old(stack_pool).capacity
                    &&& final(stack_pool).in_use@ == old(stack_pool).in_use@ + 1
                    &&& pair.0.wf()
                    &&& pair.0.context_ready()
                    &&& pair.0.id == thread_id
                    &&& pair.0.state is Ready
                    &&& pair.0.priority == self.priority
                    &&& pair.0.entry_point == entry_point
                    &&& match pair.0.stack {
                        Some(s) => s.wf() && s.size_class == chosen_class(&self) && (
                        self.stack_canary ==> word_at_top(s.memory@) == chosen_canary(&self) as int),
                        None => false,
                    }
                    &&& !pair.0.joined
                    &&& pair.0.name == self.name
                    &&& pair.0.cpu_affinity == (match self.cpu_affinity {
                        Some(a) => a,
                        None => 0u64,
                    })
                    &&& pair.0.group_id == (match self.group_id {
                        Some(g) => g,
                        None => 0u32,
                    })
                    &&& pair.0.time_slice.quantum == (match self.time_slice {
                        Some(d) => d.0,
                        None => quantum_for(self.priority),
                    })
                    &&& pair.0.critical == self.critical
                    &&& pair.0.preemptible == self.preemptible
                    &&& pair.0.tls_size == (match self.tls_size {
                        Some(t) => t,
                        None => 0usize,
                    })
                    &&& pair.0.debug_info == self.debug_info
                    &&& pair.0.rt_priority == (match self.attributes.rt_priority {
                        Some(p) => p,
                        None => 0u8,
                    })
                    &&& pair.0.nice_value == self.attributes.nice_value
                    &&& pair.0.inherit_signal_mask == self.attributes.inherit_signal_mask
                    &&& pair.0.environment == self.attributes.environment
                    &&& pair.0.max_cpu_time == (match self.attributes.limits.max_cpu_time {
                        Some(v) => v,
                        None => 0u64,
                    })
                    &&& pair.0.max_memory == (match self.attributes.limits.max_memory {
                        Some(v) => v,
                        None => 0usize,
                    })
                    &&& pair.0.max_files == (match self.attributes.limits.max_files {
                        Some(v) => v,
                        None => 0u32,
                    })
                    &&& pair.0.max_children == (match self.attributes.limits.max_children {
                        Some(v) => v,
                        None => 0u32,
                    })
                    &&& pair.1.thread_id == thread_id
                },
                Err(e) => e == SpawnError::OutOfMemory && old(stack_pool).in_use@ >= old(
                    stack_pool,
                ).capacity && *final(stack_pool) == *old(stack_pool),
            }),
    {
        let ThreadBuilder {
            stack_size_class,
            custom_stack_size,
            priority,
            name,
            cpu_affinity,
            group_id,
            stack_guard_pages: _,
            stack_canary,
            custom_canary,
            time_slice,
            critical,
            preemptible,
            tls_size,
            debug_info,
            attributes,
        } = self;
        let ThreadAttributes { rt_priority, nice_value, inherit_signal_mask, environment, limits } =
            attributes;
        let ResourceLimits { max_cpu_time, max_memory, max_files, max_children } = limits;

        let name_opt: Option<String> = match name {
            Some(n) => {
                if n.as_str().len() > 64 {
                    return Err(SpawnError::InvalidName(n));
                }
                Some(n)
            },
            None => None,
        };

        if let Some(affinity) = cpu_affinity {
            if affinity == 0 {
                return Err(SpawnError::InvalidAffinity(affinity));
            }
        }

        if let Some(custom_size) = custom_stack_size {
            if custom_size < 4096 || custom_size > 16777216 {
                return Err(SpawnError::InvalidStackSize(custom_size));
            }
        }

        let size_class: StackSizeClass = match custom_stack_size {
            Some(cs) => {
                if cs <= 16384 {
                    StackSizeClass::Small
                } else if cs <= 65536 {
                    StackSizeClass::Medium
                } else if cs <= 262144 {
                    StackSizeClass::Large
                } else {
                    StackSizeClass::ExtraLarge
                }
            },
            None => match stack_size_class {
                Some(c) => c,
                None => StackSizeClass::Small,
            },
        };

        let mut stack = match stack_pool.allocate(size_class) {
            Some(s) => s,
            None => {
                return Err(SpawnError::OutOfMemory);
            },
        };

        if stack_canary {
            let canary_value = match custom_canary {
                Some(c) => c,
                None => DEFAULT_STACK_CANARY,
            };
            stack.install_canary(canary_value);
        }

        let stack_bottom = stack.stack_bottom();
        let mut ts = crate::time::TimeSlice::new(priority);
        if let Some(duration) = time_slice {
            ts.set_custom_duration(duration);
        }
        let mut thread = Thread {
            id: thread_id,
            state: super::ThreadState::Ready,
            priority,
            stack: Some(stack),
            context: crate::arch::aarch64::Aarch64Context::default(),
            entry_point,
            join_result: None,
            joined: false,
            time_slice: ts,
            name: name_opt,
            cpu_affinity: match cpu_affinity {
                Some(a) => a,
                None => 0,
            },
            group_id: match group_id {
                Some(g) => g,
                None => 0,
            },
            critical,
            preemptible,
            tls_size: match tls_size {
                Some(t) => t,
                None => 0,
            },
            debug_info,
            rt_priority: match rt_priority {
                Some(p) => p,
                None => 0,
            },
            nice_value,
            inherit_signal_mask,
            environment,
            max_cpu_time: match max_cpu_time {
                Some(v) => v,
                None => 0,
            },
            max_memory: match max_memory {
                Some(v) => v,
                None => 0,
            },
            max_files: match max_files {
                Some(v) => v,
                None => 0,
            },
            max_children: match max_children {
                Some(v) => v,
                None => 0,
            },
        };
        thread.setup_initial_context(entry_point, stack_bottom, 0);
        let join_handle = JoinHandle { thread_id };

        Ok((thread, join_handle))
    }
}

impl Default for ThreadBuilder {
    fn default() -> (r: Self)
        ensures
            r.priority == 128,
            r.stack_canary,
            r.attributes == default_attributes(),
    {
        ThreadBuilder::new()
    }
}

impl Default for ThreadAttributes {
    fn default() -> (r: Self)
        ensures
            r == default_attributes(),
    {
        ThreadAttributes {
            rt_priority: None,
            nice_value: 0,
            inherit_signal_mask: true,
            environment: None,
            limits: ResourceLimits {
                max_cpu_time: None,
                max_memory: None,
                max_files: None,
                max_children: None,
            },
        }
    }
}

impl Default for ResourceLimits {
    fn default() -> (r: Self)
        ensures
            r.max_cpu_time is None,
            r.max_memory is None,
            r.max_files is None,
            r.max_children is None,
    {
        ResourceLimits { max_cpu_time: None, max_memory: None, max_files: None, max_children: None }
    }
}

} // verus!
