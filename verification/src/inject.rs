//! The remote-injection bookkeeping: which primitive of the injection
//! sequence failed first, whether the attempt succeeded as a whole, and
//! which of the acquired resources must be released on each outcome.
//!
//! The sequence opens the target process, checks it is alive, resolves the
//! loader module, allocates remote memory, writes the module path into it,
//! resolves the loader entry point, starts the remote thread, and waits —
//! boundedly, never indefinitely — for it to finish.  A failure at any step
//! aborts the attempt and releases exactly the handles and memory acquired
//! so far.

use vstd::prelude::*;

verus! {

/// The outcome of each primitive of one injection attempt, in order.  A
/// value after the first failure is meaningless: the sequence stops there.
#[derive(Clone, Copy, Debug, PartialEq, Eq, Structural)]
pub struct InjectOutcomes {
    /// The target process opened.
    pub process_opened: bool,
    /// The zero-timeout wait says the process is still alive.
    pub process_alive: bool,
    /// The loader module was found.
    pub loader_module_found: bool,
    /// Remote memory for the module path was allocated.
    pub remote_alloc_ok: bool,
    /// The module path was written into the remote memory.
    pub write_ok: bool,
    /// The loader entry point was resolved.
    pub loader_entry_found: bool,
    /// The remote thread was created.
    pub thread_created: bool,
    /// The bounded wait saw the remote thread complete.
    pub thread_completed: bool,
}

/// The first primitive that failed.
#[derive(Clone, Copy, Debug, PartialEq, Eq, Structural)]
pub enum InjectStep {
    OpenProcess,
    ProcessAlive,
    LoaderModule,
    RemoteAlloc,
    WriteMemory,
    LoaderEntry,
    RemoteThread,
    ThreadWait,
}

/// The process handle was acquired.
pub open spec fn spec_opened(o: InjectOutcomes) -> bool {
    o.process_opened
}

/// The sequence got past the liveness check.
pub open spec fn spec_alive(o: InjectOutcomes) -> bool {
    spec_opened(o) && o.process_alive
}

/// The sequence got past resolving the loader module.
pub open spec fn spec_module_found(o: InjectOutcomes) -> bool {
    spec_alive(o) && o.loader_module_found
}

/// Remote memory was actually allocated.
pub open spec fn spec_allocated(o: InjectOutcomes) -> bool {
    spec_module_found(o) && o.remote_alloc_ok
}

/// The module path was actually written.
pub open spec fn spec_written(o: InjectOutcomes) -> bool {
    spec_allocated(o) && o.write_ok
}

/// The loader entry point was actually resolved.
pub open spec fn spec_entry_found(o: InjectOutcomes) -> bool {
    spec_written(o) && o.loader_entry_found
}

/// The remote thread handle was acquired.
pub open spec fn spec_thread_started(o: InjectOutcomes) -> bool {
    spec_entry_found(o) && o.thread_created
}

/// Every primitive succeeded.
pub open spec fn spec_inject_success(o: InjectOutcomes) -> bool {
    spec_thread_started(o) && o.thread_completed
}

/// What one injection attempt concluded: its overall result, the first
/// failing primitive, and exactly which acquired resources to release.
#[derive(Clone, Copy, Debug, PartialEq, Eq, Structural)]
pub struct InjectReport {
    /// The module was injected and the remote thread completed.
    pub success: bool,
    /// The first primitive that failed, to be logged; nothing on success.
    pub failed_step: Option<InjectStep>,
    /// Close the process handle (whenever the process was opened).
    pub close_process_handle: bool,
    /// Close the remote thread handle (whenever the thread was created).
    pub close_thread_handle: bool,
    /// Free the remote path memory (whenever it was allocated).
    pub free_remote_memory: bool,
}

/// Performs remote-thread injection of a module into a target process.
pub struct Injector;

impl Injector {
    /// Judges one injection attempt from its primitives' outcomes: the
    /// attempt succeeds exactly when every primitive succeeded; otherwise
    /// the first failing primitive is named.  Each resource is released
    /// exactly when it was acquired, whatever happened afterwards.
    pub fn inject(outcomes: &InjectOutcomes) -> (r: InjectReport)
        ensures
            r.success == spec_inject_success(*outcomes),
            r.close_process_handle == spec_opened(*outcomes),
            r.close_thread_handle == spec_thread_started(*outcomes),
            r.free_remote_memory == spec_allocated(*outcomes),
            r.failed_step is None <==> spec_inject_success(*outcomes),
            r.failed_step == Some(InjectStep::OpenProcess) <==> !outcomes.process_opened,
            r.failed_step == Some(InjectStep::ProcessAlive) <==> spec_opened(*outcomes)
                && !outcomes.process_alive,
            r.failed_step == Some(InjectStep::LoaderModule) <==> spec_alive(*outcomes)
                && !outcomes.loader_module_found,
            r.failed_step == Some(InjectStep::RemoteAlloc) <==> spec_module_found(*outcomes)
                && !outcomes.remote_alloc_ok,
            r.failed_step == Some(InjectStep::WriteMemory) <==> spec_allocated(*outcomes)
                && !outcomes.write_ok,
            r.failed_step == Some(InjectStep::LoaderEntry) <==> spec_written(*outcomes)
                && !outcomes.loader_entry_found,
            r.failed_step == Some(InjectStep::RemoteThread) <==> spec_entry_found(*outcomes)
                && !outcomes.thread_created,
            r.failed_step == Some(InjectStep::ThreadWait) <==> spec_thread_started(*outcomes)
                && !outcomes.thread_completed,
    {
        let failed_step: Option<InjectStep> = if !outcomes.process_opened {
            Some(InjectStep::OpenProcess)
        } else if !outcomes.process_alive {
            Some(InjectStep::ProcessAlive)
        } else if !outcomes.loader_module_found {
            Some(InjectStep::LoaderModule)
        } else if !outcomes.remote_alloc_ok {
            Some(InjectStep::RemoteAlloc)
        } else if !outcomes.write_ok {
            Some(InjectStep::WriteMemory)
        } else if !outcomes.loader_entry_found {
            Some(InjectStep::LoaderEntry)
        } else if !outcomes.thread_created {
            Some(InjectStep::RemoteThread)
        } else if !outcomes.thread_completed {
            Some(InjectStep::ThreadWait)
        } else {
            None
        };
        let opened = outcomes.process_opened;
        let thread_started = opened && outcomes.process_alive && outcomes.loader_module_found
            && outcomes.remote_alloc_ok && outcomes.write_ok && outcomes.loader_entry_found
            && outcomes.thread_created;
        let allocated = opened && outcomes.process_alive && outcomes.loader_module_found
            && outcomes.remote_alloc_ok;
        InjectReport {
            success: thread_started && outcomes.thread_completed,
            failed_step,
            close_process_handle: opened,
            close_thread_handle: thread_started,
            free_remote_memory: allocated,
        }
    }
}

} // verus!
