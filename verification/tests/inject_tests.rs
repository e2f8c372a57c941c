use waspinput::inject::{InjectOutcomes, InjectStep, Injector};

fn all_ok() -> InjectOutcomes {
    InjectOutcomes {
        process_opened: true,
        process_alive: true,
        loader_module_found: true,
        remote_alloc_ok: true,
        write_ok: true,
        loader_entry_found: true,
        thread_created: true,
        thread_completed: true,
    }
}

#[test]
fn inject_succeeds_when_every_primitive_succeeds() {
    let r = Injector::inject(&all_ok());
    assert!(r.success);
    assert_eq!(r.failed_step, None);
    assert!(r.close_process_handle);
    assert!(r.close_thread_handle);
    assert!(r.free_remote_memory);
}

#[test]
fn open_process_failure_acquires_nothing() {
    let o = InjectOutcomes { process_opened: false, ..all_ok() };
    let r = Injector::inject(&o);
    assert!(!r.success);
    assert_eq!(r.failed_step, Some(InjectStep::OpenProcess));
    assert!(!r.close_process_handle);
    assert!(!r.close_thread_handle);
    assert!(!r.free_remote_memory);
}

#[test]
fn dead_process_closes_its_handle() {
    let o = InjectOutcomes { process_alive: false, ..all_ok() };
    let r = Injector::inject(&o);
    assert!(!r.success);
    assert_eq!(r.failed_step, Some(InjectStep::ProcessAlive));
    assert!(r.close_process_handle);
    assert!(!r.close_thread_handle);
    assert!(!r.free_remote_memory);
}

#[test]
fn write_failure_frees_remote_memory() {
    let o = InjectOutcomes { write_ok: false, ..all_ok() };
    let r = Injector::inject(&o);
    assert!(!r.success);
    assert_eq!(r.failed_step, Some(InjectStep::WriteMemory));
    assert!(r.close_process_handle);
    assert!(r.free_remote_memory);
    assert!(!r.close_thread_handle);
}

#[test]
fn alloc_failure_frees_nothing() {
    let o = InjectOutcomes { remote_alloc_ok: false, ..all_ok() };
    let r = Injector::inject(&o);
    assert_eq!(r.failed_step, Some(InjectStep::RemoteAlloc));
    assert!(r.close_process_handle);
    assert!(!r.free_remote_memory);
}

#[test]
fn thread_timeout_still_releases_everything() {
    // The bounded wait on the remote thread ran out: the attempt fails, but
    // every acquired handle and the remote memory are released.
    let o = InjectOutcomes { thread_completed: false, ..all_ok() };
    let r = Injector::inject(&o);
    assert!(!r.success);
    assert_eq!(r.failed_step, Some(InjectStep::ThreadWait));
    assert!(r.close_process_handle);
    assert!(r.close_thread_handle);
    assert!(r.free_remote_memory);
}

#[test]
fn loader_entry_failure_releases_memory_and_handle() {
    let o = InjectOutcomes { loader_entry_found: false, ..all_ok() };
    let r = Injector::inject(&o);
    assert_eq!(r.failed_step, Some(InjectStep::LoaderEntry));
    assert!(r.close_process_handle && r.free_remote_memory && !r.close_thread_handle);
}

#[test]
fn remote_thread_failure_has_no_thread_handle() {
    let o = InjectOutcomes { thread_created: false, ..all_ok() };
    let r = Injector::inject(&o);
    assert_eq!(r.failed_step, Some(InjectStep::RemoteThread));
    assert!(r.close_process_handle && r.free_remote_memory && !r.close_thread_handle);
}

#[test]
fn first_failure_wins() {
    let o = InjectOutcomes { loader_module_found: false, thread_created: false, ..all_ok() };
    let r = Injector::inject(&o);
    assert_eq!(r.failed_step, Some(InjectStep::LoaderModule));
}
