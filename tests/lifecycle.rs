use rsmi_wrapper::error::{with_status, RsmiError};
use rsmi_wrapper::flags::InitFlags;
use rsmi_wrapper::handle::{Lifecycle, Phase, INIT_ENTRY_POINT};

type InitFn = fn(u64) -> u32;
type CountFn = fn(&mut u32) -> u32;
type ShutdownFn = fn(&mut u32) -> u32;

fn stub_init_ok(_flags: u64) -> u32 {
    0
}

fn stub_init_permission(_flags: u64) -> u32 {
    4
}

fn stub_count_four(count: &mut u32) -> u32 {
    *count = 4;
    0
}

fn stub_shutdown(calls: &mut u32) -> u32 {
    *calls += 1;
    0
}

fn ready_lifecycle() -> Lifecycle {
    let mut l = Lifecycle::new();
    l.library_opened(Ok::<(), libloading::Error>(())).unwrap();
    let init: Result<InitFn, libloading::Error> = Ok(stub_init_ok);
    let (f, arg) = l.init_symbol(&init, InitFlags::empty()).unwrap();
    assert_eq!(arg, 0);
    l.init_returned(f(arg)).unwrap();
    l
}

/// Runs one exit path the way a handle does: only a ready handle calls shutdown.
fn exit(l: &mut Lifecycle, sym: &Result<ShutdownFn, libloading::Error>, calls: &mut u32) -> Result<(), RsmiError> {
    if !l.is_ready() {
        return Ok(());
    }
    let f = l.shutdown_symbol(sym)?;
    let status = f(calls);
    l.shutdown_returned(status)
}

#[test]
fn count_then_shutdown() {
    let mut l = ready_lifecycle();
    assert_eq!(l.phase(), Phase::Ready);
    let count_sym: Result<CountFn, libloading::Error> = Ok(stub_count_four);
    let count_fn = l.operation_symbol("rsmi_num_monitor_devices", &count_sym).unwrap();
    let mut count = 0u32;
    let status = count_fn(&mut count);
    assert_eq!(with_status(status, count).unwrap(), 4);
    let mut calls = 0u32;
    let shut: Result<ShutdownFn, libloading::Error> = Ok(stub_shutdown);
    assert!(exit(&mut l, &shut, &mut calls).is_ok());
    assert_eq!(calls, 1);
    assert_eq!(l.phase(), Phase::Closed);
    assert!(!l.holds_library());
}

#[test]
fn init_permission_denied_leaves_no_handle() {
    let mut l = Lifecycle::new();
    l.library_opened(Ok::<(), libloading::Error>(())).unwrap();
    let init: Result<InitFn, libloading::Error> = Ok(stub_init_permission);
    let (f, arg) = l.init_symbol(&init, InitFlags::all_gpus()).unwrap();
    assert_eq!(arg, 1);
    let r = l.init_returned(f(arg));
    assert!(matches!(r, Err(RsmiError::Permission)));
    assert_eq!(l.phase(), Phase::Closed);
    assert!(!l.holds_library());
    assert!(!l.is_ready());
}

#[test]
fn load_failure_leaves_nothing_open() {
    let mut l = Lifecycle::new();
    let r = l.library_opened(Err::<(), libloading::Error>(libloading::Error::DlOpenUnknown));
    assert!(matches!(r, Err(RsmiError::LibloadingError(_))));
    assert_eq!(l.phase(), Phase::Closed);
    assert!(!l.holds_library());
}

#[test]
fn missing_init_symbol_leaves_no_handle() {
    let mut l = Lifecycle::new();
    l.library_opened(Ok::<(), libloading::Error>(())).unwrap();
    assert!(l.holds_library());
    let init: Result<InitFn, libloading::Error> = Err(libloading::Error::DlSymUnknown);
    match l.init_symbol(&init, InitFlags::empty()) {
        Err(RsmiError::FailedToLoadSymbol(msg)) => assert!(msg.starts_with(INIT_ENTRY_POINT)),
        other => panic!("unexpected result: {:?}", other.map(|_| ())),
    }
    assert_eq!(l.phase(), Phase::Closed);
    assert!(!l.holds_library());
}

#[test]
fn shutdown_runs_at_most_once() {
    let mut l = ready_lifecycle();
    let mut calls = 0u32;
    let shut: Result<ShutdownFn, libloading::Error> = Ok(stub_shutdown);
    assert!(exit(&mut l, &shut, &mut calls).is_ok());
    // A later exit, as when the handle goes out of scope, calls nothing.
    assert!(exit(&mut l, &shut, &mut calls).is_ok());
    assert_eq!(calls, 1);
}

#[test]
fn failed_shutdown_still_closes() {
    let mut l = ready_lifecycle();
    let shut: Result<ShutdownFn, libloading::Error> = Ok(stub_shutdown);
    let _ = l.shutdown_symbol(&shut).unwrap();
    assert_eq!(l.phase(), Phase::ShuttingDown);
    assert!(matches!(l.shutdown_returned(16), Err(RsmiError::Busy)));
    assert_eq!(l.phase(), Phase::Closed);
    assert!(!l.holds_library());
}

#[test]
fn missing_shutdown_symbol_closes_without_call() {
    let mut l = ready_lifecycle();
    let mut calls = 0u32;
    let shut: Result<ShutdownFn, libloading::Error> = Err(libloading::Error::DlSymUnknown);
    match exit(&mut l, &shut, &mut calls) {
        Err(RsmiError::FailedToLoadSymbol(msg)) => assert!(msg.starts_with("rsmi_shut_down: ")),
        other => panic!("unexpected result: {:?}", other),
    }
    assert_eq!(calls, 0);
    assert_eq!(l.phase(), Phase::Closed);
    assert!(!l.holds_library());
}

#[test]
fn missing_operation_symbol_leaves_handle_ready() {
    let l = ready_lifecycle();
    let absent: Result<CountFn, libloading::Error> = Err(libloading::Error::DlSymUnknown);
    assert!(matches!(l.operation_symbol("rsmi_dev_id_get", &absent), Err(RsmiError::FailedToLoadSymbol(_))));
    assert!(l.is_ready());
    let present: Result<CountFn, libloading::Error> = Ok(stub_count_four);
    let f = l.operation_symbol("rsmi_num_monitor_devices", &present).unwrap();
    let mut count = 0u32;
    let status = f(&mut count);
    assert_eq!(with_status(status, count).unwrap(), 4);
}
