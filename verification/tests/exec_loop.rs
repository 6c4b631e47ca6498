use libnyx::aux::AuxResultView;
use libnyx::exec::{
    classify_result_code, exec_step, bringup_step, rendezvous_ops, ExecStep, BringupNext,
    NyxReturnValue, PageFaultTracker, RendezvousOp,
};

fn result_with(code: u8) -> AuxResultView {
    AuxResultView {
        state: 3,
        exec_done: 1,
        exec_result_code: code,
        reloaded: 0,
        pt_overflow: 0,
        page_not_found: 0,
        tmp_snapshot_created: 0,
        page_not_found_addr: 0,
        dirty_pages: 0,
        pt_trace_size: 0,
        bb_coverage: 0,
        runtime_usec: 0,
        runtime_sec: 0,
    }
}

#[test]
fn classify_covers_all_protocol_codes() {
    assert_eq!(classify_result_code(0), NyxReturnValue::Normal);
    assert_eq!(classify_result_code(1), NyxReturnValue::Crash);
    assert_eq!(classify_result_code(3), NyxReturnValue::Timeout);
    assert_eq!(classify_result_code(4), NyxReturnValue::InvalidWriteToPayload);
    assert_eq!(classify_result_code(5), NyxReturnValue::Abort);
    assert_eq!(classify_result_code(7), NyxReturnValue::Error);
    assert_eq!(classify_result_code(255), NyxReturnValue::Error);
}

#[test]
fn verdict_names() {
    assert_eq!(NyxReturnValue::Normal.name(), "Normal");
    assert_eq!(NyxReturnValue::Crash.name(), "Crash");
    assert_eq!(NyxReturnValue::Timeout.name(), "Timeout");
    assert_eq!(NyxReturnValue::InvalidWriteToPayload.name(), "InvalidWriteToPayload");
    assert_eq!(NyxReturnValue::Abort.name(), "Abort");
    assert_eq!(NyxReturnValue::Error.name(), "Error");
    assert_eq!(NyxReturnValue::IoError.name(), "Unknown");
}

#[test]
fn normal_iteration_finishes() {
    let mut t = PageFaultTracker::new();
    let r = result_with(0);
    assert_eq!(exec_step(&mut t, &r), ExecStep::Done { code: 0 });
    assert_eq!(classify_result_code(0), NyxReturnValue::Normal);
}

#[test]
fn hprintf_drains_then_normal() {
    let mut t = PageFaultTracker::new();
    assert_eq!(exec_step(&mut t, &result_with(2)), ExecStep::Hprintf);
    assert_eq!(exec_step(&mut t, &result_with(0)), ExecStep::Done { code: 0 });
}

#[test]
fn abort_ends_iteration_with_its_code() {
    let mut t = PageFaultTracker::new();
    assert_eq!(exec_step(&mut t, &result_with(5)), ExecStep::Done { code: 5 });
    assert_eq!(classify_result_code(5), NyxReturnValue::Abort);
}

#[test]
fn unknown_code_is_fatal() {
    let mut t = PageFaultTracker::new();
    assert_eq!(exec_step(&mut t, &result_with(9)), ExecStep::Fatal { code: 9 });
}

#[test]
fn page_fault_retried_once_then_ends() {
    let mut t = PageFaultTracker::new();
    let mut r = result_with(0);
    r.page_not_found = 1;
    r.page_not_found_addr = 0xDEADB000;
    assert_eq!(exec_step(&mut t, &r), ExecStep::DumpPage { addr: 0xDEADB000 });
    // the VM reports the very same address again: no further retry
    assert_eq!(exec_step(&mut t, &r), ExecStep::Done { code: 0 });
}

#[test]
fn page_fault_new_address_retries_again() {
    let mut t = PageFaultTracker::new();
    let mut r = result_with(0);
    r.page_not_found = 1;
    r.page_not_found_addr = 0x1000;
    assert_eq!(exec_step(&mut t, &r), ExecStep::DumpPage { addr: 0x1000 });
    r.page_not_found_addr = 0x2000;
    assert_eq!(exec_step(&mut t, &r), ExecStep::DumpPage { addr: 0x2000 });
    assert_eq!(exec_step(&mut t, &r), ExecStep::Done { code: 0 });
}

#[test]
fn bringup_waits_for_ready_state() {
    let mut r = result_with(0);
    r.state = 1;
    let s = bringup_step(&r);
    assert!(!s.emit_hprintf);
    assert_eq!(s.next, BringupNext::KickAgain);
    r.state = 3;
    assert_eq!(bringup_step(&r).next, BringupNext::Ready);
}

#[test]
fn bringup_drains_hprintf_and_goes_on() {
    let mut r = result_with(2);
    r.state = 1;
    let s = bringup_step(&r);
    assert!(s.emit_hprintf);
    assert_eq!(s.next, BringupNext::KickAgain);
}

#[test]
fn bringup_abort_kills_vm() {
    let r = result_with(5);
    assert_eq!(bringup_step(&r).next, BringupNext::Abort);
}

#[test]
fn bringup_unknown_code_is_fatal() {
    let r = result_with(4);
    assert_eq!(bringup_step(&r).next, BringupNext::Fatal { code: 4 });
}

#[test]
fn rendezvous_reads_only_after_barrier_after_wait() {
    let ops = rendezvous_ops();
    assert_eq!(
        ops,
        vec![
            RendezvousOp::Barrier,
            RendezvousOp::Kick,
            RendezvousOp::WaitReply,
            RendezvousOp::Barrier,
            RendezvousOp::ReadResults,
        ]
    );
    let wait = ops.iter().position(|o| *o == RendezvousOp::WaitReply).unwrap();
    let read = ops.iter().position(|o| *o == RendezvousOp::ReadResults).unwrap();
    assert!(ops.iter().filter(|o| **o == RendezvousOp::WaitReply).count() == 1);
    assert!(ops[wait + 1..read].contains(&RendezvousOp::Barrier));
}

#[test]
fn hprintf_line_is_captured_once_then_normal() {
    // the VM reports a log line in misc, then a clean result on the next kick
    let mut page = vec![0u8; 4096];
    page[898] = 2;
    page[1408] = 6;
    page[1410..1416].copy_from_slice(b"hello\n");
    let mut t = PageFaultTracker::new();
    let mut captured: Vec<u8> = Vec::new();
    match exec_step(&mut t, &libnyx::aux::read_result(&page)) {
        ExecStep::Hprintf => captured.extend(libnyx::aux::misc_payload(&page)),
        other => panic!("expected an hprintf drain, got {:?}", other),
    }
    page[898] = 0;
    match exec_step(&mut t, &libnyx::aux::read_result(&page)) {
        ExecStep::Done { code } => assert_eq!(classify_result_code(code), NyxReturnValue::Normal),
        other => panic!("expected the iteration to end, got {:?}", other),
    }
    assert_eq!(captured, b"hello\n");
}
