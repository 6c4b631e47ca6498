//! The execution-loop protocol: verdict classification, the readiness
//! machine driven during VM bring-up, the per-iteration decision step with
//! its missing-page recovery, and the rendezvous ordering discipline.
//!
//! The embedding application owns the control socket and the live mappings;
//! it performs one rendezvous per decision (barrier, kick, wait, barrier),
//! reads the result region back into the page shadow, and asks the step
//! functions here what to do next. Every decision of the loop is taken
//! here, under contract.

use vstd::prelude::*;
use crate::aux::{AuxResultView, NYX_SUCCESS, NYX_CRASH, NYX_HPRINTF, NYX_TIMEOUT, NYX_INPUT_WRITE,
    NYX_ABORT, AuxConfigView, spec_config, only_config_changed, config_set_page_addr,
    config_set_page_dump_mode, config_set_changed, config_set_reload_mode, config_set_timeout};

verus! {

/// The one-byte execute request the host writes on the control socket to
/// kick an iteration.
pub const EXEC_REQUEST_BYTE: u8 = 120;

/// The verdict of one fuzzing iteration, as handed to the harness.
#[derive(Clone, Copy, Debug, PartialEq, Eq, Structural)]
pub enum NyxReturnValue {
    Normal,
    Crash,
    Asan,
    Timeout,
    InvalidWriteToPayload,
    Error,
    IoError,
    Abort,
}

impl NyxReturnValue {
    /// A short printable name for the verdict.
    pub fn name(&self) -> (r: &'static str)
        ensures
            *self is Normal ==> r@ == "Normal"@,
            *self is Crash ==> r@ == "Crash"@,
            *self is Timeout ==> r@ == "Timeout"@,
            *self is InvalidWriteToPayload ==> r@ == "InvalidWriteToPayload"@,
            *self is Abort ==> r@ == "Abort"@,
            *self is Error ==> r@ == "Error"@,
            *self is Asan || *self is IoError ==> r@ == "Unknown"@,
    {
        match self {
            NyxReturnValue::Normal => "Normal",
            NyxReturnValue::Crash => "Crash",
            NyxReturnValue::Timeout => "Timeout",
            NyxReturnValue::InvalidWriteToPayload => "InvalidWriteToPayload",
            NyxReturnValue::Abort => "Abort",
            NyxReturnValue::Error => "Error",
            _ => "Unknown",
        }
    }
}

/// The verdict that a result code maps to once an iteration has completed.
/// Codes outside the protocol map to `Error`.
pub open spec fn spec_classify(code: u8) -> NyxReturnValue {
    if code == NYX_SUCCESS {
        NyxReturnValue::Normal
    } else if code == NYX_CRASH {
        NyxReturnValue::Crash
    } else if code == NYX_TIMEOUT {
        NyxReturnValue::Timeout
    } else if code == NYX_INPUT_WRITE {
        NyxReturnValue::InvalidWriteToPayload
    } else if code == NYX_ABORT {
        NyxReturnValue::Abort
    } else {
        NyxReturnValue::Error
    }
}

/// Maps a completed iteration's result code to its verdict.
pub fn classify_result_code(code: u8) -> (r: NyxReturnValue)
    ensures
        r == spec_classify(code),
{
    if code == NYX_SUCCESS {
        NyxReturnValue::Normal
    } else if code == NYX_CRASH {
        NyxReturnValue::Crash
    } else if code == NYX_TIMEOUT {
        NyxReturnValue::Timeout
    } else if code == NYX_INPUT_WRITE {
        NyxReturnValue::InvalidWriteToPayload
    } else if code == NYX_ABORT {
        NyxReturnValue::Abort
    } else {
        NyxReturnValue::Error
    }
}

/// Missing-page recovery state: the last faulting address the host asked the
/// VM to dump. A fresh iteration starts with the tracker at zero.
#[derive(Clone, Copy, Debug, PartialEq, Eq, Structural)]
pub struct PageFaultTracker {
    pub last_addr: u64,
}

impl PageFaultTracker {
    /// A tracker for a fresh iteration: no page dumped yet.
    pub fn new() -> (r: PageFaultTracker)
        ensures
            r.last_addr == 0,
    {
        PageFaultTracker { last_addr: 0 }
    }
}

/// What the execution loop does after inspecting one rendezvous result.
#[derive(Clone, Copy, Debug, PartialEq, Eq, Structural)]
pub enum ExecStep {
    /// Stage the faulting address with page-dump mode and kick again.
    DumpPage { addr: u64 },
    /// Drain the misc region to the hprintf destination and kick again.
    Hprintf,
    /// The iteration is over; `code` classifies it.
    Done { code: u8 },
    /// Protocol violation: a result code outside the protocol.
    Fatal { code: u8 },
}

/// The decision table of the per-iteration loop. A missing page whose
/// address differs from the last dumped one is retried; a missing page at
/// the address already dumped falls through to the result code, which ends
/// the iteration unless it asks for an hprintf drain.
pub open spec fn spec_exec_step(last_addr: u64, r: AuxResultView) -> ExecStep {
    if r.page_not_found != 0 && r.page_not_found_addr != last_addr {
        ExecStep::DumpPage { addr: r.page_not_found_addr }
    } else if r.exec_result_code == NYX_HPRINTF {
        ExecStep::Hprintf
    } else if r.exec_result_code == NYX_SUCCESS || r.exec_result_code == NYX_CRASH
        || r.exec_result_code == NYX_TIMEOUT || r.exec_result_code == NYX_INPUT_WRITE
        || r.exec_result_code == NYX_ABORT {
        ExecStep::Done { code: r.exec_result_code }
    } else {
        ExecStep::Fatal { code: r.exec_result_code }
    }
}

/// Takes one decision of the per-iteration loop and records a dumped
/// address in the tracker.
pub fn exec_step(t: &mut PageFaultTracker, r: &AuxResultView) -> (s: ExecStep)
    ensures
        s == spec_exec_step(old(t).last_addr, *r),
        s is DumpPage ==> final(t).last_addr == r.page_not_found_addr,
        !(s is DumpPage) ==> *final(t) == *old(t),
{
    if r.page_not_found != 0 && r.page_not_found_addr != t.last_addr {
        t.last_addr = r.page_not_found_addr;
        ExecStep::DumpPage { addr: r.page_not_found_addr }
    } else if r.exec_result_code == NYX_HPRINTF {
        ExecStep::Hprintf
    } else if r.exec_result_code == NYX_SUCCESS || r.exec_result_code == NYX_CRASH
        || r.exec_result_code == NYX_TIMEOUT || r.exec_result_code == NYX_INPUT_WRITE
        || r.exec_result_code == NYX_ABORT {
        ExecStep::Done { code: r.exec_result_code }
    } else {
        ExecStep::Fatal { code: r.exec_result_code }
    }
}

/// Missing-page recovery cannot loop on one address: once a faulting address
/// has been dumped and recorded, a later result that reports the same
/// address is never dumped again, so a run of rendezvous all faulting on one
/// address ends after at most two of them.
pub proof fn lemma_page_fault_termination(last_addr: u64, r1: AuxResultView, r2: AuxResultView)
    requires
        spec_exec_step(last_addr, r1) is DumpPage,
        r2.page_not_found_addr == r1.page_not_found_addr,
    ensures
        !(spec_exec_step(r1.page_not_found_addr, r2) is DumpPage),
{
}

/// The tracker value after one decision: a dump records the faulting
/// address, anything else leaves the tracker alone.
pub open spec fn spec_tracker_after(prev: u64, r: AuxResultView) -> u64 {
    if spec_exec_step(prev, r) is DumpPage {
        r.page_not_found_addr
    } else {
        prev
    }
}

/// The tracker value after a run of decisions.
pub open spec fn spec_run_tracker(init: u64, rs: Seq<AuxResultView>) -> u64
    decreases rs.len(),
{
    if rs.len() == 0 {
        init
    } else {
        spec_run_tracker(spec_tracker_after(init, rs[0]), rs.drop_first())
    }
}

/// One more decision at the end of a run advances the tracker by one step.
proof fn lemma_run_tracker_snoc(init: u64, rs: Seq<AuxResultView>, r: AuxResultView)
    ensures
        spec_run_tracker(init, rs.push(r)) == spec_tracker_after(spec_run_tracker(init, rs), r),
    decreases rs.len(),
{
    if rs.len() == 0 {
        assert(rs.push(r)[0] == r);
        assert(rs.push(r).drop_first() =~= rs);
        assert(spec_run_tracker(init, rs) == init);
        assert(spec_run_tracker(init, rs.push(r)) == spec_run_tracker(
            spec_tracker_after(init, r),
            rs,
        ));
        assert(spec_run_tracker(spec_tracker_after(init, r), rs) == spec_tracker_after(init, r));
    } else {
        assert(rs.push(r)[0] == rs[0]);
        assert(rs.push(r).drop_first() =~= rs.drop_first().push(r));
        lemma_run_tracker_snoc(spec_tracker_after(init, rs[0]), rs.drop_first(), r);
        assert(spec_run_tracker(init, rs.push(r)) == spec_run_tracker(
            spec_tracker_after(init, rs[0]),
            rs.drop_first().push(r),
        ));
        assert(spec_run_tracker(init, rs) == spec_run_tracker(
            spec_tracker_after(init, rs[0]),
            rs.drop_first(),
        ));
    }
}

/// Once the tracker holds the one address a run keeps faulting on, it keeps
/// holding it.
proof fn lemma_run_tracker_stable(a: u64, rs: Seq<AuxResultView>)
    requires
        forall|k: int| 0 <= k < rs.len() ==> rs[k].page_not_found_addr == a,
    ensures
        spec_run_tracker(a, rs) == a,
    decreases rs.len(),
{
    if rs.len() > 0 {
        assert(spec_tracker_after(a, rs[0]) == a);
        lemma_run_tracker_stable(a, rs.drop_first());
    }
}

/// Over any run of rendezvous results that all fault on one address, the
/// page is dumped at most once: once some decision dumped it, every later
/// decision of the run falls through to the result code, so the iteration
/// ends after at most two retries of that address.
pub proof fn lemma_fault_run_dumps_once(
    init: u64,
    rs: Seq<AuxResultView>,
    a: u64,
    i: int,
    j: int,
)
    requires
        forall|k: int| 0 <= k < rs.len() ==> rs[k].page_not_found_addr == a,
        0 <= i < j < rs.len(),
        spec_exec_step(spec_run_tracker(init, rs.subrange(0, i)), rs[i]) is DumpPage,
    ensures
        !(spec_exec_step(spec_run_tracker(init, rs.subrange(0, j)), rs[j]) is DumpPage),
{
    let pre = rs.subrange(0, i + 1);
    assert(rs.subrange(0, i).push(rs[i]) =~= pre);
    lemma_run_tracker_snoc(init, rs.subrange(0, i), rs[i]);
    assert(spec_run_tracker(init, pre) == a);
    let mid = rs.subrange(i + 1, j);
    assert(forall|k: int| 0 <= k < mid.len() ==> mid[k].page_not_found_addr == a);
    lemma_run_tracker_stable(a, mid);
    lemma_run_tracker_split(init, rs, i + 1, j);
    assert(spec_run_tracker(init, rs.subrange(0, j)) == spec_run_tracker(
        spec_run_tracker(init, pre),
        mid,
    ));
    assert(spec_run_tracker(init, rs.subrange(0, j)) == a);
    assert(rs[j].page_not_found_addr == a);
}

/// A run splits at any point: running the whole prefix equals running its
/// head and then its tail.
proof fn lemma_run_tracker_split(init: u64, rs: Seq<AuxResultView>, m: int, j: int)
    requires
        0 <= m <= j <= rs.len(),
    ensures
        spec_run_tracker(init, rs.subrange(0, j)) == spec_run_tracker(
            spec_run_tracker(init, rs.subrange(0, m)),
            rs.subrange(m, j),
        ),
    decreases j - m,
{
    if m == j {
        assert(rs.subrange(m, j) =~= Seq::<AuxResultView>::empty());
    } else {
        lemma_run_tracker_split(init, rs, m + 1, j);
        assert(rs.subrange(0, m).push(rs[m]) =~= rs.subrange(0, m + 1));
        lemma_run_tracker_snoc(init, rs.subrange(0, m), rs[m]);
        assert(rs.subrange(m, j)[0] == rs[m]);
        assert(rs.subrange(m, j).drop_first() =~= rs.subrange(m + 1, j));
    }
}

/// Stages a page dump: the faulting address, page-dump mode, and the
/// doorbell, all in the config region.
pub fn stage_page_dump(page: &mut Vec<u8>, addr: u64)
    requires
        old(page)@.len() >= 4096,
    ensures
        spec_config(final(page)@) == (AuxConfigView {
            page_addr: addr,
            page_dump_mode: 1,
            changed: 1,
            ..spec_config(old(page)@)
        }),
        only_config_changed(old(page)@, final(page)@),
{
    config_set_page_addr(page, addr);
    config_set_page_dump_mode(page, 1);
    config_set_changed(page, 1);
}

/// What the bring-up loop does after inspecting one rendezvous result.
#[derive(Clone, Copy, Debug, PartialEq, Eq, Structural)]
pub struct BringupStep {
    /// The misc region holds a log line to drain before going on.
    pub emit_hprintf: bool,
    pub next: BringupNext,
}

#[derive(Clone, Copy, Debug, PartialEq, Eq, Structural)]
pub enum BringupNext {
    /// The VM reached the ready state; fuzzing may begin.
    Ready,
    /// Not ready yet: kick the VM again.
    KickAgain,
    /// The guest aborted; its message is in the misc region. Kill the VM.
    Abort,
    /// Protocol violation: a result code outside the bring-up protocol.
    Fatal { code: u8 },
}

/// The decision table of the bring-up loop: log lines are drained, an abort
/// ends bring-up with the VM killed, and a clean result advances until the
/// VM state reaches ready.
pub open spec fn spec_bringup_step(code: u8, state: u8) -> BringupStep {
    BringupStep {
        emit_hprintf: code == NYX_HPRINTF,
        next: if code == NYX_ABORT {
            BringupNext::Abort
        } else if code != NYX_SUCCESS && code != NYX_HPRINTF {
            BringupNext::Fatal { code }
        } else if state == 3 {
            BringupNext::Ready
        } else {
            BringupNext::KickAgain
        },
    }
}

/// Takes one decision of the bring-up loop.
pub fn bringup_step(r: &AuxResultView) -> (s: BringupStep)
    ensures
        s == spec_bringup_step(r.exec_result_code, r.state),
{
    let code = r.exec_result_code;
    BringupStep {
        emit_hprintf: code == NYX_HPRINTF,
        next: if code == NYX_ABORT {
            BringupNext::Abort
        } else if code != NYX_SUCCESS && code != NYX_HPRINTF {
            BringupNext::Fatal { code }
        } else if r.state == 3 {
            BringupNext::Ready
        } else {
            BringupNext::KickAgain
        },
    }
}

/// Stages the configuration written once the VM is ready: reload mode on,
/// the per-iteration timeout, and the doorbell.
pub fn stage_post_bringup(page: &mut Vec<u8>, timeout_sec: u8, timeout_usec: u32)
    requires
        old(page)@.len() >= 4096,
    ensures
        spec_config(final(page)@) == (AuxConfigView {
            reload_mode: 1,
            timeout_sec: timeout_sec,
            timeout_usec: timeout_usec,
            changed: 1,
            ..spec_config(old(page)@)
        }),
        only_config_changed(old(page)@, final(page)@),
{
    config_set_reload_mode(page, 1);
    config_set_timeout(page, timeout_sec, timeout_usec);
    config_set_changed(page, 1);
}

/// One operation of a rendezvous, in the order the host performs them.
#[derive(Clone, Copy, Debug, PartialEq, Eq, Structural)]
pub enum RendezvousOp {
    /// Full compiler and hardware memory fence.
    Barrier,
    /// Write the one-byte execute request on the control socket.
    Kick,
    /// Read the one-byte reply from the control socket.
    WaitReply,
    /// Read result fields out of the auxiliary page.
    ReadResults,
}

/// The canonical rendezvous: fence, kick, await the reply, fence again, and
/// only then read what the VM wrote.
pub open spec fn rendezvous_protocol() -> Seq<RendezvousOp> {
    seq![
        RendezvousOp::Barrier,
        RendezvousOp::Kick,
        RendezvousOp::WaitReply,
        RendezvousOp::Barrier,
        RendezvousOp::ReadResults,
    ]
}

/// The rendezvous schedule, for the driver to follow.
pub fn rendezvous_ops() -> (r: Vec<RendezvousOp>)
    ensures
        r@ == rendezvous_protocol(),
{
    let mut v: Vec<RendezvousOp> = Vec::new();
    v.push(RendezvousOp::Barrier);
    v.push(RendezvousOp::Kick);
    v.push(RendezvousOp::WaitReply);
    v.push(RendezvousOp::Barrier);
    v.push(RendezvousOp::ReadResults);
    proof {
        assert(v@ =~= rendezvous_protocol());
    }
    v
}

/// Doorbell discipline over the rendezvous: the reply is the unique
/// linearization point — the wait stands at exactly one position — and the
/// only read of the result region stands at the end, strictly after a
/// barrier that itself stands strictly after the wait.
pub proof fn lemma_doorbell_discipline()
    ensures
        rendezvous_protocol().len() == 5,
        forall|i: int|
            0 <= i < rendezvous_protocol().len() ==> (rendezvous_protocol()[i] is WaitReply <==> i
                == 2),
        forall|i: int|
            0 <= i < rendezvous_protocol().len() ==> (rendezvous_protocol()[i] is ReadResults <==> i
                == 4),
        rendezvous_protocol()[3] is Barrier,
{
    assert forall|i: int| 0 <= i < rendezvous_protocol().len() implies (rendezvous_protocol()[i]
        is WaitReply <==> i == 2) && (rendezvous_protocol()[i] is ReadResults <==> i == 4) by {
        if i == 0 {
            assert(rendezvous_protocol()[0] is Barrier);
        } else if i == 1 {
            assert(rendezvous_protocol()[1] is Kick);
        } else if i == 2 {
            assert(rendezvous_protocol()[2] is WaitReply);
        } else if i == 3 {
            assert(rendezvous_protocol()[3] is Barrier);
        } else {
            assert(rendezvous_protocol()[4] is ReadResults);
        }
    }
}

} // verus!
