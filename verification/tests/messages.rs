//! Error messages, completions and the flags of the background thread.

use monarch_ofi::completion::{
    millis, AwaitAnswer, AwaitPhase, PollCq, PollPhase, PostAndPollCq, PostPhase,
};
use monarch_ofi::effect::{Effect, FabricCall, PostCall, PostOp, Reply};
use monarch_ofi::error::{
    error_code, no_provider_message, ofi_strerror, DomainPart, ErrorText, Lookup, OfiError,
};
use monarch_ofi::primitives::OfiConfig;
use monarch_ofi::progress::{CqProgressGuard, ProgressStep, PROGRESS_SLEEP_MICROS};
use monarch_ofi::registration::cuda_device_ordinal;
use monarch_ofi::text::{decimal_string, hex_string, unsigned_string};

#[test]
fn every_error_has_its_message() {
    let known = || ErrorText::Known("Invalid argument".to_string());
    for (error, message) in [
        (OfiError::Unsupported, "libfabric is not available on this system"),
        (OfiError::AllocInfo, "fi_allocinfo failed"),
        (
            OfiError::InvalidProvider { position: 3 },
            "invalid provider name: nul byte found in provided data at position: 3",
        ),
        (
            OfiError::GetInfo { reason: known(), provider: "efa".to_string(), hmem: true },
            "fi_getinfo failed: Invalid argument (provider: \"efa\", hmem: true)",
        ),
        (
            OfiError::GetInfo {
                reason: ErrorText::Success,
                provider: "a\"b\n".to_string(),
                hmem: false,
            },
            "fi_getinfo failed: success (provider: \"a\\\"b\\n\", hmem: false)",
        ),
        (
            OfiError::Open { part: DomainPart::Fabric, reason: known() },
            "fi_fabric failed: Invalid argument",
        ),
        (
            OfiError::Open { part: DomainPart::Domain, reason: ErrorText::Unknown(-7777) },
            "fi_domain failed: unknown error (-7777)",
        ),
        (
            OfiError::Open { part: DomainPart::Av, reason: known() },
            "fi_av_open failed: Invalid argument",
        ),
        (
            OfiError::Open { part: DomainPart::Cq, reason: known() },
            "fi_cq_open failed: Invalid argument",
        ),
        (OfiError::Endpoint { ret: -22 }, "fi_endpoint failed: -22"),
        (OfiError::BindAv { ret: -22 }, "fi_ep_bind(av) failed: -22"),
        (OfiError::BindCq { ret: -1 }, "fi_ep_bind(cq) failed: -1"),
        (OfiError::Enable { ret: 5 }, "fi_enable failed: 5"),
        (OfiError::GetName { ret: -257 }, "fi_getname failed: -257"),
        (OfiError::AvInsert { ret: 0 }, "fi_av_insert failed: expected 1, got 0"),
        (OfiError::Register { ret: -12 }, "fi_mr_reg failed: -12"),
        (OfiError::RegisterAttr { ret: -12 }, "fi_mr_regattr failed: -12"),
        (OfiError::Post { op: PostOp::Write, ret: -11 }, "fi_write failed: -11"),
        (OfiError::Post { op: PostOp::Read, ret: -11 }, "fi_read failed: -11"),
        (OfiError::Post { op: PostOp::Send, ret: -22 }, "fi_send failed: -22"),
        (OfiError::Post { op: PostOp::Recv, ret: i64::MIN }, "fi_recv failed: -9223372036854775808"),
        (OfiError::CqTimeout, "CQ poll timed out"),
        (
            OfiError::CqRead { ret: -259, err: None, prov_errno: 4107 },
            "fi_cq_read error: ret=-259, prov_errno=4107",
        ),
        (
            OfiError::CqRead { ret: -259, err: Some(5), prov_errno: -1 },
            "fi_cq_read error: ret=-259, err=5, prov_errno=-1",
        ),
        (
            OfiError::DeviceOrdinal { addr: 0xdead_0010, err: 1 },
            "failed to get CUDA device ordinal for addr 0xdead0010: err=1",
        ),
        (
            OfiError::NotRegistered { lookup: Lookup::LoopbackWrite, buf_id: 12 },
            "loopback WriteFromLocal: buffer 12 not registered",
        ),
        (
            OfiError::NotRegistered { lookup: Lookup::LoopbackRead, buf_id: 0 },
            "loopback ReadIntoLocal: buffer 0 not registered",
        ),
        (
            OfiError::NotRegistered { lookup: Lookup::PostRecv, buf_id: 7 },
            "PostRecv: buffer 7 not registered",
        ),
        (
            OfiError::NotRegistered { lookup: Lookup::SendFromBuffer, buf_id: 7 },
            "SendFromBuffer: buffer 7 not registered",
        ),
        (OfiError::Peer("fi_recv failed: -22".to_string()), "fi_recv failed: -22"),
        (OfiError::SubmitTimeout, "OFI submit timed out"),
        (OfiError::NoRemoteBackend, "OFI backend not found for remote buffer"),
        (OfiError::NoLocalBackend, "local RdmaManagerActor has no OFI backend"),
        (OfiError::NotLocal, "OfiManagerActor is not in the local process"),
        (OfiError::OwnerAlreadySet, "OfiManagerActor owner already set"),
    ] {
        assert_eq!(error.message(), message);
    }
}

#[test]
fn a_missing_provider_has_a_message() {
    assert_eq!(
        no_provider_message(&ErrorText::Unknown(-5), "'tcp'", true),
        "fi_getinfo failed: unknown error (-5) (provider: 'tcp', hmem: true)"
    );
}

#[test]
fn error_codes_are_explained() {
    assert_eq!(error_code(-61), 61);
    assert_eq!(error_code(61), -61);
    assert_eq!(error_code(0), 0);
    assert_eq!(error_code(i32::MIN), i32::MIN);
    assert_eq!(ofi_strerror(0, Some("Success".to_string())).message(), "success");
    assert_eq!(ofi_strerror(0, None).message(), "success");
    assert_eq!(ofi_strerror(-12, Some("No memory".to_string())).message(), "No memory");
    assert_eq!(ofi_strerror(-12, None).message(), "unknown error (-12)");
}

#[test]
fn numbers_are_printed_as_usual() {
    for n in [0, 1, -1, 9, 10, -10, 12345, i64::MAX, i64::MIN] {
        assert_eq!(decimal_string(n), format!("{}", n));
    }
    for n in [0, 7, 10, 99, 100, u64::MAX] {
        assert_eq!(unsigned_string(n), format!("{}", n));
        assert_eq!(hex_string(n), format!("{:#x}", n));
    }
}

#[test]
fn the_device_of_an_address() {
    assert_eq!(cuda_device_ordinal(64, 0, 0), Ok(0));
    assert_eq!(cuda_device_ordinal(64, 0, 7), Ok(7));
    assert_eq!(cuda_device_ordinal(64, 0, -1), Err(OfiError::DeviceOrdinal { addr: 64, err: 0 }));
    assert_eq!(cuda_device_ordinal(64, 201, 0), Err(OfiError::DeviceOrdinal { addr: 64, err: 201 }));
}

#[test]
fn the_default_configuration() {
    let config = OfiConfig::default();
    assert_eq!(config.provider, "");
    assert_eq!(config.max_send_wr, 128);
    assert_eq!(config.max_recv_wr, 128);
    assert!(config.request_hmem);
}

#[test]
fn a_poll_reads_until_its_deadline() {
    let poll = PollCq::start(9, 100, false, 1_000);
    assert_eq!(poll.deadline, 1_100);
    assert_eq!(poll.effect(), Effect::Call(FabricCall::ReadCq { cq: 9 }));
    let poll = poll.resume(Reply::Code(-11), 1_099);
    assert_eq!(poll.effect(), Effect::Yield);
    let poll = poll.resume(Reply::Done, 1_099);
    let poll = poll.resume(Reply::Code(-11), 1_100);
    assert_eq!(poll.phase, PollPhase::Done(Err(OfiError::CqTimeout)));
}

#[test]
fn a_completion_counts_after_the_deadline() {
    let poll = PollCq::start(9, 0, false, 1_000);
    assert_eq!(poll.resume(Reply::Code(1), 5_000).phase, PollPhase::Done(Ok(())));
}

#[test]
fn a_failed_read_reports_the_error_entry() {
    for (blocking, err) in [(true, None), (false, Some(5))] {
        for ret in [-259, 0, -110] {
            let poll = PollCq::start(9, 100, blocking, 0).resume(Reply::Code(ret), 10);
            assert_eq!(poll.effect(), Effect::Call(FabricCall::ReadCqError { cq: 9 }));
            let poll = poll.resume(Reply::CqError { err: 5, prov_errno: 4107 }, 10);
            assert_eq!(
                poll.phase,
                PollPhase::Done(Err(OfiError::CqRead { ret, err, prov_errno: 4107 }))
            );
        }
    }
}

#[test]
fn a_wait_for_an_answer_keeps_the_first_entry() {
    let wait = AwaitAnswer::start(9);
    assert_eq!(wait.effect(), Effect::TakeAnswer);
    let wait = wait.resume(Reply::Pending);
    assert_eq!(wait.effect(), Effect::Call(FabricCall::ReadCq { cq: 9 }));
    let wait = wait.resume(Reply::Code(-11));
    assert_eq!(wait.effect(), Effect::Yield);
    let wait = wait.resume(Reply::Done).resume(Reply::Pending).resume(Reply::Code(-259));
    assert_eq!(wait.effect(), Effect::Call(FabricCall::ReadCqError { cq: 9 }));
    let wait = wait.resume(Reply::CqError { err: 5, prov_errno: 7 });
    let failed = || Some(Err(OfiError::CqRead { ret: -259, err: Some(5), prov_errno: 7 }));
    assert_eq!(wait.arrived, failed());
    let wait = wait.resume(Reply::Done).resume(Reply::Pending).resume(Reply::Code(1));
    assert_eq!(wait.arrived, failed());
    let wait = wait.resume(Reply::Done).resume(Reply::Answer(Ok(Ok(()))));
    assert_eq!(wait.phase, AwaitPhase::Answered(Ok(())));
    assert_eq!(wait.effect(), Effect::Finished);

    let refused = AwaitAnswer::start(9).resume(Reply::Answer(Ok(Err("no".to_string()))));
    assert_eq!(refused.phase, AwaitPhase::Answered(Err("no".to_string())));
    let lost = AwaitAnswer::start(9).resume(Reply::Answer(Err("gone".to_string())));
    assert_eq!(lost.phase, AwaitPhase::Answered(Err("gone".to_string())));
    let seen = AwaitAnswer::start(9).resume(Reply::Pending).resume(Reply::Code(1));
    assert_eq!(seen.arrived, Some(Ok(())));
}

fn sample_send() -> PostCall {
    PostCall::Send { ep: 1, buf: 2, len: 3, desc: 4, peer: 5, context: 0 }
}

#[test]
fn a_posting_is_retried_and_completed() {
    let posting = PostAndPollCq::start(sample_send(), 9, 100);
    assert_eq!(posting.effect(), Effect::PauseProgress);
    let posting = posting.resume(Reply::Done, 1_000);
    assert_eq!(posting.effect(), Effect::Call(FabricCall::Post(sample_send())));
    let posting = posting.resume(Reply::Code(-11), 1_050);
    assert_eq!(posting.effect(), Effect::Call(FabricCall::ReadCq { cq: 9 }));
    let posting = posting.resume(Reply::Code(1), 1_060);
    assert_eq!(posting.effect(), Effect::Yield);
    let posting = posting.resume(Reply::Done, 1_070);
    let posting = posting.resume(Reply::Code(0), 1_090);
    assert_eq!(posting.effect(), Effect::Call(FabricCall::ReadCq { cq: 9 }));
    // The completion has the whole time again.
    let posting = posting.resume(Reply::Code(-11), 1_189);
    let posting = posting.resume(Reply::Done, 1_189);
    let posting = posting.resume(Reply::Code(1), 1_500);
    assert_eq!(posting.effect(), Effect::ResumeProgress);
    let posting = posting.resume(Reply::Done, 1_500);
    assert_eq!(posting.phase, PostPhase::Done(Ok(())));
}

#[test]
fn a_posting_is_not_retried_for_ever() {
    let posting = PostAndPollCq::start(sample_send(), 9, 100).resume(Reply::Done, 1_000);
    let posting = posting.resume(Reply::Code(-11), 1_100);
    assert_eq!(posting.effect(), Effect::ResumeProgress);
    let posting = posting.resume(Reply::Done, 1_100);
    let error = OfiError::Post { op: PostOp::Send, ret: -11 };
    assert_eq!(posting.phase, PostPhase::Done(Err(error)));
}

#[test]
fn other_codes_are_final() {
    for ret in [-110, -22, 11, 1] {
        let posting = PostAndPollCq::start(sample_send(), 9, 100).resume(Reply::Done, 0);
        let posting = posting.resume(Reply::Code(ret), 1);
        let error = OfiError::Post { op: PostOp::Send, ret };
        assert_eq!(posting.phase, PostPhase::Resume(Err(error)));
    }
}

#[test]
fn timeouts_are_in_nanoseconds() {
    assert_eq!(millis(0), 0);
    assert_eq!(millis(250), 250_000_000);
    assert_eq!(millis(u64::MAX), u64::MAX as u128 * 1_000_000);
}

#[test]
fn the_background_thread_keeps_out_of_the_way() {
    let mut guard = CqProgressGuard::new();
    assert_eq!(guard.progress_step(), ProgressStep::Read);
    guard.pause_cq_progress();
    guard.pause_cq_progress();
    assert_eq!(guard.progress_step(), ProgressStep::Skip);
    guard.resume_cq_progress();
    assert_eq!(guard.progress_step(), ProgressStep::Skip);
    guard.resume_cq_progress();
    assert_eq!(guard.progress_step(), ProgressStep::Read);
    guard.pause_cq_progress();
    guard.stop();
    assert_eq!(guard.progress_step(), ProgressStep::Stop);
    assert_eq!(PROGRESS_SLEEP_MICROS, 100);
}
