//! Exchange-level tests of the task runner: the protocol trace, the
//! sequencing and FIR/FIN rules, unsolicited routing, and deadlines.

use dnp3_master::control::Response;
use dnp3_master::error::TaskError;
use dnp3_master::runner::{ResponseOutcome, TaskRunner};
use dnp3_master::sequence::Sequence;
use dnp3_master::task::{ClassScan, MasterTask};
use dnp3_master::timing::Deadline;

fn accept(runner: &mut TaskRunner, task: &MasterTask, frame: &[u8]) -> (Option<Vec<u8>>, bool) {
    let response = Response::parse(frame).unwrap();
    match runner.on_response(task, response.header) {
        ResponseOutcome::Accepted { confirm, complete } => (confirm, complete),
        ResponseOutcome::Unsolicited { .. } => panic!("classified as unsolicited"),
        ResponseOutcome::Failed(err) => panic!("rejected: {:?}", err),
    }
}

fn fail(runner: &mut TaskRunner, task: &MasterTask, frame: &[u8]) -> TaskError {
    let response = Response::parse(frame).unwrap();
    match runner.on_response(task, response.header) {
        ResponseOutcome::Failed(err) => err,
        _ => panic!("fragment was not rejected"),
    }
}

#[test]
fn performs_multi_fragmented_class_scan() {
    let task = MasterTask::class_scan(1024, ClassScan::class1());
    let mut runner = TaskRunner::new(1000);

    let request = runner.start(&task);
    assert_eq!(request, vec![0xC0, 0x01, 0x3C, 0x02, 0x06]);

    // FIR=1, FIN=0, CON=1, SEQ=0
    let (confirm, complete) = accept(&mut runner, &task, &[0xA0, 0x81, 0x00, 0x00]);
    assert_eq!(confirm, Some(vec![0xC0, 0x00]));
    assert!(!complete);

    // FIR=0, FIN=0, CON=1, SEQ=1
    let (confirm, complete) = accept(&mut runner, &task, &[0x21, 0x81, 0x00, 0x00]);
    assert_eq!(confirm, Some(vec![0xC1, 0x00]));
    assert!(!complete);

    // FIR=0, FIN=1, CON=0, SEQ=2
    let (confirm, complete) = accept(&mut runner, &task, &[0x42, 0x81, 0x00, 0x00]);
    assert_eq!(confirm, None);
    assert!(complete);
}

#[test]
fn fragments_deliver_their_object_payloads_in_order() {
    let task = MasterTask::class_scan(7, ClassScan::class1());
    let mut runner = TaskRunner::new(1000);
    runner.start(&task);

    let frames: [&[u8]; 3] = [
        &[0xA0, 0x81, 0x00, 0x00, 0x01, 0x02],
        &[0x21, 0x81, 0x00, 0x00, 0x03],
        &[0x42, 0x81, 0x00, 0x00, 0x04, 0x05],
    ];
    let mut delivered: Vec<Vec<u8>> = Vec::new();
    for frame in frames.iter() {
        let response = Response::parse(frame).unwrap();
        match runner.on_response(&task, response.header) {
            ResponseOutcome::Accepted { .. } => delivered.push(response.objects.to_vec()),
            _ => panic!("fragment was not accepted"),
        }
    }
    assert_eq!(delivered, vec![vec![0x01, 0x02], vec![0x03], vec![0x04, 0x05]]);
}

#[test]
fn sequence_wraps_at_4_bit_boundary() {
    let mut seq = Sequence::new();
    for i in 0..40u32 {
        let issued = seq.increment();
        assert_eq!(issued as u32, i % 16);
        assert_eq!(seq.previous() as u32, i % 16);
    }
}

#[test]
fn read_response_with_wrong_sequence_is_rejected() {
    let task = MasterTask::class_scan(1, ClassScan::class1());
    let mut runner = TaskRunner::new(1000);
    runner.start(&task);
    // FIR, FIN, SEQ=5 while 0 was issued
    let err = fail(&mut runner, &task, &[0xC5, 0x81, 0x00, 0x00]);
    assert_eq!(err, TaskError::BadSequence);
}

#[test]
fn non_read_response_with_wrong_sequence_is_rejected() {
    let task = MasterTask::command(1, 0x03, vec![]);
    let mut runner = TaskRunner::new(1000);
    runner.start(&task);
    let err = fail(&mut runner, &task, &[0xC5, 0x81, 0x00, 0x00]);
    assert_eq!(err, TaskError::BadSequence);
}

#[test]
fn non_read_response_must_be_self_contained() {
    let task = MasterTask::command(1, 0x03, vec![0x0C, 0x01, 0x17]);
    let mut runner = TaskRunner::new(1000);
    let request = runner.start(&task);
    assert_eq!(request, vec![0xC0, 0x03, 0x0C, 0x01, 0x17]);
    // FIR=1, FIN=0, SEQ=0: not self-contained
    let err = fail(&mut runner, &task, &[0x80, 0x81, 0x00, 0x00]);
    assert_eq!(err, TaskError::MultiFragmentResponse);
}

#[test]
fn non_read_response_requesting_confirmation_is_still_confirmed() {
    let task = MasterTask::command(1, 0x04, vec![]);
    let mut runner = TaskRunner::new(1000);
    runner.start(&task);
    // FIR=1, FIN=1, CON=1, SEQ=0: anomalous, confirmed anyway
    let (confirm, complete) = accept(&mut runner, &task, &[0xE0, 0x81, 0x00, 0x00]);
    assert_eq!(confirm, Some(vec![0xC0, 0x00]));
    assert!(complete);
}

#[test]
fn read_fragment_without_fir_is_rejected_when_none_was_accepted() {
    let task = MasterTask::class_scan(1, ClassScan::class1());
    let mut runner = TaskRunner::new(1000);
    runner.start(&task);
    // FIN only, SEQ=0
    let err = fail(&mut runner, &task, &[0x40, 0x81, 0x00, 0x00]);
    assert_eq!(err, TaskError::NeverReceivedFir);
}

#[test]
fn repeated_fir_fragment_is_rejected() {
    let task = MasterTask::class_scan(1, ClassScan::class1());
    let mut runner = TaskRunner::new(1000);
    runner.start(&task);
    accept(&mut runner, &task, &[0xA0, 0x81, 0x00, 0x00]);
    // a second FIR, echoing the now-current sequence number 1
    let err = fail(&mut runner, &task, &[0xA1, 0x81, 0x00, 0x00]);
    assert_eq!(err, TaskError::UnexpectedFir);
}

#[test]
fn unsolicited_response_is_confirmed_and_leaves_the_exchange_alone() {
    let task = MasterTask::class_scan(1, ClassScan::class1());
    let mut runner = TaskRunner::new(1000);
    runner.start(&task);
    accept(&mut runner, &task, &[0xA0, 0x81, 0x00, 0x00]);
    assert_eq!(runner.fragments_accepted(), 1);

    // unsolicited response, FIR=1, FIN=1, CON=1, UNS=1, SEQ=5
    let unsolicited = Response::parse(&[0xF5, 0x82, 0x00, 0x00]).unwrap();
    match runner.on_response(&task, unsolicited.header) {
        ResponseOutcome::Unsolicited { confirm } => {
            assert_eq!(confirm, Some(vec![0xD5, 0x00]));
        }
        _ => panic!("not classified as unsolicited"),
    }
    // the fragment counter did not move
    assert_eq!(runner.fragments_accepted(), 1);

    // the active read goes on undisturbed: next fragment, SEQ=1, FIN
    let (confirm, complete) = accept(&mut runner, &task, &[0x61, 0x81, 0x00, 0x00]);
    assert_eq!(confirm, Some(vec![0xC1, 0x00]));
    assert!(complete);
}

#[test]
fn unsolicited_response_not_requesting_confirmation_gets_none() {
    let task = MasterTask::class_scan(1, ClassScan::class1());
    let mut runner = TaskRunner::new(1000);
    runner.start(&task);
    // UNS set, CON clear
    let unsolicited = Response::parse(&[0xD2, 0x82, 0x00, 0x00]).unwrap();
    match runner.on_response(&task, unsolicited.header) {
        ResponseOutcome::Unsolicited { confirm } => assert_eq!(confirm, None),
        _ => panic!("not classified as unsolicited"),
    }
}

#[test]
fn each_fragment_gets_a_fresh_deadline_window() {
    let timeout: u64 = 1000;
    let mut deadline = Deadline::after(0, timeout);
    assert!(!deadline.expired(999));
    assert!(deadline.expired(1000));

    // three fragments, each arriving 900 ms after the previous check point:
    // total elapsed time 2700 ms exceeds the 1000 ms window, yet no
    // per-fragment deadline fires
    let mut now: u64 = 0;
    for _ in 0..3u32 {
        now += 900;
        assert!(!deadline.expired(now));
        deadline.restart(now, timeout);
    }
    assert_eq!(deadline.at_ms(), 2700 + 1000);
    assert!(now > timeout);
}

#[test]
fn runner_reports_its_configured_timeout() {
    let runner = TaskRunner::new(1250);
    assert_eq!(runner.reply_timeout_ms(), 1250);
}
