use bikecmd::response::ResponseOutcome;
use bikecmd::retry::{run_scripted, CalibrationError, Decision, RetryController, MAX_TX_RETRIES};
use bikecmd::session::{
    attempt_result, outgoing_frame, AttemptResult, CalibrationRequest, FatalReason, LinkReport,
    RetryableReason,
};

fn nack() -> AttemptResult {
    AttemptResult::RetryableFailure(RetryableReason::ProtocolNack)
}

fn fatal() -> AttemptResult {
    AttemptResult::FatalFailure(FatalReason::DeviceUnavailable)
}

#[test]
fn budget_is_three() {
    assert_eq!(MAX_TX_RETRIES, 3);
}

#[test]
fn fresh_controller_has_full_budget() {
    let controller = RetryController::new();
    assert_eq!(controller.remaining_attempts(), Some(3));
    assert_eq!(controller.verdict(), None);
}

#[test]
fn success_ends_the_run() {
    let mut controller = RetryController::new();
    assert_eq!(controller.record(&AttemptResult::Success), Decision::Finish(Ok(())));
    assert_eq!(controller.verdict(), Some(Ok(())));
    assert_eq!(controller.remaining_attempts(), None);
}

#[test]
fn three_failures_exhaust_the_budget() {
    let mut controller = RetryController::new();
    assert_eq!(controller.record(&nack()), Decision::Retry { remaining_attempts: 2 });
    assert_eq!(controller.remaining_attempts(), Some(2));
    let read_error = AttemptResult::RetryableFailure(RetryableReason::ReadError);
    assert_eq!(controller.record(&read_error), Decision::Retry { remaining_attempts: 1 });
    assert_eq!(controller.remaining_attempts(), Some(1));
    let malformed = AttemptResult::RetryableFailure(RetryableReason::ProtocolUnexpected(
        ResponseOutcome::Malformed(0, vec![]),
    ));
    assert_eq!(
        controller.record(&malformed),
        Decision::Finish(Err(CalibrationError::RetryBudgetExhausted(3)))
    );
    assert_eq!(controller.verdict(), Some(Err(CalibrationError::RetryBudgetExhausted(3))));
    assert_eq!(controller.remaining_attempts(), None);
}

#[test]
fn fatal_failure_ends_the_run_at_once() {
    let mut controller = RetryController::new();
    assert_eq!(
        controller.record(&fatal()),
        Decision::Finish(Err(CalibrationError::DeviceUnavailable))
    );
    assert_eq!(controller.verdict(), Some(Err(CalibrationError::DeviceUnavailable)));
}

#[test]
fn fatal_failure_after_a_retry() {
    let mut controller = RetryController::new();
    assert_eq!(controller.record(&nack()), Decision::Retry { remaining_attempts: 2 });
    assert_eq!(
        controller.record(&fatal()),
        Decision::Finish(Err(CalibrationError::DeviceUnavailable))
    );
}

#[test]
fn success_on_the_last_attempt() {
    let mut controller = RetryController::new();
    controller.record(&nack());
    controller.record(&nack());
    assert_eq!(controller.record(&AttemptResult::Success), Decision::Finish(Ok(())));
}

#[test]
fn finished_run_ignores_later_results() {
    let mut controller = RetryController::new();
    controller.record(&AttemptResult::Success);
    assert_eq!(controller.record(&nack()), Decision::Finish(Ok(())));
    assert_eq!(controller.record(&fatal()), Decision::Finish(Ok(())));
    assert_eq!(controller.verdict(), Some(Ok(())));

    let mut controller = RetryController::new();
    controller.record(&nack());
    controller.record(&nack());
    controller.record(&nack());
    assert_eq!(
        controller.record(&AttemptResult::Success),
        Decision::Finish(Err(CalibrationError::RetryBudgetExhausted(3)))
    );
}

#[test]
fn script_of_failures_stops_before_the_fourth_attempt() {
    let script = vec![nack(), nack(), nack(), AttemptResult::Success];
    let (controller, made) = run_scripted(&script);
    assert_eq!(made, 3);
    assert_eq!(controller.verdict(), Some(Err(CalibrationError::RetryBudgetExhausted(3))));
}

#[test]
fn script_with_fatal_first_makes_one_attempt() {
    let script = vec![fatal(), AttemptResult::Success, AttemptResult::Success];
    let (controller, made) = run_scripted(&script);
    assert_eq!(made, 1);
    assert_eq!(controller.verdict(), Some(Err(CalibrationError::DeviceUnavailable)));
}

#[test]
fn script_with_late_success() {
    let script = vec![nack(), AttemptResult::Success, fatal()];
    let (controller, made) = run_scripted(&script);
    assert_eq!(made, 2);
    assert_eq!(controller.verdict(), Some(Ok(())));
}

#[test]
fn short_script_leaves_the_run_going() {
    let (controller, made) = run_scripted(&[]);
    assert_eq!(made, 0);
    assert_eq!(controller.verdict(), None);
    assert_eq!(controller.remaining_attempts(), Some(3));

    let (controller, made) = run_scripted(&[nack(), nack()]);
    assert_eq!(made, 2);
    assert_eq!(controller.verdict(), None);
    assert_eq!(controller.remaining_attempts(), Some(1));
}

#[test]
fn certain_fault_runs_into_budget_exhaustion() {
    let request = CalibrationRequest::new(205, Some(100)).unwrap();
    let mut controller = RetryController::new();
    let mut attempts = 0;
    let verdict = loop {
        let frame = outgoing_frame(&request).to_bytes();
        attempts += 1;
        // A device that checks the checksum rejects the corrupted frame.
        let intact = crc16::State::<crc16::XMODEM>::calculate(&frame[1..4]).to_le_bytes();
        let response = if frame[4..6] == intact[..] { 0xBA } else { 0xAA };
        let result = attempt_result(LinkReport::Received(vec![response]));
        assert_eq!(result, nack());
        match controller.record(&result) {
            Decision::Retry { .. } => {}
            Decision::Finish(verdict) => break verdict,
        }
    };
    assert_eq!(attempts, 3);
    assert_eq!(verdict, Err(CalibrationError::RetryBudgetExhausted(3)));
}

#[test]
fn intact_frame_succeeds_on_first_attempt() {
    let request = CalibrationRequest::new(205, None).unwrap();
    let mut controller = RetryController::new();
    let frame = outgoing_frame(&request).to_bytes();
    let intact = crc16::State::<crc16::XMODEM>::calculate(&frame[1..4]).to_le_bytes();
    let response = if frame[4..6] == intact[..] { 0xBA } else { 0xAA };
    let result = attempt_result(LinkReport::Received(vec![response]));
    assert_eq!(result, AttemptResult::Success);
    assert_eq!(controller.record(&result), Decision::Finish(Ok(())));
}
