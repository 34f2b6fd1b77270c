//! One transmit attempt: which frame goes out for a request, and what the
//! events on the link amount to.
//!
//! The caller opens the link, writes the frame, reads the response and
//! releases the link. It reports what happened as a `LinkReport`, and
//! `attempt_result` turns the report into the result of the attempt.

use crate::fault::{apply_fault_injection, corrupted, injected, FULL_PROBABILITY};
use crate::frame::{encode, intact_frame, Frame};
use crate::response::{
    classified, classify_response, lemma_classified_cases, ResponseOutcome, ResponseOutcomeView,
    OPCODE_ACK,
};
use vstd::prelude::*;

verus! {

/// Read timeout of the link in milliseconds.
pub const RX_TIMEOUT_MS: u64 = 500;

/// Size of the buffer that a response is read into. One byte is expected; the
/// rest of the buffer makes a misbehaving device visible.
pub const RX_BUFFER_LEN: usize = 100;

/// A calibration request: the reference temperature in tenths of a degree
/// Celsius and, for diagnostic runs, the probability in percent with which a
/// wrong checksum is sent. The probability is at most 100.
#[derive(Clone, Copy, Debug, PartialEq, Eq)]
pub struct CalibrationRequest {
    temperature: i16,
    fault_injection_probability: Option<u8>,
}

/// Whether a probability is absent or a percentage.
pub open spec fn probability_in_range(probability: Option<u8>) -> bool {
    probability matches Some(p) ==> p <= FULL_PROBABILITY
}

impl CalibrationRequest {
    #[verifier::type_invariant]
    spec fn well_formed(self) -> bool {
        probability_in_range(self.fault_injection_probability)
    }

    /// The temperature of the request.
    pub closed spec fn spec_temperature(self) -> i16 {
        self.temperature
    }

    /// The fault injection probability of the request.
    pub closed spec fn spec_probability(self) -> Option<u8> {
        self.fault_injection_probability
    }

    /// Makes a request. A probability above 100 is not a percentage and gives
    /// no request.
    pub fn new(temperature: i16, fault_injection_probability: Option<u8>) -> (request: Option<
        CalibrationRequest,
    >)
        ensures
            request is Some <==> probability_in_range(fault_injection_probability),
            request matches Some(r) ==> r.spec_temperature() == temperature
                && r.spec_probability() == fault_injection_probability,
    {
        let in_range = match fault_injection_probability {
            None => true,
            Some(p) => p <= FULL_PROBABILITY,
        };
        if in_range {
            Some(CalibrationRequest { temperature, fault_injection_probability })
        } else {
            None
        }
    }

    /// The temperature of the request.
    pub fn temperature(&self) -> (temperature: i16)
        ensures
            temperature == self.spec_temperature(),
    {
        self.temperature
    }

    /// The fault injection probability of the request, a percentage if present.
    pub fn fault_injection_probability(&self) -> (probability: Option<u8>)
        ensures
            probability == self.spec_probability(),
            probability_in_range(probability),
    {
        proof {
            use_type_invariant(self);
        }
        self.fault_injection_probability
    }
}

/// What happened on the link during one attempt, up to the first failure.
#[derive(Clone, Debug, PartialEq, Eq)]
pub enum LinkReport {
    /// The link could not be opened.
    OpenFailed,
    /// Writing the frame failed; `device_gone` tells whether the error shows
    /// that the device itself has vanished.
    WriteFailed { device_gone: bool },
    /// Reading the response failed; `device_gone` as for writing.
    ReadFailed { device_gone: bool },
    /// The read returned these bytes (none on a timeout without data).
    Received(Vec<u8>),
}

/// Why an attempt failed in a way that another attempt may cure.
#[derive(Clone, Debug, PartialEq, Eq)]
pub enum RetryableReason {
    /// The frame could not be written.
    WriteError,
    /// The response could not be read.
    ReadError,
    /// The device rejected the frame.
    ProtocolNack,
    /// The device sent something that is no answer to a frame: a malformed
    /// response or an unexpected opcode.
    ProtocolUnexpected(ResponseOutcome),
}

/// Why an attempt failed in a way that no further attempt can cure.
#[derive(Clone, Copy, Debug, PartialEq, Eq, Structural)]
pub enum FatalReason {
    /// The device is not there.
    DeviceUnavailable,
}

/// The result of one transmit attempt.
#[derive(Clone, Debug, PartialEq, Eq)]
pub enum AttemptResult {
    /// The device acknowledged the frame.
    Success,
    /// The attempt failed and may be repeated.
    RetryableFailure(RetryableReason),
    /// The attempt failed and repeating it is pointless.
    FatalFailure(FatalReason),
}

/// The mathematical value of a `LinkReport`.
pub enum LinkReportView {
    OpenFailed,
    WriteFailed { device_gone: bool },
    ReadFailed { device_gone: bool },
    Received(Seq<u8>),
}

/// The mathematical value of a `RetryableReason`.
pub enum RetryableReasonView {
    WriteError,
    ReadError,
    ProtocolNack,
    ProtocolUnexpected(ResponseOutcomeView),
}

/// The mathematical value of an `AttemptResult`.
pub enum AttemptResultView {
    Success,
    RetryableFailure(RetryableReasonView),
    FatalFailure(FatalReason),
}

impl View for LinkReport {
    type V = LinkReportView;

    open spec fn view(&self) -> LinkReportView {
        match *self {
            LinkReport::OpenFailed => LinkReportView::OpenFailed,
            LinkReport::WriteFailed { device_gone } => LinkReportView::WriteFailed { device_gone },
            LinkReport::ReadFailed { device_gone } => LinkReportView::ReadFailed { device_gone },
            LinkReport::Received(bytes) => LinkReportView::Received(bytes@),
        }
    }
}

impl View for RetryableReason {
    type V = RetryableReasonView;

    open spec fn view(&self) -> RetryableReasonView {
        match *self {
            RetryableReason::WriteError => RetryableReasonView::WriteError,
            RetryableReason::ReadError => RetryableReasonView::ReadError,
            RetryableReason::ProtocolNack => RetryableReasonView::ProtocolNack,
            RetryableReason::ProtocolUnexpected(outcome) => RetryableReasonView::ProtocolUnexpected(
                outcome@,
            ),
        }
    }
}

impl View for AttemptResult {
    type V = AttemptResultView;

    open spec fn view(&self) -> AttemptResultView {
        match *self {
            AttemptResult::Success => AttemptResultView::Success,
            AttemptResult::RetryableFailure(reason) => AttemptResultView::RetryableFailure(reason@),
            AttemptResult::FatalFailure(reason) => AttemptResultView::FatalFailure(reason),
        }
    }
}

/// The result of an attempt in which the device's response was classified as
/// `outcome`: success for an acknowledgment, a retryable failure otherwise.
pub open spec fn response_result(outcome: ResponseOutcomeView) -> AttemptResultView {
    match outcome {
        ResponseOutcomeView::Acknowledged => AttemptResultView::Success,
        ResponseOutcomeView::NegativeAcknowledged => AttemptResultView::RetryableFailure(
            RetryableReasonView::ProtocolNack,
        ),
        _ => AttemptResultView::RetryableFailure(RetryableReasonView::ProtocolUnexpected(outcome)),
    }
}

/// The result of a failed write or read: fatal if the device has vanished,
/// else retryable for the given reason.
pub open spec fn io_failure_result(
    device_gone: bool,
    reason: RetryableReasonView,
) -> AttemptResultView {
    if device_gone {
        AttemptResultView::FatalFailure(FatalReason::DeviceUnavailable)
    } else {
        AttemptResultView::RetryableFailure(reason)
    }
}

/// The result of the attempt that a report describes.
pub open spec fn concluded(report: LinkReportView) -> AttemptResultView {
    match report {
        LinkReportView::OpenFailed => AttemptResultView::FatalFailure(
            FatalReason::DeviceUnavailable,
        ),
        LinkReportView::WriteFailed { device_gone } => io_failure_result(
            device_gone,
            RetryableReasonView::WriteError,
        ),
        LinkReportView::ReadFailed { device_gone } => io_failure_result(
            device_gone,
            RetryableReasonView::ReadError,
        ),
        LinkReportView::Received(bytes) => response_result(classified(bytes)),
    }
}

/// The frame that is transmitted for a request: the encoded temperature,
/// with fault injection applied if the request has a probability.
///
/// The random byte that decides is drawn here, so the result is stated for
/// some byte. A request without a probability, or with probability 0, gives
/// the intact frame; one with probability 100 gives the corrupted frame.
pub fn outgoing_frame(request: &CalibrationRequest) -> (frame: Frame)
    ensures
        exists|draw: u8|
            frame == #[trigger] injected(
                intact_frame(request.spec_temperature()),
                request.spec_probability(),
                draw,
            ),
        frame == intact_frame(request.spec_temperature()) || frame == corrupted(
            intact_frame(request.spec_temperature()),
        ),
        request.spec_probability() is None || request.spec_probability() == Some(0u8) ==> frame
            == intact_frame(request.spec_temperature()),
        request.spec_probability() == Some(FULL_PROBABILITY) ==> frame == corrupted(
            intact_frame(request.spec_temperature()),
        ),
{
    let intact = encode(request.temperature());
    apply_fault_injection(intact, request.fault_injection_probability())
}

/// Turns the classified response of the device into the result of the
/// attempt. A negative acknowledgment is a failure like any other protocol
/// error and is retried in the same way.
pub fn result_of_response(outcome: ResponseOutcome) -> (result: AttemptResult)
    ensures
        result@ == response_result(outcome@),
{
    match outcome {
        ResponseOutcome::Acknowledged => AttemptResult::Success,
        ResponseOutcome::NegativeAcknowledged => AttemptResult::RetryableFailure(
            RetryableReason::ProtocolNack,
        ),
        other => AttemptResult::RetryableFailure(RetryableReason::ProtocolUnexpected(other)),
    }
}

/// Turns the report of one attempt into its result.
///
/// A link that cannot be opened is fatal. A failed write or read is fatal
/// only if the device has vanished and retryable otherwise. A response is
/// classified, and only an acknowledgment is a success.
pub fn attempt_result(report: LinkReport) -> (result: AttemptResult)
    ensures
        result@ == concluded(report@),
{
    match report {
        LinkReport::OpenFailed => AttemptResult::FatalFailure(FatalReason::DeviceUnavailable),
        LinkReport::WriteFailed { device_gone } => {
            if device_gone {
                AttemptResult::FatalFailure(FatalReason::DeviceUnavailable)
            } else {
                AttemptResult::RetryableFailure(RetryableReason::WriteError)
            }
        },
        LinkReport::ReadFailed { device_gone } => {
            if device_gone {
                AttemptResult::FatalFailure(FatalReason::DeviceUnavailable)
            } else {
                AttemptResult::RetryableFailure(RetryableReason::ReadError)
            }
        },
        LinkReport::Received(bytes) => {
            let outcome = classify_response(bytes.len(), bytes.as_slice());
            assert(bytes@.take(bytes@.len() as int) =~= bytes@);
            result_of_response(outcome)
        },
    }
}

/// An attempt succeeds exactly when the device answered with the single
/// acknowledgment byte. It fails fatally exactly when the link could not be
/// opened or the device vanished while writing or reading. Every other
/// attempt, a negative acknowledgment included, fails in a retryable way.
pub proof fn lemma_attempt_verdicts(report: LinkReportView)
    ensures
        concluded(report) is Success <==> report == LinkReportView::Received(seq![OPCODE_ACK]),
        concluded(report) is FatalFailure <==> (report is OpenFailed
            || report == (LinkReportView::WriteFailed { device_gone: true })
            || report == (LinkReportView::ReadFailed { device_gone: true })),
{
    if let LinkReportView::Received(bytes) = report {
        lemma_classified_cases(bytes);
    }
}

} // verus!
