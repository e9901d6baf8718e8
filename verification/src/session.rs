//! The read-loop state machine.
//!
//! The loop around the decoder has three states: it waits for a report
//! with Cross pressed, then streams each report's decoded state to the
//! consumer, and stops for good once a streamed report has the option
//! button pressed. The decisions live here as a pure step function; the
//! caller performs the reads and delivers each report to `step`.

use vstd::prelude::*;

use crate::report::Button;
use crate::report::DecodedState;
use crate::report::REPORT_LEN;
use crate::report::Report;
use crate::report::button_pressed;
use crate::report::decoded;
use crate::report::option_pressed;

verus! {

/// Where the read loop stands. `Terminated` is the only terminal state:
/// a loop that reaches it performs no further reads.
#[derive(Clone, Copy, Debug, PartialEq, Eq, Structural)]
pub enum LoopState {
    WaitForStart,
    Streaming,
    Terminated,
}

/// The state the loop moves to on one report: waiting ends exactly when
/// Cross is flagged, streaming ends exactly when the option button is
/// flagged, and a terminated loop stays terminated.
pub open spec fn spec_step(state: LoopState, bytes: Seq<u8>) -> LoopState
    recommends
        bytes.len() == REPORT_LEN,
{
    match state {
        LoopState::WaitForStart => if button_pressed(bytes, Button::Cross) {
            LoopState::Streaming
        } else {
            LoopState::WaitForStart
        },
        LoopState::Streaming => if option_pressed(bytes) {
            LoopState::Terminated
        } else {
            LoopState::Streaming
        },
        LoopState::Terminated => LoopState::Terminated,
    }
}

/// The state the loop stands in after consuming the given reports in
/// order, starting from `WaitForStart`.
pub open spec fn state_after(reports: Seq<Seq<u8>>) -> LoopState
    decreases reports.len(),
{
    if reports.len() == 0 {
        LoopState::WaitForStart
    } else {
        spec_step(state_after(reports.drop_last()), reports.last())
    }
}

/// Feeds one report to the loop. Returns the next state, and the report's
/// decoded state when the loop was streaming — the consumer is shown
/// every report read while streaming, the terminating one included, and
/// nothing read while waiting for the start signal.
pub fn step(state: LoopState, report: &Report) -> (r: (LoopState, Option<DecodedState>))
    ensures
        r.0 == spec_step(state, report.bytes()),
        r.1 == if state is Streaming {
            Some(decoded(report.bytes()))
        } else {
            None::<DecodedState>
        },
{
    match state {
        LoopState::WaitForStart => {
            if report.is_button_pressed(Button::Cross) {
                (LoopState::Streaming, None)
            } else {
                (LoopState::WaitForStart, None)
            }
        },
        LoopState::Streaming => {
            let decoded_state = report.decode();
            if decoded_state.option {
                (LoopState::Terminated, Some(decoded_state))
            } else {
                (LoopState::Streaming, Some(decoded_state))
            }
        },
        LoopState::Terminated => (LoopState::Terminated, None),
    }
}

/// The loop leaves `WaitForStart` on the first report with Cross flagged,
/// and only then: while no report so far had Cross, the loop still waits,
/// and the first report that has it — whatever its other bits — moves the
/// loop to `Streaming`.
pub proof fn lemma_first_cross_starts_streaming(reports: Seq<Seq<u8>>, i: int)
    requires
        0 <= i <= reports.len(),
        forall|j: int| 0 <= j < i ==> !button_pressed(#[trigger] reports[j], Button::Cross),
    ensures
        state_after(reports.take(i)) == LoopState::WaitForStart,
        i < reports.len() && button_pressed(reports[i], Button::Cross) ==> state_after(
            reports.take(i + 1),
        ) == LoopState::Streaming,
    decreases i,
{
    if i > 0 {
        lemma_first_cross_starts_streaming(reports, i - 1);
        assert(reports.take(i).drop_last() =~= reports.take(i - 1));
        assert(reports.take(i).last() == reports[i - 1]);
    }
    if i < reports.len() {
        assert(reports.take(i + 1).drop_last() =~= reports.take(i));
        assert(reports.take(i + 1).last() == reports[i]);
    }
}

} // verus!
