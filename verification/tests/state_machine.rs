use ds4_report::report::{DPad, Report};
use ds4_report::session::{step, LoopState};

fn report_with(byte5: u8, byte6: u8) -> Report {
    let mut data = vec![0u8; 64];
    data[5] = byte5;
    data[6] = byte6;
    Report::from_bytes(data).unwrap()
}

#[test]
fn waiting_ignores_reports_without_cross() {
    // every button but Cross, a direction, even the option button
    for byte5 in [0x00u8, 0xd0, 0x13, 0xd7] {
        let (next, out) = step(LoopState::WaitForStart, &report_with(byte5, 0x20));
        assert_eq!(next, LoopState::WaitForStart);
        assert!(out.is_none());
    }
}

#[test]
fn waiting_ends_on_the_first_cross_whatever_else_is_set() {
    for byte5 in [0x20u8, 0xf5, 0x2f] {
        let (next, out) = step(LoopState::WaitForStart, &report_with(byte5, 0xff));
        assert_eq!(next, LoopState::Streaming);
        // the start-confirmation report itself is not emitted
        assert!(out.is_none());
    }
}

#[test]
fn streaming_emits_every_report() {
    let (next, out) = step(LoopState::Streaming, &report_with(0x43, 0x00));
    assert_eq!(next, LoopState::Streaming);
    let state = out.unwrap();
    assert!(state.circle);
    assert!(!state.square && !state.cross && !state.triangle);
    assert_eq!(state.dpad, Some(DPad::DownRight));
    assert!(!state.option);
}

#[test]
fn streaming_stops_on_the_option_button_after_emitting() {
    let (next, out) = step(LoopState::Streaming, &report_with(0x08, 0x20));
    assert_eq!(next, LoopState::Terminated);
    let state = out.unwrap();
    assert!(state.option);
    assert_eq!(state.dpad, None);
}

#[test]
fn terminated_is_terminal() {
    // even a report with Cross and the option button set changes nothing
    let (next, out) = step(LoopState::Terminated, &report_with(0x2f, 0xff));
    assert_eq!(next, LoopState::Terminated);
    assert!(out.is_none());
}

#[test]
fn full_session_walkthrough() {
    let reports = [
        report_with(0x00, 0x00), // waiting: nothing pressed
        report_with(0x88, 0x20), // waiting: Triangle and option, but no Cross
        report_with(0x28, 0x00), // Cross: start streaming
        report_with(0x02, 0x00), // streamed: d-pad Right
        report_with(0x08, 0x20), // streamed: option ends the session
    ];
    let mut state = LoopState::WaitForStart;
    let mut emitted = Vec::new();
    for report in &reports {
        let (next, out) = step(state, report);
        state = next;
        if let Some(decoded) = out {
            emitted.push(decoded);
        }
    }
    assert_eq!(state, LoopState::Terminated);
    assert_eq!(emitted.len(), 2);
    assert_eq!(emitted[0].dpad, Some(DPad::Right));
    assert!(!emitted[0].option);
    assert!(emitted[1].option);
}
