use ddsm_driver::config::MySerialPort;
use ddsm_driver::controller::MotorController;
use ddsm_driver::error::{DriverError, TransportFault};
use ddsm_driver::frame::{CommandKind, MotorCommandFrame, MotorMode};
use ddsm_driver::procedure::{
    Action, Event, Outcome, Procedure, ASSIGNMENT_PAUSE_MS, ASSIGNMENT_REPEATS,
};

const SET_ID_7: [u8; 10] = [0xAA, 0x55, 0x53, 0x07, 0, 0, 0, 0, 0, 0];
const QUERY: [u8; 10] = [0xC8, 0x64, 0, 0, 0, 0, 0, 0, 0, 0xDE];

/// A stand-in for the line: answers each write and each read from a script,
/// and records what it was asked to do.
struct ScriptedLine {
    writes: Vec<Result<(), TransportFault>>,
    reads: Vec<Result<Vec<u8>, TransportFault>>,
    written: Vec<[u8; 10]>,
    pauses: Vec<u64>,
    read_lengths: Vec<usize>,
    log: Vec<Action>,
    reports: Vec<DriverError>,
}

fn scripted_line(
    writes: Vec<Result<(), TransportFault>>,
    reads: Vec<Result<Vec<u8>, TransportFault>>,
) -> ScriptedLine {
    ScriptedLine {
        writes,
        reads,
        written: Vec::new(),
        pauses: Vec::new(),
        read_lengths: Vec::new(),
        log: Vec::new(),
        reports: Vec::new(),
    }
}

fn carry_out(procedure: &mut Procedure, line: &mut ScriptedLine) {
    let mut writes = line.writes.clone().into_iter();
    let mut reads = line.reads.clone().into_iter();
    for _ in 0..100 {
        let action = procedure.next_action();
        line.log.push(action);
        let event = match action {
            Action::Transmit(frame) => {
                line.written.push(frame.bytes());
                match writes.next().unwrap_or(Ok(())) {
                    Ok(()) => Event::Transmitted,
                    Err(fault) => Event::TransmitFailed(fault),
                }
            }
            Action::Pause(millis) => {
                line.pauses.push(millis);
                Event::Paused
            }
            Action::Receive(length) => {
                line.read_lengths.push(length);
                match reads.next().unwrap_or(Err(TransportFault::TimedOut)) {
                    Ok(bytes) => Event::Received(bytes),
                    Err(fault) => Event::ReceiveFailed(fault),
                }
            }
            Action::Finish => return,
        };
        if let Some(error) = procedure.advance(event) {
            line.reports.push(error);
        }
    }
    panic!("the procedure did not finish");
}

#[test]
fn assignment_constants() {
    assert_eq!(ASSIGNMENT_REPEATS, 5);
    assert_eq!(ASSIGNMENT_PAUSE_MS, 50);
}

#[test]
fn set_id_starts_with_the_identity_frame() {
    let procedure = MySerialPort::set_id(0x07);
    assert_eq!(procedure.kind(), CommandKind::AssignIdentity);
    assert_eq!(procedure.frame().bytes(), SET_ID_7);
    assert_eq!(procedure.failed_transmissions(), 0);
    assert_eq!(procedure.outcome(), &Outcome::Pending);
    assert!(!procedure.is_finished());
    assert_eq!(
        procedure.next_action(),
        Action::Transmit(MotorCommandFrame::set_identity(0x07))
    );
}

#[test]
fn set_id_transmits_five_frames_with_a_pause_after_each() {
    let mut procedure = MySerialPort::set_id(0x07);
    let mut line = scripted_line(vec![], vec![]);
    carry_out(&mut procedure, &mut line);
    assert_eq!(line.written, vec![SET_ID_7; 5]);
    assert_eq!(line.pauses, vec![50; 5]);
    assert!(line.read_lengths.is_empty());
    assert!(line.reports.is_empty());
    let frame = MotorCommandFrame::set_identity(0x07);
    let mut expected = Vec::new();
    for _ in 0..5 {
        expected.push(Action::Transmit(frame));
        expected.push(Action::Pause(50));
    }
    expected.push(Action::Finish);
    assert_eq!(line.log, expected);
    assert_eq!(procedure.outcome(), &Outcome::Done);
    assert_eq!(procedure.failed_transmissions(), 0);
    assert!(procedure.is_finished());
}

#[test]
fn set_id_goes_on_after_a_failed_transmission() {
    let mut procedure = MySerialPort::set_id(0x07);
    let mut line = scripted_line(
        vec![Ok(()), Ok(()), Err(TransportFault::Other), Ok(()), Ok(())],
        vec![],
    );
    carry_out(&mut procedure, &mut line);
    assert_eq!(line.written, vec![SET_ID_7; 5]);
    assert_eq!(line.pauses, vec![50; 5]);
    assert_eq!(line.reports, vec![DriverError::IoFailure]);
    assert_eq!(procedure.outcome(), &Outcome::Done);
    assert_eq!(procedure.failed_transmissions(), 1);
}

#[test]
fn set_id_goes_on_when_every_transmission_fails() {
    let mut procedure = MySerialPort::set_id(0x01);
    let mut line = scripted_line(
        vec![
            Err(TransportFault::TimedOut),
            Err(TransportFault::Other),
            Err(TransportFault::TimedOut),
            Err(TransportFault::Other),
            Err(TransportFault::Other),
        ],
        vec![],
    );
    carry_out(&mut procedure, &mut line);
    assert_eq!(line.written.len(), 5);
    assert_eq!(line.pauses, vec![50; 5]);
    assert_eq!(line.reports, vec![DriverError::IoFailure; 5]);
    assert_eq!(procedure.outcome(), &Outcome::Done);
    assert_eq!(procedure.failed_transmissions(), 5);
}

#[test]
fn switch_mode_transmits_one_frame_and_reads_nothing() {
    let mut procedure = MySerialPort::switch_mode(0x03, 3).expect("mode 3 is valid");
    assert_eq!(procedure.kind(), CommandKind::SwitchMode);
    let mut line = scripted_line(vec![], vec![]);
    carry_out(&mut procedure, &mut line);
    assert_eq!(line.written, vec![[0x03, 0xA0, 0, 0, 0, 0, 0, 0, 0, 0x03]]);
    assert!(line.pauses.is_empty());
    assert!(line.read_lengths.is_empty());
    assert!(line.reports.is_empty());
    assert_eq!(procedure.outcome(), &Outcome::Done);
}

#[test]
fn switch_mode_reports_a_failed_transmission_and_is_done() {
    let mut procedure = MySerialPort::switch_mode(0x03, 2).expect("mode 2 is valid");
    let mut line = scripted_line(vec![Err(TransportFault::Other)], vec![]);
    carry_out(&mut procedure, &mut line);
    assert_eq!(line.written.len(), 1);
    assert_eq!(line.reports, vec![DriverError::IoFailure]);
    assert_eq!(procedure.outcome(), &Outcome::Done);
    assert_eq!(procedure.failed_transmissions(), 1);
}

#[test]
fn switch_mode_with_mode_zero_starts_nothing() {
    assert_eq!(MySerialPort::switch_mode(0x03, 0), Err(DriverError::InvalidArgument));
    assert_eq!(MySerialPort::switch_mode(0x03, 4), Err(DriverError::InvalidArgument));
    assert_eq!(MySerialPort::switch_mode(0x03, 255), Err(DriverError::InvalidArgument));
}

#[test]
fn switch_to_each_mode_by_name() {
    assert_eq!(
        MySerialPort::switch_to_current_mode(0x09).frame().bytes(),
        [0x09, 0xA0, 0, 0, 0, 0, 0, 0, 0, 0x01]
    );
    assert_eq!(
        MySerialPort::switch_to_velocity_mode(0x09).frame().bytes(),
        [0x09, 0xA0, 0, 0, 0, 0, 0, 0, 0, 0x02]
    );
    assert_eq!(
        MySerialPort::switch_to_position_mode(0x09).frame().bytes(),
        [0x09, 0xA0, 0, 0, 0, 0, 0, 0, 0, 0x03]
    );
    assert_eq!(
        MySerialPort::switch_to_mode(0x09, MotorMode::Position),
        MySerialPort::switch_to_position_mode(0x09)
    );
    assert_eq!(
        MySerialPort::switch_mode(0x09, 1),
        Ok(MySerialPort::switch_to_current_mode(0x09))
    );
}

#[test]
fn query_id_returns_the_response() {
    let response = vec![0x01, 0x64, 0, 0, 0, 0, 0, 0, 0, 0x50];
    let mut procedure = MySerialPort::query_id();
    assert_eq!(procedure.kind(), CommandKind::QueryIdentity);
    let mut line = scripted_line(vec![], vec![Ok(response.clone())]);
    carry_out(&mut procedure, &mut line);
    assert_eq!(line.written, vec![QUERY]);
    assert_eq!(line.read_lengths, vec![10]);
    assert!(line.pauses.is_empty());
    assert!(line.reports.is_empty());
    assert_eq!(procedure.outcome(), &Outcome::Response(response));
    assert_eq!(procedure.response(), Some([0x01, 0x64, 0, 0, 0, 0, 0, 0, 0, 0x50]));
    assert_eq!(
        procedure.into_outcome(),
        Outcome::Response(vec![0x01, 0x64, 0, 0, 0, 0, 0, 0, 0, 0x50])
    );
}

#[test]
fn response_is_absent_until_a_query_has_read_it() {
    let mut query = MySerialPort::query_id();
    assert_eq!(query.response(), None);
    assert_eq!(query.advance(Event::Transmitted), None);
    assert_eq!(query.response(), None);
    assert_eq!(
        query.advance(Event::ReceiveFailed(TransportFault::TimedOut)),
        Some(DriverError::Timeout)
    );
    assert_eq!(query.response(), None);
    let mut switch = MySerialPort::switch_to_current_mode(0x01);
    assert_eq!(switch.advance(Event::Transmitted), None);
    assert_eq!(switch.response(), None);
    assert_eq!(switch.into_outcome(), Outcome::Done);
}

#[test]
fn query_id_without_a_response_times_out() {
    let mut procedure = MySerialPort::query_id();
    let mut line = scripted_line(vec![], vec![Err(TransportFault::TimedOut)]);
    carry_out(&mut procedure, &mut line);
    assert_eq!(line.written, vec![QUERY]);
    assert_eq!(line.read_lengths, vec![10]);
    assert_eq!(line.reports, vec![DriverError::Timeout]);
    assert_eq!(procedure.outcome(), &Outcome::Failed(DriverError::Timeout));
    assert!(procedure.is_finished());
}

#[test]
fn query_id_after_a_timeout_can_be_issued_again() {
    let mut first = MySerialPort::query_id();
    let mut line = scripted_line(vec![], vec![Err(TransportFault::TimedOut)]);
    carry_out(&mut first, &mut line);
    assert_eq!(first.outcome(), &Outcome::Failed(DriverError::Timeout));

    let response = vec![0x02, 0x64, 0, 0, 0, 0, 0, 0, 0, 0x11];
    let mut second = MySerialPort::query_id();
    let mut line = scripted_line(vec![], vec![Ok(response.clone())]);
    carry_out(&mut second, &mut line);
    assert_eq!(line.written, vec![QUERY]);
    assert_eq!(second.outcome(), &Outcome::Response(response));
}

#[test]
fn query_id_with_a_failed_read_is_a_transport_failure() {
    let mut procedure = MySerialPort::query_id();
    let mut line = scripted_line(vec![], vec![Err(TransportFault::Other)]);
    carry_out(&mut procedure, &mut line);
    assert_eq!(line.reports, vec![DriverError::IoFailure]);
    assert_eq!(procedure.outcome(), &Outcome::Failed(DriverError::IoFailure));
}

#[test]
fn query_id_with_a_failed_write_reads_nothing() {
    let mut procedure = MySerialPort::query_id();
    let mut line = scripted_line(
        vec![Err(TransportFault::TimedOut)],
        vec![Ok(vec![0; 10])],
    );
    carry_out(&mut procedure, &mut line);
    assert_eq!(line.written, vec![QUERY]);
    assert!(line.read_lengths.is_empty());
    assert_eq!(line.reports, vec![DriverError::IoFailure]);
    assert_eq!(procedure.outcome(), &Outcome::Failed(DriverError::IoFailure));
    assert_eq!(procedure.failed_transmissions(), 0);
}

#[test]
fn query_id_refuses_a_response_of_another_length() {
    for length in [0usize, 9, 11] {
        let mut procedure = MySerialPort::query_id();
        let mut line = scripted_line(vec![], vec![Ok(vec![0xAB; length])]);
        carry_out(&mut procedure, &mut line);
        assert_eq!(line.reports, vec![DriverError::IoFailure]);
        assert_eq!(procedure.outcome(), &Outcome::Failed(DriverError::IoFailure));
    }
}

#[test]
fn an_event_that_does_not_fit_the_action_changes_nothing() {
    let mut procedure = MySerialPort::set_id(0x07);
    assert_eq!(procedure.advance(Event::Paused), Some(DriverError::InvalidArgument));
    assert_eq!(
        procedure.advance(Event::Received(vec![0; 10])),
        Some(DriverError::InvalidArgument)
    );
    assert_eq!(
        procedure.advance(Event::ReceiveFailed(TransportFault::TimedOut)),
        Some(DriverError::InvalidArgument)
    );
    assert_eq!(procedure, MySerialPort::set_id(0x07));
    assert_eq!(procedure.advance(Event::Transmitted), None);
    assert_eq!(procedure.next_action(), Action::Pause(50));
    assert_eq!(procedure.advance(Event::Transmitted), Some(DriverError::InvalidArgument));
    assert_eq!(
        procedure.advance(Event::TransmitFailed(TransportFault::Other)),
        Some(DriverError::InvalidArgument)
    );
    assert_eq!(procedure.next_action(), Action::Pause(50));
    assert_eq!(procedure.failed_transmissions(), 0);
}

#[test]
fn a_finished_procedure_refuses_every_event() {
    let mut procedure = MySerialPort::switch_to_velocity_mode(0x02);
    assert_eq!(procedure.advance(Event::Transmitted), None);
    assert!(procedure.is_finished());
    assert_eq!(procedure.next_action(), Action::Finish);
    assert_eq!(procedure.advance(Event::Transmitted), Some(DriverError::InvalidArgument));
    assert_eq!(procedure.advance(Event::Paused), Some(DriverError::InvalidArgument));
    assert_eq!(procedure.outcome(), &Outcome::Done);
    assert_eq!(procedure.next_action(), Action::Finish);
}

#[test]
fn a_procedure_can_be_started_for_any_frame() {
    let frame = MotorCommandFrame::set_identity(0x2A);
    let procedure = Procedure::start(CommandKind::SwitchMode, frame);
    assert_eq!(procedure.kind(), CommandKind::SwitchMode);
    assert_eq!(procedure.frame(), frame);
    assert_eq!(procedure.next_action(), Action::Transmit(frame));
}

#[test]
fn failures_are_classified() {
    assert_eq!(DriverError::send_failure(TransportFault::TimedOut), DriverError::IoFailure);
    assert_eq!(DriverError::send_failure(TransportFault::Other), DriverError::IoFailure);
    assert_eq!(DriverError::receive_failure(TransportFault::TimedOut), DriverError::Timeout);
    assert_eq!(DriverError::receive_failure(TransportFault::Other), DriverError::IoFailure);
    assert_eq!(DriverError::open_failure(), DriverError::DeviceUnavailable);
}

#[test]
fn controller_starts_in_the_velocity_mode() {
    let controller = MotorController::new();
    assert_eq!(controller.mode(), MotorMode::Velocity);
}

#[test]
fn controller_keeps_the_mode_that_was_last_commanded() {
    let mut controller = MotorController::new();
    let procedure = controller.switch_mode(0x03, MotorMode::Position);
    assert_eq!(procedure.frame().bytes(), [0x03, 0xA0, 0, 0, 0, 0, 0, 0, 0, 0x03]);
    assert_eq!(controller.mode(), MotorMode::Position);
    let procedure = controller.switch_mode(0x03, MotorMode::Current);
    assert_eq!(procedure.frame().bytes(), [0x03, 0xA0, 0, 0, 0, 0, 0, 0, 0, 0x01]);
    assert_eq!(controller.mode(), MotorMode::Current);
    let procedure = controller.switch_mode(0x03, MotorMode::Velocity);
    assert_eq!(procedure.frame().bytes(), [0x03, 0xA0, 0, 0, 0, 0, 0, 0, 0, 0x02]);
    assert_eq!(controller.mode(), MotorMode::Velocity);
}

#[test]
fn controller_commands_that_leave_the_mode() {
    let mut controller = MotorController::new();
    controller.switch_mode(0x01, MotorMode::Current);
    assert_eq!(controller.assign_identity(0x07), MySerialPort::set_id(0x07));
    assert_eq!(controller.query_identity(), MySerialPort::query_id());
    assert_eq!(controller.query_identity().frame().bytes(), QUERY);
    assert_eq!(controller.mode(), MotorMode::Current);
}
