use env_senso_rs::codec::PAYLOAD_LEN;
use env_senso_rs::protocol::{
    initial_state, protocol_step, required_action, BusAction, BusEvent, DriverState, StepOutcome,
    DATA_REGISTER, DEVICE_ADDRESS, REQUEST_COMMAND, RESET_COMMAND, SETTLE_DELAY_MS,
};
use env_senso_rs::reading::{Readings, SensorError};

fn reference_payload() -> Vec<u8> {
    vec![
        0x16, 0x05, 0x01, 0x00, 0x00, 0x00, 0x37, 0x00, 0x2A, 0x00, 0x00, 0x00,
    ]
}

#[test]
fn device_facing_constants() {
    assert_eq!(DEVICE_ADDRESS, 0x71);
    assert_eq!(RESET_COMMAND, 0xE2);
    assert_eq!(REQUEST_COMMAND, 0xE1);
    assert_eq!(DATA_REGISTER, 0x10);
    assert_eq!(PAYLOAD_LEN, 12);
    assert_eq!(SETTLE_DELAY_MS, 10);
}

#[test]
fn each_state_asks_its_action() {
    assert_eq!(required_action(DriverState::Acquire), BusAction::OpenBus);
    assert_eq!(
        required_action(DriverState::AwaitReadyBeforeReset),
        BusAction::WaitReady
    );
    assert_eq!(
        required_action(DriverState::Reset),
        BusAction::SendCommand { command: 0xE2 }
    );
    assert_eq!(
        required_action(DriverState::AwaitReadyAfterReset),
        BusAction::WaitReady
    );
    assert_eq!(
        required_action(DriverState::Request),
        BusAction::SendCommand { command: 0xE1 }
    );
    assert_eq!(
        required_action(DriverState::AwaitReadyAfterRequest),
        BusAction::WaitReady
    );
    assert_eq!(
        required_action(DriverState::ReadPayload),
        BusAction::ReadBlock {
            register: 0x10,
            length: 12
        }
    );
}

#[test]
fn full_acquisition_walk() {
    let mut state = initial_state();
    assert_eq!(state, DriverState::Acquire);

    let happy_events = [
        BusEvent::BusOpened,
        BusEvent::ReadyLow,
        BusEvent::WriteDone,
        BusEvent::ReadyLow,
        BusEvent::WriteDone,
        BusEvent::ReadyLow,
    ];
    for event in happy_events {
        match protocol_step(state, event) {
            StepOutcome::Continue(next) => state = next,
            other => panic!("protocol aborted early: {:?}", other),
        }
    }
    assert_eq!(state, DriverState::ReadPayload);

    let expected = Readings {
        temperature_tenths: 225,
        humidity_tenths: 555,
        air_pressure: 1,
        gas: 42,
    };
    assert_eq!(
        protocol_step(state, BusEvent::ReadDone(reference_payload())),
        StepOutcome::Complete(expected)
    );
}

#[test]
fn failed_bus_open_is_bus_unavailable() {
    assert_eq!(
        protocol_step(DriverState::Acquire, BusEvent::BusOpenFailed),
        StepOutcome::Fail(SensorError::BusUnavailable)
    );
}

#[test]
fn unreadable_line_is_io_unavailable() {
    for state in [
        DriverState::AwaitReadyBeforeReset,
        DriverState::AwaitReadyAfterReset,
        DriverState::AwaitReadyAfterRequest,
    ] {
        assert_eq!(
            protocol_step(state, BusEvent::LineReadFailed),
            StepOutcome::Fail(SensorError::IoUnavailable)
        );
    }
}

#[test]
fn failed_command_write_is_bus_write_error() {
    assert_eq!(
        protocol_step(DriverState::Reset, BusEvent::WriteFailed),
        StepOutcome::Fail(SensorError::BusWriteError)
    );
    assert_eq!(
        protocol_step(DriverState::Request, BusEvent::WriteFailed),
        StepOutcome::Fail(SensorError::BusWriteError)
    );
}

#[test]
fn failed_block_read_is_bus_read_error() {
    assert_eq!(
        protocol_step(DriverState::ReadPayload, BusEvent::ReadFailed),
        StepOutcome::Fail(SensorError::BusReadError)
    );
}

#[test]
fn short_read_never_completes() {
    for len in [0, 1, 6, 11] {
        let outcome = protocol_step(
            DriverState::ReadPayload,
            BusEvent::ReadDone(reference_payload()[..len].to_vec()),
        );
        assert_eq!(outcome, StepOutcome::Fail(SensorError::BusReadError));
        assert!(!matches!(outcome, StepOutcome::Complete(_)));
    }
}
