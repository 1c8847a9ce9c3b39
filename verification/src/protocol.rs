//! The linear acquisition protocol of the sensor bus driver.
//!
//! One acquisition walks a fixed sequence of states: acquire the bus, wait
//! for ready, reset, wait for ready, request a measurement, wait for ready,
//! block-read the payload, decode. Every bus and pin operation is performed
//! by the surrounding program: for each state, [`required_action`] names the
//! operation to perform, and [`protocol_step`] maps the state and the
//! operation's outcome to the next state, a completed reading, or an error.
//! Any step failure aborts the remaining steps with its own error kind; no
//! retry happens inside the protocol.
//!
//! The bus and pin handles are owned exclusively by one acquisition for its
//! whole duration; at most one acquisition may be in flight per physical
//! device at a time.

use vstd::prelude::*;

use crate::codec::PAYLOAD_LEN;
use crate::codec::decode_payload;
use crate::codec::spec_decode_readings;
use crate::reading::Readings;
use crate::reading::SensorError;

verus! {

/// Fixed 7-bit bus address of the sensor device.
pub const DEVICE_ADDRESS: u16 = 0x71;

/// Command byte that resets the device.
pub const RESET_COMMAND: u8 = 0xe2;

/// Command byte that requests an on-demand air-data measurement.
pub const REQUEST_COMMAND: u8 = 0xe1;

/// Device register at which the block read of the payload starts.
pub const DATA_REGISTER: u8 = 0x10;

/// Settle delay after each command byte, in milliseconds; device-imposed.
pub const SETTLE_DELAY_MS: u64 = 10;

/// The states of one acquisition, in protocol order. The protocol is linear:
/// each state has exactly one successor on success.
#[derive(Clone, Copy, Debug, PartialEq, Eq, Structural)]
pub enum DriverState {
    /// Open the bus session and address the device.
    Acquire,
    /// The device must be idle before any command is sent.
    AwaitReadyBeforeReset,
    /// Send the reset command.
    Reset,
    /// Ready again confirms that the reset completed.
    AwaitReadyAfterReset,
    /// Send the on-demand measurement request.
    Request,
    /// Ready again confirms that the measurement can be read.
    AwaitReadyAfterRequest,
    /// Block-read the 12-byte payload.
    ReadPayload,
}

/// The bus or pin operation that the surrounding program must perform next
/// on behalf of the driver.
#[derive(Clone, Copy, Debug, PartialEq, Eq, Structural)]
pub enum BusAction {
    /// Open the bus session and address the device at [`DEVICE_ADDRESS`].
    OpenBus,
    /// Poll the ready line every [`crate::monitor::POLL_INTERVAL_MS`]
    /// milliseconds until it reads logical low.
    WaitReady,
    /// Write this single command byte, then sleep [`SETTLE_DELAY_MS`]
    /// milliseconds.
    SendCommand { command: u8 },
    /// Block-read `length` bytes starting at device register `register`.
    ReadBlock { register: u8, length: usize },
}

/// What came back from performing a [`BusAction`].
#[derive(Debug)]
pub enum BusEvent {
    /// The bus session was opened and the device addressed.
    BusOpened,
    /// The bus could not be opened or the device could not be addressed.
    BusOpenFailed,
    /// The ready line was observed at logical low.
    ReadyLow,
    /// The ready line could not be read.
    LineReadFailed,
    /// The command byte was written.
    WriteDone,
    /// The command byte could not be written.
    WriteFailed,
    /// The block read returned these bytes.
    ReadDone(Vec<u8>),
    /// The block read transaction failed outright.
    ReadFailed,
}

/// The driver's verdict after one protocol step.
#[derive(Clone, Copy, Debug, PartialEq, Eq, Structural)]
pub enum StepOutcome {
    /// The step succeeded; perform the next state's action.
    Continue(DriverState),
    /// The payload was read in full and decoded.
    Complete(Readings),
    /// The step failed; the acquisition is over.
    Fail(SensorError),
}

/// The action that each state asks of the surrounding program.
pub open spec fn spec_required_action(state: DriverState) -> BusAction {
    match state {
        DriverState::Acquire => BusAction::OpenBus,
        DriverState::AwaitReadyBeforeReset => BusAction::WaitReady,
        DriverState::Reset => (BusAction::SendCommand { command: RESET_COMMAND }),
        DriverState::AwaitReadyAfterReset => BusAction::WaitReady,
        DriverState::Request => (BusAction::SendCommand { command: REQUEST_COMMAND }),
        DriverState::AwaitReadyAfterRequest => BusAction::WaitReady,
        DriverState::ReadPayload => (BusAction::ReadBlock {
            register: DATA_REGISTER,
            length: PAYLOAD_LEN,
        }),
    }
}

/// The outcome of one protocol step. Each state accepts exactly its action's
/// success event; any other outcome of the action aborts the acquisition
/// with that step's error kind. A block read that returns anything but the
/// full 12-byte payload fails with a bus-read error and produces no reading.
pub open spec fn spec_protocol_step(state: DriverState, event: BusEvent) -> StepOutcome {
    match state {
        DriverState::Acquire => match event {
            BusEvent::BusOpened => StepOutcome::Continue(DriverState::AwaitReadyBeforeReset),
            _ => StepOutcome::Fail(SensorError::BusUnavailable),
        },
        DriverState::AwaitReadyBeforeReset => match event {
            BusEvent::ReadyLow => StepOutcome::Continue(DriverState::Reset),
            _ => StepOutcome::Fail(SensorError::IoUnavailable),
        },
        DriverState::Reset => match event {
            BusEvent::WriteDone => StepOutcome::Continue(DriverState::AwaitReadyAfterReset),
            _ => StepOutcome::Fail(SensorError::BusWriteError),
        },
        DriverState::AwaitReadyAfterReset => match event {
            BusEvent::ReadyLow => StepOutcome::Continue(DriverState::Request),
            _ => StepOutcome::Fail(SensorError::IoUnavailable),
        },
        DriverState::Request => match event {
            BusEvent::WriteDone => StepOutcome::Continue(DriverState::AwaitReadyAfterRequest),
            _ => StepOutcome::Fail(SensorError::BusWriteError),
        },
        DriverState::AwaitReadyAfterRequest => match event {
            BusEvent::ReadyLow => StepOutcome::Continue(DriverState::ReadPayload),
            _ => StepOutcome::Fail(SensorError::IoUnavailable),
        },
        DriverState::ReadPayload => match event {
            BusEvent::ReadDone(bytes) => if bytes@.len() == PAYLOAD_LEN {
                StepOutcome::Complete(spec_decode_readings(bytes@))
            } else {
                StepOutcome::Fail(SensorError::BusReadError)
            },
            _ => StepOutcome::Fail(SensorError::BusReadError),
        },
    }
}

/// The state in which every acquisition begins.
pub fn initial_state() -> (s: DriverState)
    ensures
        s == DriverState::Acquire,
{
    DriverState::Acquire
}

/// The bus or pin operation to perform while the driver is in `state`.
pub fn required_action(state: DriverState) -> (a: BusAction)
    ensures
        a == spec_required_action(state),
{
    match state {
        DriverState::Acquire => BusAction::OpenBus,
        DriverState::AwaitReadyBeforeReset => BusAction::WaitReady,
        DriverState::Reset => BusAction::SendCommand { command: RESET_COMMAND },
        DriverState::AwaitReadyAfterReset => BusAction::WaitReady,
        DriverState::Request => BusAction::SendCommand { command: REQUEST_COMMAND },
        DriverState::AwaitReadyAfterRequest => BusAction::WaitReady,
        DriverState::ReadPayload => BusAction::ReadBlock {
            register: DATA_REGISTER,
            length: PAYLOAD_LEN,
        },
    }
}

/// Advance the protocol by one step: `event` is the outcome of performing
/// `state`'s required action.
pub fn protocol_step(state: DriverState, event: BusEvent) -> (out: StepOutcome)
    ensures
        out == spec_protocol_step(state, event),
{
    match state {
        DriverState::Acquire => match event {
            BusEvent::BusOpened => StepOutcome::Continue(DriverState::AwaitReadyBeforeReset),
            _ => StepOutcome::Fail(SensorError::BusUnavailable),
        },
        DriverState::AwaitReadyBeforeReset => match event {
            BusEvent::ReadyLow => StepOutcome::Continue(DriverState::Reset),
            _ => StepOutcome::Fail(SensorError::IoUnavailable),
        },
        DriverState::Reset => match event {
            BusEvent::WriteDone => StepOutcome::Continue(DriverState::AwaitReadyAfterReset),
            _ => StepOutcome::Fail(SensorError::BusWriteError),
        },
        DriverState::AwaitReadyAfterReset => match event {
            BusEvent::ReadyLow => StepOutcome::Continue(DriverState::Request),
            _ => StepOutcome::Fail(SensorError::IoUnavailable),
        },
        DriverState::Request => match event {
            BusEvent::WriteDone => StepOutcome::Continue(DriverState::AwaitReadyAfterRequest),
            _ => StepOutcome::Fail(SensorError::BusWriteError),
        },
        DriverState::AwaitReadyAfterRequest => match event {
            BusEvent::ReadyLow => StepOutcome::Continue(DriverState::ReadPayload),
            _ => StepOutcome::Fail(SensorError::IoUnavailable),
        },
        DriverState::ReadPayload => match event {
            BusEvent::ReadDone(bytes) => match decode_payload(&bytes) {
                Ok(r) => StepOutcome::Complete(r),
                Err(e) => StepOutcome::Fail(e),
            },
            _ => StepOutcome::Fail(SensorError::BusReadError),
        },
    }
}

/// Law: a block read that returns fewer bytes than the full payload aborts
/// the protocol with a bus-read error; no reading is ever constructed from a
/// partial payload.
pub proof fn lemma_short_read_fails(bytes: Vec<u8>)
    requires
        bytes@.len() < PAYLOAD_LEN,
    ensures
        spec_protocol_step(DriverState::ReadPayload, BusEvent::ReadDone(bytes))
            == StepOutcome::Fail(SensorError::BusReadError),
{
}

} // verus!
