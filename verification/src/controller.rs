//! The commands of the motor, and the controller that issues them.
//!
//! Each command is handed out as a [`Procedure`]: the caller that owns the
//! line carries it out. Two obligations rest with the caller, because the
//! driver has no feedback to check them against. While an identity is
//! assigned, exactly one motor is on the bus, and this happens at most once
//! per power cycle. When a motor is switched to the position loop, it turns
//! slower than 10 rpm.

use vstd::prelude::*;
use crate::config::MySerialPort;
use crate::error::DriverError;
use crate::frame::{
    query_identity_bytes,
    set_identity_bytes,
    switch_mode_bytes,
    CommandKind,
    MotorCommandFrame,
    MotorMode,
};
use crate::procedure::{Procedure, ProcedureState};

verus! {

/// Whether `state` is the start of the command `kind` with a frame of the
/// given bytes.
pub open spec fn starts_command(state: ProcedureState, kind: CommandKind, bytes: Seq<u8>) -> bool {
    &&& state == ProcedureState::start(kind, state.frame)
    &&& state.frame@ == bytes
}

impl MySerialPort {
    /// Starts the assignment of the identity `id` to the one motor on the
    /// bus: the identity frame, written five times with a pause after each.
    pub fn set_id(id: u8) -> (procedure: Procedure)
        ensures
            starts_command(procedure@, CommandKind::AssignIdentity, set_identity_bytes(id)),
    {
        Procedure::start(CommandKind::AssignIdentity, MotorCommandFrame::set_identity(id))
    }

    /// Starts the switch of motor `id` to the mode with the wire byte
    /// `mode`. A byte other than 1, 2 and 3 is refused as an invalid
    /// argument, before anything is written.
    pub fn switch_mode(id: u8, mode: u8) -> (procedure: Result<Procedure, DriverError>)
        ensures
            MotorMode::spec_from_code(mode) is Some ==> procedure is Ok && starts_command(
                procedure->Ok_0@,
                CommandKind::SwitchMode,
                switch_mode_bytes(id, mode),
            ),
            MotorMode::spec_from_code(mode) is None ==> procedure is Err && procedure->Err_0
                == DriverError::InvalidArgument,
    {
        match MotorCommandFrame::switch_mode(id, mode) {
            Ok(frame) => Ok(Procedure::start(CommandKind::SwitchMode, frame)),
            Err(error) => Err(error),
        }
    }

    /// Starts the switch of motor `id` to `mode`.
    pub fn switch_to_mode(id: u8, mode: MotorMode) -> (procedure: Procedure)
        ensures
            starts_command(
                procedure@,
                CommandKind::SwitchMode,
                switch_mode_bytes(id, mode.spec_code()),
            ),
    {
        Procedure::start(CommandKind::SwitchMode, MotorCommandFrame::switch_to(id, mode))
    }

    /// Starts the switch of motor `id` to the current loop.
    pub fn switch_to_current_mode(id: u8) -> (procedure: Procedure)
        ensures
            starts_command(procedure@, CommandKind::SwitchMode, switch_mode_bytes(id, 1)),
    {
        Self::switch_to_mode(id, MotorMode::Current)
    }

    /// Starts the switch of motor `id` to the velocity loop.
    pub fn switch_to_velocity_mode(id: u8) -> (procedure: Procedure)
        ensures
            starts_command(procedure@, CommandKind::SwitchMode, switch_mode_bytes(id, 2)),
    {
        Self::switch_to_mode(id, MotorMode::Velocity)
    }

    /// Starts the switch of motor `id` to the position loop.
    pub fn switch_to_position_mode(id: u8) -> (procedure: Procedure)
        ensures
            starts_command(procedure@, CommandKind::SwitchMode, switch_mode_bytes(id, 3)),
    {
        Self::switch_to_mode(id, MotorMode::Position)
    }

    /// Starts the query for the identity of the motor: the query frame,
    /// written once, and a response of ten bytes.
    pub fn query_id() -> (procedure: Procedure)
        ensures
            starts_command(procedure@, CommandKind::QueryIdentity, query_identity_bytes()),
    {
        Procedure::start(CommandKind::QueryIdentity, MotorCommandFrame::query_identity())
    }
}

/// Issues the commands of one motor bus and keeps the mode that was last
/// commanded. The motor is never asked for its mode: after power-on it runs
/// the velocity loop, and from then on the controller goes by what it sent.
#[derive(Debug, PartialEq, Eq)]
pub struct MotorController {
    mode: MotorMode,
}

impl View for MotorController {
    type V = MotorMode;

    closed spec fn view(&self) -> MotorMode {
        self.mode
    }
}

impl MotorController {
    /// The controller of a bus whose motor was just powered on.
    pub fn new() -> (controller: MotorController)
        ensures
            controller@ == MotorMode::Velocity,
    {
        MotorController { mode: MotorMode::Velocity }
    }

    /// The mode that was last commanded.
    pub fn mode(&self) -> (mode: MotorMode)
        ensures
            mode == self@,
    {
        self.mode
    }

    /// Starts the assignment of the identity `id`. The mode stays.
    pub fn assign_identity(&self, id: u8) -> (procedure: Procedure)
        ensures
            starts_command(procedure@, CommandKind::AssignIdentity, set_identity_bytes(id)),
    {
        MySerialPort::set_id(id)
    }

    /// Starts the switch of motor `id` to `mode`, from whichever mode was
    /// commanded before, and takes `mode` as the commanded mode.
    pub fn switch_mode(&mut self, id: u8, mode: MotorMode) -> (procedure: Procedure)
        ensures
            final(self)@ == mode,
            starts_command(
                procedure@,
                CommandKind::SwitchMode,
                switch_mode_bytes(id, mode.spec_code()),
            ),
    {
        self.mode = mode;
        MySerialPort::switch_to_mode(id, mode)
    }

    /// Starts the query for the identity of the motor. The mode stays.
    pub fn query_identity(&self) -> (procedure: Procedure)
        ensures
            starts_command(procedure@, CommandKind::QueryIdentity, query_identity_bytes()),
    {
        MySerialPort::query_id()
    }
}

} // verus!
