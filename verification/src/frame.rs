//! The ten-byte frames that travel on the line.

use vstd::prelude::*;
use crate::checksum::{checksum_of, compute, crc8_maxim, ChecksumAlgorithm};
use crate::error::DriverError;

verus! {

/// The length of every frame, command or response.
pub const FRAME_LEN: usize = 10;

/// The commands of the protocol.
#[derive(Clone, Copy, Debug, PartialEq, Eq, Structural)]
pub enum CommandKind {
    /// Bind an identity to the one motor on the bus. Nothing is read back.
    AssignIdentity,
    /// Switch the control loop of a motor. Nothing is read back.
    SwitchMode,
    /// Ask the motor for its identity and read its response.
    QueryIdentity,
}

impl CommandKind {
    /// The checksum that closes a frame of this command, if it has one. The
    /// identity assignment relies on its prefix and on repetition instead,
    /// and the mode switch ends with the mode byte.
    pub open spec fn spec_checksum(self) -> Option<ChecksumAlgorithm> {
        match self {
            CommandKind::AssignIdentity => None,
            CommandKind::SwitchMode => None,
            CommandKind::QueryIdentity => Some(ChecksumAlgorithm::Crc8Maxim),
        }
    }

    /// The checksum that closes a frame of this command, if it has one.
    pub fn checksum(self) -> (algorithm: Option<ChecksumAlgorithm>)
        ensures
            algorithm == self.spec_checksum(),
    {
        match self {
            CommandKind::AssignIdentity => None,
            CommandKind::SwitchMode => None,
            CommandKind::QueryIdentity => Some(ChecksumAlgorithm::Crc8Maxim),
        }
    }
}

/// The control loop that the motor runs.
#[derive(Clone, Copy, Debug, PartialEq, Eq, Structural)]
pub enum MotorMode {
    /// Current loop.
    Current,
    /// Velocity loop, the mode after power-on.
    Velocity,
    /// Position loop. The motor must turn slower than 10 rpm when it is
    /// switched to this mode; the driver has no way to check that.
    Position,
}

impl MotorMode {
    /// The byte that stands for the mode on the wire.
    pub open spec fn spec_code(self) -> u8 {
        match self {
            MotorMode::Current => 1,
            MotorMode::Velocity => 2,
            MotorMode::Position => 3,
        }
    }

    /// The mode that a wire byte stands for, if any.
    pub open spec fn spec_from_code(code: u8) -> Option<MotorMode> {
        if code == 1 {
            Some(MotorMode::Current)
        } else if code == 2 {
            Some(MotorMode::Velocity)
        } else if code == 3 {
            Some(MotorMode::Position)
        } else {
            None
        }
    }

    /// The byte that stands for the mode on the wire.
    pub fn code(self) -> (code: u8)
        ensures
            code == self.spec_code(),
    {
        match self {
            MotorMode::Current => 1,
            MotorMode::Velocity => 2,
            MotorMode::Position => 3,
        }
    }

    /// Reads a wire byte as a mode. Bytes other than 1, 2 and 3 are refused
    /// as an invalid argument.
    pub fn from_code(code: u8) -> (mode: Result<MotorMode, DriverError>)
        ensures
            match Self::spec_from_code(code) {
                Some(m) => mode == Ok::<MotorMode, DriverError>(m),
                None => mode == Err::<MotorMode, DriverError>(DriverError::InvalidArgument),
            },
    {
        if code == 1 {
            Ok(MotorMode::Current)
        } else if code == 2 {
            Ok(MotorMode::Velocity)
        } else if code == 3 {
            Ok(MotorMode::Position)
        } else {
            Err(DriverError::InvalidArgument)
        }
    }
}

impl Default for MotorMode {
    fn default() -> (mode: MotorMode)
        ensures
            mode == MotorMode::Velocity,
    {
        MotorMode::Velocity
    }
}

/// The bytes of the frame that assigns the identity `id` to the one motor on
/// the bus: a three-byte prefix, the identity, six zero bytes. It carries no
/// checksum.
pub open spec fn set_identity_bytes(id: u8) -> Seq<u8> {
    seq![0xAAu8, 0x55u8, 0x53u8, id, 0u8, 0u8, 0u8, 0u8, 0u8, 0u8]
}

/// The bytes of the frame that switches motor `id` to the mode with the wire
/// byte `mode`: the identity, the opcode 0xA0, seven zero bytes, the mode. It
/// carries no checksum.
pub open spec fn switch_mode_bytes(id: u8, mode: u8) -> Seq<u8> {
    seq![id, 0xA0u8, 0u8, 0u8, 0u8, 0u8, 0u8, 0u8, 0u8, mode]
}

/// The nine bytes of the identity query that its checksum covers.
pub open spec fn query_identity_payload() -> Seq<u8> {
    seq![0xC8u8, 0x64u8, 0u8, 0u8, 0u8, 0u8, 0u8, 0u8, 0u8]
}

/// The bytes of the frame that asks the motor for its identity: the payload
/// and its eight-bit checksum.
pub open spec fn query_identity_bytes() -> Seq<u8> {
    query_identity_payload().push(crc8_maxim(query_identity_payload()))
}

/// A command frame: exactly ten bytes, written to the line as a whole.
#[derive(Clone, Copy, Debug, PartialEq, Eq)]
pub struct MotorCommandFrame {
    bytes: [u8; 10],
}

impl View for MotorCommandFrame {
    type V = Seq<u8>;

    closed spec fn view(&self) -> Seq<u8> {
        self.bytes@
    }
}

impl MotorCommandFrame {
    /// Every frame has ten bytes.
    pub proof fn length_is_fixed(self)
        ensures
            self@.len() == FRAME_LEN,
    {
    }

    /// The frame that assigns the identity `id`.
    pub fn set_identity(id: u8) -> (frame: MotorCommandFrame)
        ensures
            frame@ == set_identity_bytes(id),
    {
        let frame = MotorCommandFrame {
            bytes: [0xAA, 0x55, 0x53, id, 0x00, 0x00, 0x00, 0x00, 0x00, 0x00],
        };
        assert(frame@ =~= set_identity_bytes(id));
        frame
    }

    /// The frame that switches motor `id` to `mode`.
    pub fn switch_to(id: u8, mode: MotorMode) -> (frame: MotorCommandFrame)
        ensures
            frame@ == switch_mode_bytes(id, mode.spec_code()),
    {
        let frame = MotorCommandFrame {
            bytes: [id, 0xA0, 0x00, 0x00, 0x00, 0x00, 0x00, 0x00, 0x00, mode.code()],
        };
        assert(frame@ =~= switch_mode_bytes(id, mode.spec_code()));
        frame
    }

    /// The frame that switches motor `id` to the mode with the wire byte
    /// `mode`. A byte other than 1, 2 and 3 is refused as an invalid
    /// argument, and no frame is made.
    pub fn switch_mode(id: u8, mode: u8) -> (frame: Result<MotorCommandFrame, DriverError>)
        ensures
            MotorMode::spec_from_code(mode) is Some ==> frame is Ok && frame->Ok_0@
                == switch_mode_bytes(id, mode),
            MotorMode::spec_from_code(mode) is None ==> frame is Err && frame->Err_0
                == DriverError::InvalidArgument,
    {
        match MotorMode::from_code(mode) {
            Ok(known) => Ok(Self::switch_to(id, known)),
            Err(error) => Err(error),
        }
    }

    /// The frame that asks the motor for its identity.
    pub fn query_identity() -> (frame: MotorCommandFrame)
        ensures
            frame@ == query_identity_bytes(),
    {
        let payload: [u8; 9] = [0xC8, 0x64, 0x00, 0x00, 0x00, 0x00, 0x00, 0x00, 0x00];
        assert(payload@ =~= query_identity_payload());
        let crc: u16 = compute(ChecksumAlgorithm::Crc8Maxim, payload.as_slice());
        let frame = MotorCommandFrame {
            bytes: [0xC8, 0x64, 0x00, 0x00, 0x00, 0x00, 0x00, 0x00, 0x00, crc as u8],
        };
        assert(frame@ =~= query_identity_bytes());
        frame
    }

    /// The ten bytes of the frame, in the order in which they are sent.
    pub fn bytes(&self) -> (bytes: [u8; 10])
        ensures
            bytes@ == self@,
    {
        self.bytes
    }
}

/// The query frame ends with the checksum of the nine bytes before it, under
/// the algorithm of its command.
pub proof fn query_frame_carries_its_checksum()
    ensures
        query_identity_bytes().len() == FRAME_LEN,
        CommandKind::QueryIdentity.spec_checksum() is Some,
        query_identity_bytes()[9] == checksum_of(
            CommandKind::QueryIdentity.spec_checksum()->Some_0,
            query_identity_bytes().take(9),
        ),
{
    assert(query_identity_bytes().take(9) =~= query_identity_payload());
}

} // verus!
