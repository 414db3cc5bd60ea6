//! The framing of single transactions on the serial channel.
use vstd::prelude::*;

verus! {

/// The framing opcode that opens a transaction.
#[derive(Clone, Copy, Debug, PartialEq, Eq, Structural)]
pub enum Command {
    DataWrite,
    DataRead,
    CmdWrite,
    CmdRead,
}

impl Command {
    pub open spec fn spec_opcode(self) -> u8 {
        match self {
            Command::DataWrite => 0x00,
            Command::DataRead => 0x40,
            Command::CmdWrite => 0x80,
            Command::CmdRead => 0xC0,
        }
    }

    /// The byte sent first in a transaction of this kind.
    #[verifier::when_used_as_spec(spec_opcode)]
    pub fn opcode(self) -> (r: u8)
        ensures
            r == self.spec_opcode(),
    {
        match self {
            Command::DataWrite => 0x00,
            Command::DataRead => 0x40,
            Command::CmdWrite => 0x80,
            Command::CmdRead => 0xC0,
        }
    }

    /// Whether the second byte of the transaction carries a value back from the chip.
    pub open spec fn is_read(self) -> bool {
        self is DataRead || self is CmdRead
    }
}

/// The two bytes of one transaction, exchanged while chip select is held low:
/// the opcode, then the payload (a dummy zero for reads, whose answer arrives
/// in exchange for it).
#[derive(Clone, Copy, Debug, PartialEq, Eq, Structural)]
pub struct Frame {
    pub opcode: u8,
    pub payload: u8,
}

/// The ways an operation of the driver can fail short of the channel itself.
#[derive(Clone, Copy, Debug, PartialEq, Eq, Structural)]
pub enum DriverError {
    /// The ready line was low: nothing was sent, and the transaction must be retried.
    NotReady,
    /// The panel resolution is not one the timing table knows.
    UnsupportedConfiguration,
    /// The operation is not defined in the current display mode.
    InvalidModeOperation,
}

/// Decides whether a transaction may start, given the level of the ready line
/// read just before, and if so which two bytes it exchanges.
///
/// A low ready line yields `NotReady` and no frame at all: not even the
/// opcode reaches the channel.
pub fn frame(ready: bool, command: Command, payload: u8) -> (r: Result<Frame, DriverError>)
    ensures
        !ready ==> r == Err::<Frame, DriverError>(DriverError::NotReady),
        ready ==> r == Ok::<Frame, DriverError>(
            Frame {
                opcode: command.spec_opcode(),
                payload: if command.is_read() { 0 } else { payload },
            },
        ),
{
    if !ready {
        return Err(DriverError::NotReady);
    }
    let payload = match command {
        Command::DataRead | Command::CmdRead => 0,
        _ => payload,
    };
    Ok(Frame { opcode: command.opcode(), payload })
}

} // verus!
