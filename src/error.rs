use vstd::prelude::*;
use crate::rom::RomError;

verus! {

/// The direction of a bus access.
#[derive(Clone, Copy, Debug, PartialEq, Eq, Structural)]
pub enum Access {
    Read,
    Write,
}

/// The fatal conditions of the emulator core.
#[derive(Clone, Copy, Debug, PartialEq, Eq, Structural)]
pub enum NesError {
    /// The ROM image is malformed.
    RomFormat(RomError),
    /// The ROM image names a mapper that is not implemented.
    UnsupportedMapper { mapper_id: u8 },
    /// The opcode byte at `pc` is not in the decoder table.
    UnimplementedOpcode { pc: u16, opcode: u8 },
    /// A CPU access to an address that nothing on the bus answers.
    UnimplementedAddress { addr: u16, access: Access },
}

} // verus!
