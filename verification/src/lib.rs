//! Functional model of an ITE IT5570 / IT8587E embedded controller:
//! the memory-mapped register fabric between an 8051 core and its
//! peripherals, the SPI flash command engine behind the indirect flash
//! interface, and the host-visible PMC / KBC / SuperIO mailboxes.

use vstd::prelude::*;

pub mod ec;
pub mod iram;
pub mod laws;
pub mod mailbox;
pub mod socket;
pub mod spi;
pub mod xram;

pub use ec::Ec;
pub use iram::IRam;
pub use socket::socket_op;
pub use spi::Spi;
pub use xram::xram;

verus! {

/// Identifies a failed access: the firmware touched an address the
/// decoder does not model, or the SPI engine was fed bytes it cannot
/// parse. Each failure is terminal for the simulation.
#[derive(Clone, Copy, Debug, PartialEq, Eq, Structural)]
pub enum Error {
    /// The XRAM address falls outside every modelled region.
    UnknownRegion { address: u16 },
    /// The XRAM address falls inside a known region, at an offset the
    /// decoder does not recognize for the current chip family.
    UnknownOffset { address: u16 },
    /// The first queued SPI byte is not a modelled flash command.
    UnknownSpiCommand { opcode: u8 },
    /// A flash command needed more parameter bytes than were queued.
    MissingSpiParameter { opcode: u8 },
    /// Bytes remained queued after a flash command was dispatched.
    SpiInputResidue { opcode: u8 },
    /// An auto-address-increment write arrived before any address was set.
    MissingAaiAddress,
    /// An indirect-flash follow operation used a reserved address byte.
    UnknownFollowAddress { follow: u8 },
    /// The indirect-flash address selected a reserved chip target.
    UnknownFlashChip { select: u8 },
    /// A follow read was issued but the SPI device had no output queued.
    MissingFollowOutput,
}

} // verus!
