//! Host-side mailbox operations: what a host write to a command or data
//! port, or a host read of a data port, does to the PMC and KBC
//! mailboxes that the firmware polls through XRAM.

use vstd::prelude::*;

use crate::ec::{Ec, EcState};

verus! {

/// Output buffer full: the firmware has deposited a byte for the host.
pub const STATUS_OBF: u8 = 1;

/// Input buffer full: the host has deposited a byte for the firmware.
pub const STATUS_IBF: u8 = 2;

/// The last host write went to the command port, not the data port.
pub const STATUS_CMD: u8 = 8;

/// PMC status byte, as the firmware sees it.
pub const PMC_STATUS: usize = 0x1500;

/// PMC data-out byte (firmware to host).
pub const PMC_DATA_OUT: usize = 0x1501;

/// PMC data-in byte (host to firmware).
pub const PMC_DATA_IN: usize = 0x1504;

/// KBC status byte.
pub const KBC_STATUS: usize = 0x1304;

/// KBC keyboard data-out byte.
pub const KBC_DATA_KEYBOARD: usize = 0x1306;

/// KBC mouse data-out byte.
pub const KBC_DATA_MOUSE: usize = 0x1308;

/// KBC data-in byte (host to firmware).
pub const KBC_DATA_IN: usize = 0x130A;

/// XRAM after a host write of `data` to a mailbox command port: the
/// status byte at `status` observes IBF and CMD together, and the byte
/// lands at `data_in`.
pub open spec fn host_command_bytes(
    xram: Seq<u8>,
    status: usize,
    data_in: usize,
    data: u8,
) -> Seq<u8> {
    xram.update(status as int, xram[status as int] | (STATUS_CMD | STATUS_IBF)).update(
        data_in as int,
        data,
    )
}

/// XRAM after a host write of `data` to a mailbox data port: the status
/// byte observes IBF set and CMD cleared, and the byte lands at
/// `data_in`.
pub open spec fn host_data_bytes(xram: Seq<u8>, status: usize, data_in: usize, data: u8) -> Seq<
    u8,
> {
    xram.update(status as int, (xram[status as int] & !STATUS_CMD) | STATUS_IBF).update(
        data_in as int,
        data,
    )
}

/// XRAM after a host read of a mailbox data port: OBF is cleared.
pub open spec fn host_read_bytes(xram: Seq<u8>, status: usize) -> Seq<u8> {
    xram.update(status as int, xram[status as int] & !STATUS_OBF)
}

impl Ec {
    /// Host sends a PMC command: sets `IBF|CMD` in the status byte and
    /// deposits the byte at the firmware-side data-in register.
    pub fn pmc_cmd(&mut self, data: u8)
        requires
            old(self).wf(),
        ensures
            final(self).wf(),
            final(self)@ == (EcState {
                xram: host_command_bytes(old(self)@.xram, PMC_STATUS, PMC_DATA_IN, data),
                ..old(self)@
            }),
    {
        self.xram[PMC_STATUS] = self.xram[PMC_STATUS] | (STATUS_CMD | STATUS_IBF);
        self.xram[PMC_DATA_IN] = data;
        proof {
            assert(self@ =~~= (EcState {
                xram: host_command_bytes(old(self)@.xram, PMC_STATUS, PMC_DATA_IN, data),
                ..old(self)@
            }));
        }
    }

    /// Host writes a PMC data byte: sets IBF, clears CMD, deposits the
    /// byte at data-in.
    pub fn pmc_write(&mut self, data: u8)
        requires
            old(self).wf(),
        ensures
            final(self).wf(),
            final(self)@ == (EcState {
                xram: host_data_bytes(old(self)@.xram, PMC_STATUS, PMC_DATA_IN, data),
                ..old(self)@
            }),
    {
        self.xram[PMC_STATUS] = (self.xram[PMC_STATUS] & !STATUS_CMD) | STATUS_IBF;
        self.xram[PMC_DATA_IN] = data;
        proof {
            assert(self@ =~~= (EcState {
                xram: host_data_bytes(old(self)@.xram, PMC_STATUS, PMC_DATA_IN, data),
                ..old(self)@
            }));
        }
    }

    /// Host reads the PMC data port. While OBF is set this returns the
    /// deposited byte and clears OBF — exactly once: with OBF clear
    /// there is nothing to read and the state is untouched.
    pub fn pmc_read(&mut self) -> (r: Option<u8>)
        requires
            old(self).wf(),
        ensures
            final(self).wf(),
            old(self)@.xram[PMC_STATUS as int] & STATUS_OBF != 0 ==> r == Some(
                old(self)@.xram[PMC_DATA_OUT as int],
            ) && final(self)@ == (EcState {
                xram: host_read_bytes(old(self)@.xram, PMC_STATUS),
                ..old(self)@
            }),
            old(self)@.xram[PMC_STATUS as int] & STATUS_OBF == 0 ==> r is None && final(self)@
                == old(self)@,
    {
        if self.xram[PMC_STATUS] & STATUS_OBF != 0 {
            self.xram[PMC_STATUS] = self.xram[PMC_STATUS] & !STATUS_OBF;
            let r = Some(self.xram[PMC_DATA_OUT]);
            proof {
                assert(self@ =~~= (EcState {
                    xram: host_read_bytes(old(self)@.xram, PMC_STATUS),
                    ..old(self)@
                }));
            }
            r
        } else {
            None
        }
    }

    /// Host sends a KBC command through port 0x64.
    pub fn kbc_cmd(&mut self, data: u8)
        requires
            old(self).wf(),
        ensures
            final(self).wf(),
            final(self)@ == (EcState {
                xram: host_command_bytes(old(self)@.xram, KBC_STATUS, KBC_DATA_IN, data),
                ..old(self)@
            }),
    {
        self.xram[KBC_STATUS] = self.xram[KBC_STATUS] | (STATUS_CMD | STATUS_IBF);
        self.xram[KBC_DATA_IN] = data;
        proof {
            assert(self@ =~~= (EcState {
                xram: host_command_bytes(old(self)@.xram, KBC_STATUS, KBC_DATA_IN, data),
                ..old(self)@
            }));
        }
    }

    /// Host writes a KBC data byte.
    pub fn kbc_write(&mut self, data: u8)
        requires
            old(self).wf(),
        ensures
            final(self).wf(),
            final(self)@ == (EcState {
                xram: host_data_bytes(old(self)@.xram, KBC_STATUS, KBC_DATA_IN, data),
                ..old(self)@
            }),
    {
        self.xram[KBC_STATUS] = (self.xram[KBC_STATUS] & !STATUS_CMD) | STATUS_IBF;
        self.xram[KBC_DATA_IN] = data;
        proof {
            assert(self@ =~~= (EcState {
                xram: host_data_bytes(old(self)@.xram, KBC_STATUS, KBC_DATA_IN, data),
                ..old(self)@
            }));
        }
    }

    /// Host reads the KBC keyboard data byte, clearing OBF exactly once.
    pub fn kbc_keyboard(&mut self) -> (r: Option<u8>)
        requires
            old(self).wf(),
        ensures
            final(self).wf(),
            old(self)@.xram[KBC_STATUS as int] & STATUS_OBF != 0 ==> r == Some(
                old(self)@.xram[KBC_DATA_KEYBOARD as int],
            ) && final(self)@ == (EcState {
                xram: host_read_bytes(old(self)@.xram, KBC_STATUS),
                ..old(self)@
            }),
            old(self)@.xram[KBC_STATUS as int] & STATUS_OBF == 0 ==> r is None && final(self)@
                == old(self)@,
    {
        if self.xram[KBC_STATUS] & STATUS_OBF != 0 {
            self.xram[KBC_STATUS] = self.xram[KBC_STATUS] & !STATUS_OBF;
            let r = Some(self.xram[KBC_DATA_KEYBOARD]);
            proof {
                assert(self@ =~~= (EcState {
                    xram: host_read_bytes(old(self)@.xram, KBC_STATUS),
                    ..old(self)@
                }));
            }
            r
        } else {
            None
        }
    }

    /// Host reads the KBC mouse data byte, clearing OBF exactly once.
    pub fn kbc_mouse(&mut self) -> (r: Option<u8>)
        requires
            old(self).wf(),
        ensures
            final(self).wf(),
            old(self)@.xram[KBC_STATUS as int] & STATUS_OBF != 0 ==> r == Some(
                old(self)@.xram[KBC_DATA_MOUSE as int],
            ) && final(self)@ == (EcState {
                xram: host_read_bytes(old(self)@.xram, KBC_STATUS),
                ..old(self)@
            }),
            old(self)@.xram[KBC_STATUS as int] & STATUS_OBF == 0 ==> r is None && final(self)@
                == old(self)@,
    {
        if self.xram[KBC_STATUS] & STATUS_OBF != 0 {
            self.xram[KBC_STATUS] = self.xram[KBC_STATUS] & !STATUS_OBF;
            let r = Some(self.xram[KBC_DATA_MOUSE]);
            proof {
                assert(self@ =~~= (EcState {
                    xram: host_read_bytes(old(self)@.xram, KBC_STATUS),
                    ..old(self)@
                }));
            }
            r
        } else {
            None
        }
    }
}

} // verus!
