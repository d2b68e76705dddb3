//! Internal RAM of the 8051 core: 256 bytes holding the register file,
//! the stack and the special-function registers the simulator observes.

use vstd::prelude::*;

verus! {

/// Number of internal RAM bytes.
pub const IRAM_SIZE: usize = 256;

/// The contents of internal RAM immediately after reset: the four port
/// latches (0x80, 0x90, 0xA0, 0xB0) read 0xFF, the stack pointer (0x81)
/// reads 0x07, and every other byte reads 0.
pub open spec fn iram_reset_bytes() -> Seq<u8> {
    Seq::new(IRAM_SIZE as nat, |i: int| {
        if i == 0x80 || i == 0x90 || i == 0xA0 || i == 0xB0 {
            0xFFu8
        } else if i == 0x81 {
            0x07u8
        } else {
            0u8
        }
    })
}

/// Internal RAM with the access transaction the execution core uses.
pub struct IRam {
    data: Vec<u8>,
}

impl View for IRam {
    type V = Seq<u8>;

    closed spec fn view(&self) -> Seq<u8> {
        self.data@
    }
}

impl IRam {
    /// The byte vector always spans the full 256-byte address space.
    pub open spec fn wf(&self) -> bool {
        self@.len() == IRAM_SIZE
    }

    /// Fresh internal RAM in its reset state.
    pub fn new() -> (r: IRam)
        ensures
            r.wf(),
            r@ == iram_reset_bytes(),
    {
        let mut data: Vec<u8> = Vec::new();
        while data.len() < IRAM_SIZE
            invariant
                data@.len() <= IRAM_SIZE,
                forall|i: int| 0 <= i < data@.len() ==> data@[i] == 0u8,
            decreases IRAM_SIZE - data@.len(),
        {
            data.push(0);
        }

        // Set port 0 to 0xFF
        data[0x80] = 0xFF;
        // Set stack pointer to 0x07
        data[0x81] = 0x07;
        // Set port 1 to 0xFF
        data[0x90] = 0xFF;
        // Set port 2 to 0xFF
        data[0xA0] = 0xFF;
        // Set port 3 to 0xFF
        data[0xB0] = 0xFF;

        let r = IRam { data };
        proof {
            assert(r@ =~= iram_reset_bytes());
        }
        r
    }

    /// One internal-RAM access: returns the byte stored at `address`
    /// before the access, and commits `new_opt` if it is a store.
    pub fn transaction(&mut self, address: u16, new_opt: Option<u8>) -> (r: u8)
        requires
            old(self).wf(),
            address < IRAM_SIZE,
        ensures
            final(self).wf(),
            r == old(self)@[address as int],
            final(self)@ == match new_opt {
                Some(new) => old(self)@.update(address as int, new),
                None => old(self)@,
            },
    {
        let old_byte = self.data[address as usize];

        if let Some(new) = new_opt {
            self.data[address as usize] = new;
        }

        old_byte
    }

    /// Reads one byte without committing a store.
    pub fn load(&self, address: u16) -> (r: u8)
        requires
            self.wf(),
            address < IRAM_SIZE,
        ensures
            r == self@[address as int],
    {
        self.data[address as usize]
    }

    /// Commits one byte.
    pub fn store(&mut self, address: u16, value: u8)
        requires
            old(self).wf(),
            address < IRAM_SIZE,
        ensures
            final(self).wf(),
            final(self)@ == old(self)@.update(address as int, value),
    {
        self.data[address as usize] = value;
    }
}

} // verus!
